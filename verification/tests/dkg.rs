use crypto::bignum::UBig;
use crypto::dkg::{
    feldman_commitments, feldman_derived_public_key, feldman_verify, gennaro_derive_key_share,
};
use crypto::keygen::{check_received_complete, generate_participant_shares, verify_received_share};
use crypto::output::{Output, ParticipantDerived, ParticipantReceived, ParticipantShare};
use crypto::strmap::{StrMap, StrSet};
use crypto::vss::{deal, reconstruct, DealParams, ReconstructParams};
use num_bigint::BigUint;

fn n(v: u64) -> UBig {
    UBig::from_u64(v)
}

fn to_big(v: &UBig) -> BigUint {
    BigUint::from_bytes_le(&v.le_bytes)
}

fn from_big(v: &BigUint) -> UBig {
    UBig { le_bytes: v.to_bytes_le() }
}

/// The order of the Ristretto group, 2^252 + 27742317777372353535851937790883648493.
fn group_order() -> BigUint {
    let low: BigUint = "27742317777372353535851937790883648493".parse().unwrap();
    (BigUint::from(1u8) << 252) + low
}

fn share(s: &str, u: &str) -> ParticipantShare {
    ParticipantShare { s: s.to_string(), u: u.to_string() }
}

#[test]
fn feldman_accepts_the_dealt_share() {
    // A(x) = 5 + 7x: A(2) = 19.
    let commitments = feldman_commitments(vec![n(5), n(7)]);
    assert_eq!(commitments.len(), 2);
    let (ok, lhs, rhs) = feldman_verify(2, commitments.clone(), n(19)).unwrap();
    assert!(ok);
    assert_eq!(lhs, rhs);
    let (ok, lhs, rhs) = feldman_verify(2, commitments, n(20)).unwrap();
    assert!(!ok);
    assert_ne!(lhs, rhs);
}

#[test]
fn feldman_commitment_of_zero_is_identity() {
    // The identity element is encoded by 32 zero bytes.
    let commitments = feldman_commitments(vec![n(0)]);
    assert_eq!(commitments[0], n(0));
    let one = feldman_commitments(vec![n(1)]);
    assert_ne!(one[0], n(0));
}

#[test]
fn feldman_commitments_reduce_modulo_the_group_order() {
    let l = group_order();
    let a = feldman_commitments(vec![from_big(&(&l + 3u8))]);
    let b = feldman_commitments(vec![n(3)]);
    assert_eq!(a[0], b[0]);
}

#[test]
fn feldman_verify_rejects_oversized_commitment() {
    let big = UBig { le_bytes: vec![1u8; 40] };
    match feldman_verify(1, vec![big], n(1)) {
        Err(e) => assert_eq!(e, "commitment too large for 32-byte point"),
        Ok(_) => panic!("expected an error"),
    }
}

#[test]
fn feldman_verify_rejects_undecodable_commitment() {
    match feldman_verify(1, vec![n(3)], n(1)) {
        Err(e) => assert_eq!(e, "invalid compressed point for value 3"),
        Ok(_) => panic!("expected an error"),
    }
}

#[test]
fn gennaro_key_share_is_the_sum() {
    assert_eq!(gennaro_derive_key_share(vec![n(1), n(2), n(3)]).unwrap(), n(6));
    assert_eq!(gennaro_derive_key_share(vec![]).unwrap(), n(0));
    let l = group_order();
    let r = gennaro_derive_key_share(vec![from_big(&(&l - 1u8)), n(2)]).unwrap();
    assert_eq!(r, n(1));
}

#[test]
fn derived_public_key_sums_first_commitments() {
    let mut m: StrMap<Vec<UBig>> = StrMap::new();
    m.insert("1".to_string(), vec![n(10), n(99)]);
    m.insert("2".to_string(), vec![n(20)]);
    assert_eq!(feldman_derived_public_key(m).unwrap(), n(30));
}

#[test]
fn derived_public_key_refuses_empty_commitments() {
    let mut m: StrMap<Vec<UBig>> = StrMap::new();
    m.insert("1".to_string(), vec![n(10)]);
    m.insert("2".to_string(), vec![]);
    match feldman_derived_public_key(m) {
        Err(e) => assert_eq!(e, "participant 2 has no commitments"),
        Ok(_) => panic!("expected an error"),
    }
}

#[test]
fn strmap_insert_get_take() {
    let mut m: StrMap<u64> = StrMap::new();
    m.insert("a".to_string(), 1);
    m.insert("b".to_string(), 2);
    m.insert("a".to_string(), 3);
    assert_eq!(m.entries.len(), 2);
    assert_eq!(m.get(&"a".to_string()), Some(&3));
    assert_eq!(m.find(&"b".to_string()), Some(1));
    assert_eq!(m.take(&"a".to_string()), Some(3));
    assert_eq!(m.get(&"a".to_string()), None);
    assert_eq!(m.take(&"z".to_string()), None);
    let mut s = StrSet::new();
    s.insert("x".to_string());
    s.insert("x".to_string());
    assert_eq!(s.items.len(), 1);
}

#[test]
fn output_paths() {
    let o = Output::new(12);
    assert_eq!(o.id(), 12);
    assert_eq!(o.generated_filepath(), "output/participant-12/generated.json");
    assert_eq!(o.received_filepath(), "output/participant-12/received.json");
    assert_eq!(o.derived_filepath(), "output/participant-12/derived.json");
}

#[test]
fn append_received_overrides_earlier_records() {
    let o = Output::new(1);
    let mut r = ParticipantReceived::empty();
    o.append_received(&mut r, "2".to_string(), vec!["0x1".to_string()], vec![], share("0x2", "0x3"));
    o.append_received(&mut r, "2".to_string(), vec!["0x4".to_string()], vec![], share("0x5", "0x6"));
    o.append_received(&mut r, "3".to_string(), vec![], vec![], share("0x7", "0x8"));
    assert_eq!(r.shares_from.entries.len(), 2);
    assert_eq!(r.pedersen_commitments.get(&"2".to_string()).unwrap(), &vec!["0x4".to_string()]);
    assert_eq!(r.shares_from.get(&"2".to_string()).unwrap().s, "0x5");
    assert!(r.data.is_none());
}

#[test]
fn derived_key_records_round_trip() {
    let o = Output::new(1);
    let mut d = ParticipantDerived::empty();
    o.write_share_key(&mut d, &n(255));
    assert_eq!(d.share_key, "0xff");
    assert_eq!(o.read_share_key(&d).unwrap(), n(255));
    o.write_public_key(&mut d, &n(4096));
    assert_eq!(d.public_key, Some("0x1000".to_string()));
    o.save_complaint_pedersen(&mut d, "3".to_string());
    o.save_complaint_pedersen(&mut d, "3".to_string());
    o.save_complaint_pedersen(&mut d, "4".to_string());
    assert_eq!(d.complaint_pedersen.as_ref().unwrap().items.len(), 2);
    assert_eq!(d.share_key, "0xff");
}

#[test]
fn read_share_key_refuses_bad_text() {
    let o = Output::new(1);
    let mut d = ParticipantDerived::empty();
    assert_eq!(o.read_share_key(&d).unwrap_err(), "cannot parse integer from empty string");
    d.share_key = "0xzz".to_string();
    assert_eq!(o.read_share_key(&d).unwrap_err(), "invalid digit found in string");
}

#[test]
fn complaints_and_justifications_are_recorded() {
    let sender = Output::new(2);
    let mut r = ParticipantReceived::empty();
    let receiver = sender.send_complaint_pedersen(5, &mut r, "3".to_string());
    assert_eq!(receiver.id(), 5);
    assert_eq!(receiver.received_filepath(), "output/participant-5/received.json");
    {
        let data = r.data.as_ref().unwrap();
        let sent = data.get(&"2".to_string()).unwrap();
        assert_eq!(sent.complaint_pedersen.items, vec!["3".to_string()]);
        assert!(sent.justification.is_none());
    }
    sender.send_justification(5, &mut r, "3".to_string(), share("0xa", "0xb"));
    {
        let data = r.data.as_ref().unwrap();
        let sent = data.get(&"2".to_string()).unwrap();
        assert_eq!(sent.complaint_pedersen.items, vec!["3".to_string()]);
        let j = sent.justification.as_ref().unwrap();
        assert_eq!(j.get(&"3".to_string()).unwrap().s, "0xa");
    }
    receiver.received_complaint_pedersen(&mut r, 7, "1".to_string());
    receiver.receive_justify_commitment(&mut r, 8, "1".to_string(), share("0xc", "0xd"));
    let data = r.data.as_ref().unwrap();
    assert_eq!(data.entries.len(), 3);
    assert!(data.get(&"7".to_string()).unwrap().justification.is_none());
    let sent8 = data.get(&"8".to_string()).unwrap();
    assert!(sent8.complaint_pedersen.items.is_empty());
    assert_eq!(sent8.justification.as_ref().unwrap().entries.len(), 1);
}

#[test]
fn generate_participant_shares_refusals() {
    match generate_participant_shares(0, 3, 2) {
        Err(e) => assert_eq!(e, "participant_id is not valid"),
        Ok(_) => panic!("expected an error"),
    }
    match generate_participant_shares(4, 3, 2) {
        Err(e) => assert_eq!(e, "participant_id is not valid"),
        Ok(_) => panic!("expected an error"),
    }
    match generate_participant_shares(1, 3, 4) {
        Err(e) => assert_eq!(
            e,
            "threshold must be greater than 1 and smaller than number of players 3, receive 4"
        ),
        Ok(_) => panic!("expected an error"),
    }
}

#[test]
fn key_generation_flow() {
    let participants = 3;
    let threshold = 2;
    let mut received: Vec<ParticipantReceived> =
        (0..participants).map(|_| ParticipantReceived::empty()).collect();
    for dealer in 1..=participants {
        let g = generate_participant_shares(dealer, participants, threshold).unwrap();
        assert_eq!(g.id, dealer);
        assert_eq!(g.pedersen_commitments.len(), threshold);
        assert_eq!(g.feldman_commitments.len(), threshold);
        assert_eq!(g.shares_to.entries.len(), participants);
        for i in 1..=participants {
            let to = Output::new(i);
            let sh = g.shares_to.get(&i.to_string()).unwrap().copy();
            to.append_received(
                &mut received[i - 1],
                dealer.to_string(),
                g.pedersen_commitments.clone(),
                g.feldman_commitments.clone(),
                sh,
            );
        }
    }
    for i in 1..=participants {
        assert!(check_received_complete(&received[i - 1], participants).is_ok());
        for dealer in 1..=participants {
            let v = verify_received_share(&received[i - 1], i, dealer).unwrap();
            assert!(v.result);
        }
    }
    // A share checked under another participant's index fails.
    let v = verify_received_share(&received[0], 2, 1).unwrap();
    assert!(!v.result);
}

#[test]
fn received_share_refusals() {
    let r = ParticipantReceived::empty();
    assert_eq!(
        check_received_complete(&r, 2).unwrap_err(),
        "have not received data of all participants"
    );
    match verify_received_share(&r, 1, 2) {
        Err(e) => {
            assert_eq!(e, "cannot load share of pariticipant 2 from received data of participant 1")
        }
        Ok(_) => panic!("expected an error"),
    }
    let mut r = ParticipantReceived::empty();
    r.shares_from.insert("2".to_string(), share("0x1", "0x2"));
    match verify_received_share(&r, 1, 2) {
        Err(e) => assert_eq!(
            e,
            "cannot load Pedersen commitments of pariticipant 2 from received data of participant 1"
        ),
        Ok(_) => panic!("expected an error"),
    }
    r.shares_from.insert("2".to_string(), share("0xg", "0x2"));
    assert_eq!(verify_received_share(&r, 1, 2).unwrap_err(), "invalid digit found in string");
}

#[test]
fn key_shares_reconstruct_joint_secret() {
    let secrets = [n(11), n(22), n(33)];
    let deals: Vec<_> = secrets
        .iter()
        .map(|s| deal(DealParams { secret: s.clone(), players: 4, threshold: 3 }).unwrap())
        .collect();
    // participant i derives its key share from the shares every dealer sent it
    let key_shares: Vec<UBig> = (0..4)
        .map(|i| {
            let received: Vec<UBig> = deals.iter().map(|d| d.shares[i].1.clone()).collect();
            gennaro_derive_key_share(received).unwrap()
        })
        .collect();
    for chosen in [[0usize, 1, 2], [1, 2, 3], [0, 2, 3]] {
        let shares: Vec<(UBig, UBig)> =
            chosen.iter().map(|&i| (n(i as u64 + 1), key_shares[i].clone())).collect();
        assert_eq!(reconstruct(ReconstructParams { shares }), n(66));
    }
}

#[test]
fn large_numbers_are_reduced_modulo_the_group_order() {
    let big = BigUint::from(1u8) << 512;
    let expected = from_big(&(&big % group_order()));
    assert_eq!(gennaro_derive_key_share(vec![from_big(&big)]).unwrap(), expected);
    let d = deal(DealParams { secret: from_big(&big), players: 3, threshold: 2 }).unwrap();
    assert_eq!(d.coeffs_a[0], expected);
    let shares: Vec<(UBig, UBig)> =
        d.shares.iter().take(2).map(|s| (n(s.0 as u64), s.1.clone())).collect();
    assert_eq!(reconstruct(ReconstructParams { shares }), expected);
    let a = feldman_commitments(vec![from_big(&big)]);
    let b = feldman_commitments(vec![expected.clone()]);
    assert_eq!(a[0], b[0]);
}

#[test]
fn verification_returns_equal_values_on_success() {
    let d = deal(DealParams { secret: n(9), players: 3, threshold: 2 }).unwrap();
    for s in &d.shares {
        let v = crypto::vss::verify(crypto::vss::VerifyParams {
            commitments: d.commitments.clone(),
            share: s.clone(),
        })
        .unwrap();
        assert!(v.result);
        assert_eq!(v.verify_commitment_value, v.verify_share_value);
    }
    let (ok, c1, c2) = feldman_verify(3, feldman_commitments(vec![n(2), n(5)]), n(17)).unwrap();
    assert!(ok);
    assert_eq!(c1, c2);
}

fn snapshot(r: &ParticipantReceived) -> Vec<String> {
    fn sorted<T: std::fmt::Debug>(entries: &[(String, T)]) -> Vec<String> {
        let mut v: Vec<String> = entries.iter().map(|e| format!("{:?}", e)).collect();
        v.sort();
        v
    }
    let mut out = vec![];
    out.extend(sorted(&r.pedersen_commitments.entries));
    out.extend(sorted(&r.feldman_commitments.entries));
    out.extend(sorted(&r.shares_from.entries));
    match &r.data {
        None => out.push("no data".to_string()),
        Some(d) => {
            let mut keys: Vec<String> = vec![];
            for (k, sent) in &d.entries {
                let mut c = sent.complaint_pedersen.items.clone();
                c.sort();
                let j = match &sent.justification {
                    None => "none".to_string(),
                    Some(m) => format!("{:?}", sorted(&m.entries)),
                };
                keys.push(format!("{} {:?} {}", k, c, j));
            }
            keys.sort();
            out.extend(keys);
        }
    }
    out
}

#[test]
fn repeated_append_changes_nothing() {
    let o = Output::new(1);
    let mut r = ParticipantReceived::empty();
    o.append_received(&mut r, "2".to_string(), vec!["0x1".to_string()], vec![], share("0x2", "0x3"));
    let once = snapshot(&r);
    o.append_received(&mut r, "2".to_string(), vec!["0x1".to_string()], vec![], share("0x2", "0x3"));
    assert_eq!(snapshot(&r), once);
}

#[test]
fn complaint_and_justification_commute() {
    let o = Output::new(1);
    for (cf, jf) in [(2usize, 3usize), (2, 2)] {
        let mut a = ParticipantReceived::empty();
        o.received_complaint_pedersen(&mut a, cf, "4".to_string());
        o.receive_justify_commitment(&mut a, jf, "5".to_string(), share("0xa", "0xb"));
        let mut b = ParticipantReceived::empty();
        o.receive_justify_commitment(&mut b, jf, "5".to_string(), share("0xa", "0xb"));
        o.received_complaint_pedersen(&mut b, cf, "4".to_string());
        assert_eq!(snapshot(&a), snapshot(&b));
    }
}

#[test]
fn sending_equals_receiving() {
    let mut a = ParticipantReceived::empty();
    Output::new(2).send_complaint_pedersen(5, &mut a, "3".to_string());
    Output::new(2).send_justification(5, &mut a, "3".to_string(), share("0x1", "0x2"));
    let mut b = ParticipantReceived::empty();
    Output::new(5).received_complaint_pedersen(&mut b, 2, "3".to_string());
    Output::new(5).receive_justify_commitment(&mut b, 2, "3".to_string(), share("0x1", "0x2"));
    assert_eq!(snapshot(&a), snapshot(&b));
}
