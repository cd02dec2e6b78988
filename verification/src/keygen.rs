//! The steps of the key generation that a participant runs: dealing its
//! shares to everybody, and checking the shares it received.

use crate::bignum::{decimal_string, hex_string, lemma_decimal_string_injective, ubig_gen_bits, ubig_to_hex, usize_to_decimal, UBig};
use crate::dkg::feldman_commitments;
use crate::output::{ParticipantGenerated, ParticipantReceived, ParticipantShare};
use crate::strmap::StrMap;
use crate::text::{hex_digits, hex_text, hex_to_biguint, hex_value, lemma_hex_roundtrip, radix_parse_error};
use crate::vss::{
    commitment_sum, commitments_error, deal, deal_error_message, dealt, encodes, share_commitment_log,
    verify, DealParams, DealResult, VerifyParams, VerifyResult,
};
use crate::shamir::values;
use vstd::arithmetic::power::pow;
use vstd::prelude::*;

verus! {

/// `texts` write the Feldman commitments `fc` to the coefficients `a`.
pub open spec fn feldman_texts(texts: Seq<String>, fc: Seq<UBig>, a: Seq<nat>) -> bool {
    &&& fc.len() == a.len()
    &&& texts.len() == a.len()
    &&& forall|j: int|
        0 <= j < a.len() ==> encodes(#[trigger] fc[j], crate::vss::scalar_of(a[j]))
            && texts[j]@ == hex_text(fc[j]@)
}

/// `g` records the deal `res` of a secret below `2^252` by participant `participant_id`.
pub open spec fn generated_from(
    g: ParticipantGenerated,
    res: DealResult,
    secret: nat,
    participant_id: usize,
    participants: usize,
    threshold: usize,
) -> bool {
    let a = values(res.coeffs_a@);
    &&& dealt(res, secret, participants as nat, threshold as nat)
    &&& secret < pow(2, 252)
    &&& g.id == participant_id
    &&& g.pedersen_commitments@.len() == threshold
    &&& forall|j: int|
        0 <= j < threshold ==> (#[trigger] g.pedersen_commitments@[j])@ == hex_text(
            res.commitments@[j]@,
        )
    &&& exists|fc: Seq<UBig>| #[trigger] feldman_texts(g.feldman_commitments@, fc, a)
    &&& g.shares_to.wf()
    &&& g.shares_to.map().dom() == Set::new(
        |k: Seq<char>| exists|i: nat| 1 <= i <= participants && k == #[trigger] decimal_string(i),
    )
    &&& forall|i: int|
        0 <= i < participants ==> #[trigger] share_recorded(g.shares_to.map(), i, res.shares@[i])
}

/// The `i`-th share is recorded, in hexadecimal, under the key `i + 1`.
pub open spec fn share_recorded(
    m: Map<Seq<char>, ParticipantShare>,
    i: int,
    share: (usize, UBig, UBig),
) -> bool {
    let v = m[decimal_string((i + 1) as nat)];
    &&& v.s@ == hex_text(share.1@)
    &&& v.u@ == hex_text(share.2@)
}

fn hex_list(v: &Vec<UBig>) -> (r: Vec<String>)
    ensures
        r.len() == v.len(),
        forall|j: int| 0 <= j < v.len() ==> (#[trigger] r@[j])@ == hex_text(v@[j]@),
{
    let mut out: Vec<String> = Vec::new();
    let mut j: usize = 0;
    while j < v.len()
        invariant
            j <= v.len(),
            out.len() == j,
            forall|k: int| 0 <= k < j ==> (#[trigger] out@[k])@ == hex_text(v@[k]@),
        decreases v.len() - j,
    {
        out.push(ubig_to_hex(&v[j]));
        j = j + 1;
    }
    out
}

/// Deals a fresh random secret of participant `participant_id` to all
/// `participants`, with Pedersen and Feldman commitments, as the record of
/// what this participant generated.
pub fn generate_participant_shares(participant_id: usize, participants: usize, threshold: usize) -> (r:
    Result<ParticipantGenerated, String>)
    ensures
        participant_id < 1 || participant_id > participants ==> r is Err && r->Err_0@
            == "participant_id is not valid"@,
        1 <= participant_id <= participants ==> {
            &&& r is Ok <==> (2 <= threshold <= participants)
            &&& r is Err ==> r->Err_0@ == deal_error_message(participants, threshold)
        },
        r is Ok ==> exists|res: DealResult, secret: nat|
            #[trigger] generated_from(r->Ok_0, res, secret, participant_id, participants, threshold),
{
    if participant_id < 1 || participant_id > participants {
        return Err(String::from_str("participant_id is not valid"));
    }
    let random_secret = ubig_gen_bits(252);
    let ghost secret = random_secret@;
    let dealt_result = match deal(DealParams { secret: random_secret, players: participants, threshold }) {
        Ok(d) => d,
        Err(e) => {
            return Err(e);
        },
    };
    let ghost res = dealt_result;
    let DealResult { commitments, shares, coeffs_a, coeffs_b: _ } = dealt_result;
    let ghost a = values(coeffs_a@);
    let feldman = feldman_commitments(coeffs_a);
    let pedersen_texts = hex_list(&commitments);
    let feldman_hex = hex_list(&feldman);
    let mut shares_to: StrMap<ParticipantShare> = StrMap::new();
    let mut i: usize = 0;
    while i < shares.len()
        invariant
            shares@ == res.shares@,
            shares.len() == participants,
            forall|j: int| 0 <= j < participants ==> (#[trigger] shares@[j]).0 == j + 1,
            i <= participants,
            shares_to.wf(),
            shares_to.map().dom() == Set::new(
                |k: Seq<char>| exists|j: nat| 1 <= j <= i && k == #[trigger] decimal_string(j),
            ),
            forall|j: int|
                0 <= j < i ==> #[trigger] share_recorded(shares_to.map(), j, shares@[j]),
        decreases participants - i,
    {
        let key = usize_to_decimal(shares[i].0);
        let value = ParticipantShare { s: ubig_to_hex(&shares[i].1), u: ubig_to_hex(&shares[i].2) };
        let ghost before = shares_to.map();
        let ghost v = value;
        shares_to.insert(key, value);
        proof {
            assert(shares@[i as int].0 == i + 1);
            assert forall|j: int| 0 <= j < i + 1 implies #[trigger] share_recorded(
                shares_to.map(),
                j,
                shares@[j],
            ) by {
                if j < i {
                    assert(decimal_string((j + 1) as nat) != decimal_string((i + 1) as nat)) by {
                        if decimal_string((j + 1) as nat) == decimal_string((i + 1) as nat) {
                            lemma_decimal_string_injective((j + 1) as nat, (i + 1) as nat);
                        }
                    }
                    assert(share_recorded(before, j, shares@[j]));
                }
            }
            assert forall|j: nat| 1 <= j <= i implies #[trigger] decimal_string(j) != decimal_string(
                (i + 1) as nat,
            ) by {
                if decimal_string(j) == decimal_string((i + 1) as nat) {
                    lemma_decimal_string_injective(j, (i + 1) as nat);
                }
            }
            assert(shares_to.map().dom() =~= Set::new(
                |k: Seq<char>| exists|j: nat| 1 <= j <= i + 1 && k == #[trigger] decimal_string(j),
            )) by {
                assert forall|k: Seq<char>| #[trigger] shares_to.map().dom().contains(k) implies exists|j: nat| 1 <= j <= i + 1 && k == #[trigger] decimal_string(j) by {
                    if k != decimal_string((i + 1) as nat) {
                        assert(before.dom().contains(k));
                    }
                }
                assert forall|k: Seq<char>| (exists|j: nat| 1 <= j <= i + 1 && k == #[trigger] decimal_string(j)) implies #[trigger] shares_to.map().dom().contains(k) by {
                    let j = choose|j: nat| 1 <= j <= i + 1 && k == #[trigger] decimal_string(j);
                    if j <= i {
                        assert(before.dom().contains(k));
                    }
                }
            }
        }
        i = i + 1;
    }
    let g = ParticipantGenerated {
        id: participant_id,
        pedersen_commitments: pedersen_texts,
        feldman_commitments: feldman_hex,
        shares_to,
    };
    proof {
        let fc = feldman@;
        assert(feldman_texts(g.feldman_commitments@, fc, a));
        assert(generated_from(g, res, secret, participant_id, participants, threshold));
    }
    let out: Result<ParticipantGenerated, String> = Ok(g);
    assert(out->Ok_0 == g);
    assert(generated_from(out->Ok_0, res, secret, participant_id, participants, threshold));
    out
}

/// Checks that the records hold the data of all `participants` dealers.
pub fn check_received_complete(received: &ParticipantReceived, participants: usize) -> (r: Result<
    (),
    String,
>)
    ensures
        r is Ok <==> (received.pedersen_commitments.entries.len() == participants
            && received.shares_from.entries.len() == participants),
        r is Err ==> r->Err_0@ == "have not received data of all participants"@,
{
    if received.pedersen_commitments.entries.len() != participants
        || received.shares_from.entries.len() != participants {
        return Err(String::from_str("have not received data of all participants"));
    }
    Ok(())
}

/// The first refusal among reading the hexadecimal texts `t[..k]`.
pub open spec fn hex_list_error(t: Seq<Seq<char>>, k: int) -> Option<Seq<char>>
    decreases k,
{
    if k <= 0 {
        None
    } else {
        match hex_list_error(t, k - 1) {
            Some(e) => Some(e),
            None => radix_parse_error(hex_digits(t[k - 1]), 16),
        }
    }
}

proof fn lemma_hex_error_persists(t: Seq<Seq<char>>, k: int, n: int)
    requires
        0 <= k <= n,
        hex_list_error(t, k) is Some,
    ensures
        hex_list_error(t, n) == hex_list_error(t, k),
    decreases n - k,
{
    if k < n {
        lemma_hex_error_persists(t, k, n - 1);
    }
}

/// The views of a list of strings.
pub open spec fn texts(v: Seq<String>) -> Seq<Seq<char>> {
    Seq::new(v.len(), |i: int| v[i]@)
}

/// The outcome of checking the share that dealer `p_id` sent to
/// `participant_id`, from the records alone, up to the verification itself.
pub open spec fn share_check_error(received: ParticipantReceived, participant_id: usize, p_id: usize) -> Option<Seq<char>> {
    let key = decimal_string(p_id as nat);
    let shares = received.shares_from.map();
    let pedersen = received.pedersen_commitments.map();
    if !shares.dom().contains(key) {
        Some("cannot load share of pariticipant "@ + key + " from received data of participant "@
            + decimal_string(participant_id as nat))
    } else if radix_parse_error(hex_digits(shares[key].s@), 16) is Some {
        radix_parse_error(hex_digits(shares[key].s@), 16)
    } else if radix_parse_error(hex_digits(shares[key].u@), 16) is Some {
        radix_parse_error(hex_digits(shares[key].u@), 16)
    } else if !pedersen.dom().contains(key) {
        Some("cannot load Pedersen commitments of pariticipant "@ + key
            + " from received data of participant "@ + decimal_string(participant_id as nat))
    } else {
        hex_list_error(texts(pedersen[key]@), pedersen[key].len() as int)
    }
}

/// Checks the share that dealer `p_id` sent to this participant against the
/// dealer's Pedersen commitments, both read from the records.
pub fn verify_received_share(received: &ParticipantReceived, participant_id: usize, p_id: usize) -> (r:
    Result<VerifyResult, String>)
    requires
        received.wf(),
    ensures
        share_check_error(*received, participant_id, p_id) is Some ==> r is Err && r->Err_0@
            == share_check_error(*received, participant_id, p_id)->0,
        share_check_error(*received, participant_id, p_id) is None ==> {
            let key = decimal_string(p_id as nat);
            let share = received.shares_from.map()[key];
            let cs = Seq::new(
                received.pedersen_commitments.map()[key]@.len(),
                |j: int| hex_value(received.pedersen_commitments.map()[key]@[j]@),
            );
            let n = cs.len() as int;
            let lhs = share_commitment_log(hex_value(share.s@), hex_value(share.u@));
            let rhs = commitment_sum(cs, participant_id as nat, n);
            &&& r is Ok <==> commitments_error(cs, n) is None
            &&& r is Err ==> Some(r->Err_0@) == commitments_error(cs, n)
            &&& r is Ok ==> r->Ok_0.result == (lhs == rhs)
            &&& r is Ok ==> encodes(r->Ok_0.verify_commitment_value, lhs)
            &&& r is Ok ==> encodes(r->Ok_0.verify_share_value, rhs)
            &&& r is Ok ==> r->Ok_0.result == (r->Ok_0.verify_commitment_value@
                == r->Ok_0.verify_share_value@)
        },
{
    let key = usize_to_decimal(p_id);
    let share = match received.shares_from.get(&key) {
        Some(s) => s,
        None => {
            let mut msg = String::from_str("cannot load share of pariticipant ");
            msg.append(key.as_str());
            msg.append(" from received data of participant ");
            msg.append(usize_to_decimal(participant_id).as_str());
            return Err(msg);
        },
    };
    let s = match hex_to_biguint(share.s.as_str()) {
        Ok(v) => v,
        Err(e) => {
            return Err(e);
        },
    };
    let u = match hex_to_biguint(share.u.as_str()) {
        Ok(v) => v,
        Err(e) => {
            return Err(e);
        },
    };
    let texts_vec = match received.pedersen_commitments.get(&key) {
        Some(c) => c,
        None => {
            let mut msg = String::from_str("cannot load Pedersen commitments of pariticipant ");
            msg.append(key.as_str());
            msg.append(" from received data of participant ");
            msg.append(usize_to_decimal(participant_id).as_str());
            return Err(msg);
        },
    };
    let ghost t = texts(texts_vec@);
    let mut commitments: Vec<UBig> = Vec::new();
    let mut j: usize = 0;
    while j < texts_vec.len()
        invariant
            t == texts(texts_vec@),
            key@ == decimal_string(p_id as nat),
            received.shares_from.map().dom().contains(key@),
            received.pedersen_commitments.map().dom().contains(key@),
            *share == received.shares_from.map()[key@],
            *texts_vec == received.pedersen_commitments.map()[key@],
            radix_parse_error(hex_digits(share.s@), 16) is None,
            radix_parse_error(hex_digits(share.u@), 16) is None,
            j <= texts_vec.len(),
            commitments.len() == j,
            hex_list_error(t, j as int) is None,
            forall|k: int| 0 <= k < j ==> #[trigger] commitments@[k]@ == hex_value(t[k]),
        decreases texts_vec.len() - j,
    {
        match hex_to_biguint(texts_vec[j].as_str()) {
            Ok(v) => {
                commitments.push(v);
            },
            Err(e) => {
                proof {
                    lemma_hex_error_persists(t, j + 1, t.len() as int);
                }
                return Err(e);
            },
        }
        j = j + 1;
    }
    let ghost cs = values(commitments@);
    assert(cs =~= Seq::new(
        received.pedersen_commitments.map()[key@]@.len(),
        |k: int| hex_value(received.pedersen_commitments.map()[key@]@[k]@),
    ));
    verify(VerifyParams { commitments, share: (participant_id, s, u) })
}

/// Hexadecimal texts of numbers all read back.
proof fn lemma_hex_texts_read(t: Seq<Seq<char>>, v: Seq<nat>, k: int)
    requires
        0 <= k <= t.len(),
        t.len() == v.len(),
        forall|j: int| 0 <= j < t.len() ==> #[trigger] t[j] == hex_text(v[j]),
    ensures
        hex_list_error(t, k) is None,
    decreases k,
{
    if k > 0 {
        lemma_hex_texts_read(t, v, k - 1);
        lemma_hex_roundtrip(v[k - 1]);
    }
}

/// Key generation's shares verify: when participant `i` has recorded, as
/// sent by dealer `dealer`, the Pedersen commitments and the share that the
/// dealer generated for it, checking that share finds everything readable and
/// `s·G + u·H` equal to `Σ_j E_j · i^j`.
pub proof fn lemma_generated_share_verifies(
    g: ParticipantGenerated,
    res: DealResult,
    secret: nat,
    dealer: usize,
    participants: usize,
    threshold: usize,
    received: ParticipantReceived,
    i: usize,
)
    requires
        generated_from(g, res, secret, dealer, participants, threshold),
        received.wf(),
        1 <= i <= participants,
        received.shares_from.map().dom().contains(decimal_string(dealer as nat)),
        received.shares_from.map()[decimal_string(dealer as nat)]
            == g.shares_to.map()[decimal_string(i as nat)],
        received.pedersen_commitments.map().dom().contains(decimal_string(dealer as nat)),
        texts(received.pedersen_commitments.map()[decimal_string(dealer as nat)]@) == texts(
            g.pedersen_commitments@,
        ),
    ensures
        share_check_error(received, i, dealer) is None,
        ({
            let key = decimal_string(dealer as nat);
            let share = received.shares_from.map()[key];
            let cs = Seq::new(
                received.pedersen_commitments.map()[key]@.len(),
                |j: int| hex_value(received.pedersen_commitments.map()[key]@[j]@),
            );
            let n = cs.len() as int;
            &&& commitments_error(cs, n) is None
            &&& share_commitment_log(hex_value(share.s@), hex_value(share.u@)) == commitment_sum(
                cs,
                i as nat,
                n,
            )
        }),
{
    let key = decimal_string(dealer as nat);
    let share = received.shares_from.map()[key];
    let k = i as int - 1;
    assert(share_recorded(g.shares_to.map(), k, res.shares@[k]));
    assert((k + 1) as nat == i as nat);
    let dealt_share = res.shares@[k];
    lemma_hex_roundtrip(dealt_share.1@);
    lemma_hex_roundtrip(dealt_share.2@);
    let tv = received.pedersen_commitments.map()[key]@;
    let t = texts(tv);
    let vals = values(res.commitments@);
    assert forall|j: int| 0 <= j < t.len() implies #[trigger] t[j] == hex_text(vals[j]) by {
        assert(t[j] == texts(g.pedersen_commitments@)[j]);
        assert(g.pedersen_commitments@[j]@ == hex_text(res.commitments@[j]@));
    }
    lemma_hex_texts_read(t, vals, t.len() as int);
    let cs = Seq::new(tv.len(), |j: int| hex_value(tv[j]@));
    assert forall|j: int| 0 <= j < cs.len() implies cs[j] == vals[j] by {
        assert(tv[j]@ == t[j]);
        lemma_hex_roundtrip(vals[j]);
    }
    assert(cs =~= vals);
    crate::vss_law::lemma_dealt_shares_verify(res, secret, participants as nat, threshold as nat, k);
}

} // verus!
