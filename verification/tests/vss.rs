use crypto::bignum::UBig;
use crypto::vss::{deal, reconstruct, verify, DealParams, DealResult, ReconstructParams, VerifyParams};
use num_bigint::RandBigInt;

fn build_subsets<T: Clone>(
    items: &[T],
    k: usize,
    start: usize,
    current: &mut Vec<T>,
    result: &mut Vec<Vec<T>>,
) {
    if current.len() == k {
        result.push(current.clone());
        return;
    }
    for i in start..items.len() {
        current.push(items[i].clone());
        build_subsets(items, k, i + 1, current, result);
        current.pop();
    }
}

/// All k-sized subsets of a slice.
fn subsets<T: Clone>(items: &[T], k: usize) -> Vec<Vec<T>> {
    let mut result = Vec::new();
    let mut current = Vec::with_capacity(k);
    build_subsets(items, k, 0, &mut current, &mut result);
    result
}

/// A random number below 2^252, the size of the group order.
fn gen_rand_biguint() -> UBig {
    let mut rng = rand::thread_rng();
    UBig { le_bytes: rng.gen_biguint(252).to_bytes_le() }
}

fn full_flow() {
    let test_cases: Vec<UBig> = vec![UBig::from_u64(25), gen_rand_biguint()];
    let players_threshold: Vec<(usize, usize)> = vec![(2, 2), (3, 2), (3, 3), (5, 3), (5, 5)];

    for secret in test_cases {
        for (players, threshold) in &players_threshold {
            let deal_result = deal(DealParams {
                secret: secret.clone(),
                players: *players,
                threshold: *threshold,
            })
            .unwrap();

            for share in &deal_result.shares {
                let verify_result = verify(VerifyParams {
                    commitments: deal_result.commitments.clone(),
                    share: share.clone(),
                })
                .unwrap();
                assert!(verify_result.result);
            }

            for subset in subsets(&deal_result.shares, *threshold) {
                let reconstruct_result = reconstruct(ReconstructParams {
                    shares: subset
                        .iter()
                        .map(|s| (UBig::from_u64(s.0 as u64), s.1.clone()))
                        .collect(),
                });
                assert_eq!(reconstruct_result, secret);
            }
        }
    }
}

fn invalid_players_threshold() {
    let test_cases: Vec<(usize, usize)> = vec![(0, 0), (1, 1), (2, 1), (5, 1), (5, 6)];
    for t in test_cases {
        let r = deal(DealParams { secret: UBig::from_u64(25), players: t.0, threshold: t.1 });
        assert!(r.is_err());
    }
}

fn two_deals() -> Vec<DealResult> {
    let mut deal_results: Vec<DealResult> = vec![];
    for _ in 0..2 {
        deal_results.push(
            deal(DealParams { secret: UBig::from_u64(25), players: 5, threshold: 3 }).unwrap(),
        );
    }
    deal_results
}

fn each_deal_differs() {
    let deal_results = two_deals();
    for i in 0..=2 {
        assert_ne!(deal_results[0].commitments[i], deal_results[1].commitments[i]);
        assert_eq!(deal_results[0].shares[i].0, deal_results[1].shares[i].0);
        assert_ne!(deal_results[0].shares[i].1, deal_results[1].shares[i].1);
        assert_ne!(deal_results[0].shares[i].2, deal_results[1].shares[i].2);
    }
}

fn verify_fails_on_foreign_shares() {
    let deal_results = two_deals();
    for i in 0..5 {
        let verify_result = verify(VerifyParams {
            commitments: deal_results[0].commitments.clone(),
            share: deal_results[1].shares[i].clone(),
        })
        .unwrap();
        assert!(!verify_result.result);
    }
}

fn insufficient_shares() {
    let test_cases: Vec<UBig> = vec![UBig::from_u64(25), gen_rand_biguint()];

    for secret in test_cases {
        let deal_result =
            deal(DealParams { secret: secret.clone(), players: 5, threshold: 3 }).unwrap();

        for share in &deal_result.shares {
            let verify_result = verify(VerifyParams {
                commitments: deal_result.commitments.clone(),
                share: share.clone(),
            })
            .unwrap();
            assert!(verify_result.result);
        }

        for subset in subsets(&deal_result.shares, 2) {
            let reconstruct_result = reconstruct(ReconstructParams {
                shares: subset
                    .iter()
                    .map(|s| (UBig::from_u64(s.0 as u64), s.1.clone()))
                    .collect(),
            });
            assert_ne!(reconstruct_result, secret);
        }
    }
}

#[test]
fn lib_test_full_flow() {
    full_flow();
}

#[test]
fn main_test_full_flow() {
    full_flow();
}

#[test]
fn test_deal_invalid_value_players_threshold() {
    invalid_players_threshold();
}

#[test]
fn test_invalid_value_players_threshold() {
    invalid_players_threshold();
}

#[test]
fn test_deal_each_deal_run_produces_different_result() {
    each_deal_differs();
}

#[test]
fn test_each_deal_run_produces_different_result() {
    each_deal_differs();
}

#[test]
fn lib_test_verify_fail() {
    verify_fails_on_foreign_shares();
}

#[test]
fn main_test_verify_fail() {
    verify_fails_on_foreign_shares();
}

#[test]
fn lib_test_reconstruct_incorrect_with_insufficient_shares() {
    insufficient_shares();
}

#[test]
fn main_test_reconstruct_incorrect_with_insufficient_shares() {
    insufficient_shares();
}

#[test]
fn deal_error_message_names_players_and_threshold() {
    let r = deal(DealParams { secret: UBig::from_u64(25), players: 5, threshold: 6 });
    match r {
        Err(e) => assert_eq!(
            e,
            "threshold must be greater than 1 and smaller than number of players 5, receive 6"
        ),
        Ok(_) => panic!("expected an error"),
    }
}

#[test]
fn deal_shapes_and_secret_coefficient() {
    let r = deal(DealParams { secret: UBig::from_u64(1234), players: 4, threshold: 3 }).unwrap();
    assert_eq!(r.commitments.len(), 3);
    assert_eq!(r.coeffs_a.len(), 3);
    assert_eq!(r.coeffs_b.len(), 3);
    assert_eq!(r.shares.len(), 4);
    assert_eq!(r.coeffs_a[0], UBig::from_u64(1234));
    for (i, s) in r.shares.iter().enumerate() {
        assert_eq!(s.0, i + 1);
    }
}

#[test]
fn verify_rejects_oversized_commitment() {
    let r = deal(DealParams { secret: UBig::from_u64(7), players: 3, threshold: 2 }).unwrap();
    let mut commitments = r.commitments.clone();
    commitments[1] = UBig { le_bytes: vec![1u8; 33] };
    match verify(VerifyParams { commitments, share: r.shares[0].clone() }) {
        Err(e) => assert_eq!(e, "commitment too large for 32-byte point"),
        Ok(_) => panic!("expected an error"),
    }
}

#[test]
fn verify_rejects_undecodable_commitment() {
    let r = deal(DealParams { secret: UBig::from_u64(7), players: 3, threshold: 2 }).unwrap();
    let mut commitments = r.commitments.clone();
    // 1 is not the encoding of any group element (it is odd).
    commitments[0] = UBig::from_u64(1);
    match verify(VerifyParams { commitments, share: r.shares[0].clone() }) {
        Err(e) => assert_eq!(e, "invalid compressed point for value 1"),
        Ok(_) => panic!("expected an error"),
    }
}

#[test]
fn reconstruct_from_linear_shares() {
    // f(x) = 10 + 3x: f(1) = 13, f(2) = 16.
    let r = reconstruct(ReconstructParams {
        shares: vec![
            (UBig::from_u64(1), UBig::from_u64(13)),
            (UBig::from_u64(2), UBig::from_u64(16)),
        ],
    });
    assert_eq!(r, UBig::from_u64(10));
}
