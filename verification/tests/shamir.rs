use crypto::bignum::UBig;
use crypto::shamir::{generate_shares, reconstruct, GenerateShareParams, ReconstructParams};
use crypto::text::parse_decimal;
use num_bigint::BigUint;

// Curve25519 prime: 2^255 - 19
const PRIME_25519_STR: &str =
    "57896044618658097711785492504343953926634992332820282019728792003956564819949";

fn n(v: u64) -> UBig {
    UBig::from_u64(v)
}

fn p25519() -> UBig {
    parse_decimal(PRIME_25519_STR).unwrap()
}

fn to_big(v: &UBig) -> BigUint {
    BigUint::from_bytes_le(&v.le_bytes)
}

fn from_big(v: &BigUint) -> UBig {
    UBig { le_bytes: v.to_bytes_le() }
}

/// Generate all k-sized subsets of a slice
fn subsets<T: Clone>(items: &[T], k: usize) -> Vec<Vec<T>> {
    let mut result = Vec::new();
    let mut current = Vec::with_capacity(k);
    build_subsets(items, k, 0, &mut current, &mut result);
    result
}

fn build_subsets<T: Clone>(
    items: &[T],
    k: usize,
    start: usize,
    current: &mut Vec<T>,
    result: &mut Vec<Vec<T>>,
) {
    if current.len() == k {
        result.push(current.clone());
        return;
    }
    for i in start..items.len() {
        current.push(items[i].clone());
        build_subsets(items, k, i + 1, current, result);
        current.pop();
    }
}

#[test]
fn test_full_flow_preset() {
    let generate_result = generate_shares(GenerateShareParams {
        secret: n(1234),
        shares: 5,
        threshold: 3,
        prime: n(1613),
        coefficients: Some(vec![n(166), n(94)]),
    })
    .unwrap();

    for val in subsets(&generate_result.shares, 3) {
        let reconstruct_result = reconstruct(ReconstructParams { shares: val, prime: n(1613) }).unwrap();
        assert_eq!(reconstruct_result.secret, n(1234));
    }

    let expected = [(1, 1494), (2, 329), (3, 965), (4, 176), (5, 1188)];
    assert_eq!(generate_result.shares.len(), expected.len());
    for (share, (x, y)) in generate_result.shares.iter().zip(expected.iter()) {
        assert_eq!(share.0, n(*x));
        assert_eq!(share.1, n(*y));
    }
}

#[test]
fn test_full_flow_prime_25519() {
    let prime = p25519();
    let generate_result = generate_shares(GenerateShareParams {
        secret: n(1234),
        shares: 5,
        threshold: 3,
        prime: prime.clone(),
        coefficients: Some(vec![n(166), n(94)]),
    })
    .unwrap();

    for val in subsets(&generate_result.shares, 3) {
        let reconstruct_result =
            reconstruct(ReconstructParams { shares: val, prime: prime.clone() }).unwrap();
        assert_eq!(reconstruct_result.secret, n(1234));
    }
}

#[test]
fn test_shares_should_not_greater_than_prime() {
    let test_cases_gen_shares: Vec<(usize, UBig)> = vec![(4, n(3)), (1614, n(1613))];

    for (shares, prime) in test_cases_gen_shares {
        let generate_result = generate_shares(GenerateShareParams {
            secret: n(1234),
            shares,
            threshold: shares - 1,
            prime,
            coefficients: Some(vec![n(166), n(94)]),
        });
        assert!(generate_result.is_err());
        assert!(generate_result.err().unwrap().contains("shares count must be <= prime"))
    }

    let shares: Vec<(UBig, UBig)> = vec![(n(1), n(2)), (n(2), n(3)), (n(3), n(3)), (n(4), n(3))];
    let reconstruct_result = reconstruct(ReconstructParams { shares, prime: n(3) });
    assert!(reconstruct_result.is_err());
    assert!(reconstruct_result.err().unwrap().contains("shares count must be <= prime"))
}

#[test]
fn test_shares_duplicate_x_should_fail() {
    let generate_result = generate_shares(GenerateShareParams {
        secret: n(1234),
        shares: 5,
        threshold: 3,
        prime: n(1613),
        coefficients: Some(vec![n(166), n(94)]),
    })
    .unwrap();

    for val in subsets(&generate_result.shares, 3).iter_mut() {
        let dup_item = val.last().unwrap().clone();
        val.push(dup_item.clone());
        let reconstruct_result = reconstruct(ReconstructParams { shares: val.clone(), prime: n(1613) });
        assert!(reconstruct_result.is_err());
        assert!(reconstruct_result.err().unwrap().contains(
            format!(
                "shares must be unique, found duplicate x-coordinates: {:?}",
                to_big(&dup_item.0)
            )
            .as_str()
        ))
    }
}

#[test]
fn test_shares_not_allow_x_zero() {
    let shares: Vec<(UBig, UBig)> = vec![(n(1), n(2)), (n(0), n(1))];
    let reconstruct_result = reconstruct(ReconstructParams { shares, prime: n(1613) });
    assert!(reconstruct_result.is_err());
    assert!(reconstruct_result.err().unwrap().contains("x value shouldn't be 0"))
}

#[test]
fn test_shares_less_than_two_error() {
    let test_cases: Vec<Vec<(UBig, UBig)>> = vec![vec![], vec![(n(1), n(2))]];

    for shares in test_cases {
        let reconstruct_result = reconstruct(ReconstructParams { shares, prime: n(1613) });
        assert!(reconstruct_result.is_err(), "result should be fail");
        assert!(reconstruct_result.err().unwrap().contains("there must be more than 1 share"))
    }
}

#[test]
fn test_fewer_than_k_should_not_build_secret() {
    let test_cases: Vec<(usize, usize, Option<Vec<UBig>>)> =
        vec![(5, 3, Some(vec![n(166), n(94)])), (5, 4, None), (5, 5, None)];
    for t in test_cases {
        let generate_result = generate_shares(GenerateShareParams {
            secret: n(1234),
            shares: t.0,
            threshold: t.1,
            prime: p25519(),
            coefficients: t.2,
        })
        .unwrap();
        for val in subsets(&generate_result.shares, t.1 - 1) {
            let reconstruct_result =
                reconstruct(ReconstructParams { shares: val, prime: p25519() }).unwrap();
            assert!(reconstruct_result.secret != n(1234));
        }
    }
}

#[test]
fn test_greater_than_k_should_build_secret() {
    let test_cases: Vec<(usize, usize, Option<Vec<UBig>>)> = vec![
        (5, 2, None),
        (5, 3, Some(vec![n(166), n(94)])),
        (6, 4, None),
        (7, 5, None),
    ];
    for t in test_cases {
        let generate_result = generate_shares(GenerateShareParams {
            secret: n(1234),
            shares: t.0,
            threshold: t.1,
            prime: n(1613),
            coefficients: t.2,
        })
        .unwrap();
        for val in subsets(&generate_result.shares, t.1 + 1) {
            let reconstruct_result =
                reconstruct(ReconstructParams { shares: val.clone(), prime: n(1613) }).unwrap();
            assert!(reconstruct_result.secret == n(1234));
        }
    }
}

#[test]
fn test_random_coefficients() {
    let prime = p25519();
    let test_cases: Vec<usize> = vec![2, 3, 4, 5];
    for t in test_cases {
        let generate_result = generate_shares(GenerateShareParams {
            secret: n(1234),
            shares: 5,
            threshold: t,
            prime: prime.clone(),
            coefficients: None,
        })
        .unwrap();

        for val in subsets(&generate_result.shares, t) {
            let reconstruct_result =
                reconstruct(ReconstructParams { shares: val, prime: prime.clone() }).unwrap();
            assert_eq!(reconstruct_result.secret, n(1234));
        }
    }
}

#[test]
fn test_generate_secret_value_pass_cases() {
    let test_cases: Vec<(UBig, UBig)> = vec![
        (n(0), n(1613)),
        (n(0), p25519()),
        (n(1), n(1613)),
        (n(1), p25519()),
        (n(1234), n(1613)),
        (n(1234), p25519()),
        (n(1612), n(1613)),
    ];
    for (secret, prime) in test_cases {
        let generate_result = generate_shares(GenerateShareParams {
            secret: secret.clone(),
            shares: 2,
            threshold: 2,
            prime: prime.clone(),
            coefficients: None,
        })
        .unwrap();

        for val in subsets(&generate_result.shares, 2) {
            let reconstruct_result =
                reconstruct(ReconstructParams { shares: val, prime: prime.clone() }).unwrap();
            assert_eq!(reconstruct_result.secret, secret);
        }
    }
}

#[test]
fn test_generate_secret_value_fail_cases() {
    let test_cases: Vec<(UBig, UBig)> = vec![
        (n(1613), n(1613)),
        (n(1614), n(1613)),
        (p25519(), p25519()),
        (from_big(&(to_big(&p25519()) + 1u32)), p25519()),
    ];
    for test_case in test_cases {
        let t = test_case.clone();
        let generate_result = generate_shares(GenerateShareParams {
            secret: t.0,
            shares: 2,
            threshold: 2,
            prime: t.1,
            coefficients: None,
        });
        assert!(generate_result.is_err(), "expected test case {:?} to be fail", test_case);
    }
}

#[test]
fn test_generate_threshold_value() {
    let test_cases: Vec<(bool, usize, usize)> = vec![
        (true, 2, 2),
        (true, 3, 5),
        (true, 5, 5),
        (false, 1, 1),
        (false, 1, 2),
        (false, 0, 1),
        (false, 3, 2),
    ];

    for test_case in test_cases {
        let generate_result = generate_shares(GenerateShareParams {
            secret: n(1234),
            threshold: test_case.1,
            shares: test_case.2,
            prime: n(1613),
            coefficients: None,
        });
        match test_case.0 {
            false => {
                assert!(generate_result.is_err(), "expected test case {:?} to be fail", test_case);
            }
            true => {
                assert!(generate_result.is_ok(), "expected test case {:?} to be pass", test_case);
                for val in subsets(&generate_result.unwrap().shares, test_case.1) {
                    let reconstruct_result =
                        reconstruct(ReconstructParams { shares: val, prime: n(1613) });
                    assert_eq!(reconstruct_result.unwrap().secret, n(1234));
                }
            }
        }
    }
}

#[test]
fn test_coefficients_user_provided() {
    let test_cases: Vec<(bool, usize, Vec<UBig>)> = vec![
        // pass cases
        (true, 2, vec![n(1)]),
        (true, 3, vec![n(0), n(2)]),
        (true, 3, vec![n(1), n(2)]),
        // fail cases: value must be [0, p)
        (false, 3, vec![n(1), n(1613)]),
        (false, 3, vec![n(1), n(1614)]),
        // fail cases: wrong count
        (false, 2, vec![n(1), n(2)]),
        (false, 3, vec![n(1)]),
        (false, 3, vec![n(1), n(2), n(3)]),
        // fail cases: a_{k-1} = 0
        (false, 2, vec![n(0)]),
        (false, 3, vec![n(1), n(0)]),
    ];
    for test_case in test_cases {
        let generate_result = generate_shares(GenerateShareParams {
            secret: n(1234),
            threshold: test_case.1,
            shares: test_case.1,
            prime: n(1613),
            coefficients: Some(test_case.2.clone()),
        });
        match test_case.0 {
            false => {
                assert!(generate_result.is_err(), "expected test case {:?} to be fail", test_case);
            }
            true => {
                assert!(generate_result.is_ok(), "expected test case {:?} to be pass", test_case);
                for val in subsets(&generate_result.unwrap().shares, test_case.1) {
                    let reconstruct_result =
                        reconstruct(ReconstructParams { shares: val, prime: n(1613) });
                    assert_eq!(reconstruct_result.unwrap().secret, n(1234));
                }
            }
        }
    }
}

#[test]
fn reconstruct_documented_basis_values() {
    let shares = vec![(n(1), n(1494)), (n(3), n(965)), (n(5), n(1188))];
    let r = reconstruct(ReconstructParams { shares, prime: n(1613) }).unwrap();
    assert_eq!(r.secret, n(1234));
    assert_eq!(r.prime, n(1613));
    assert_eq!(r.basis_l_vals, vec![n(1010), n(402), n(202)]);
}

#[test]
fn any_candidate_secret_completes_fewer_shares() {
    // Two shares of a threshold-3 sharing modulo 1613; every candidate secret
    // has a third share at x = 5 that reconstructs it.
    let known = vec![(n(1), n(1494)), (n(3), n(965))];
    for candidate in [0u64, 7, 1234, 1612] {
        let mut found = false;
        for y in 0..1613u64 {
            let mut shares = known.clone();
            shares.push((n(5), n(y)));
            let r = reconstruct(ReconstructParams { shares, prime: n(1613) }).unwrap();
            if r.secret == n(candidate) {
                found = true;
                break;
            }
        }
        assert!(found, "no third share gives secret {}", candidate);
    }
}

#[test]
fn reconstruct_error_messages() {
    let r = reconstruct(ReconstructParams { shares: vec![(n(1), n(5)), (n(3), n(7))], prime: n(10) });
    assert_eq!(r.err().unwrap(), "cannot calculate inverse mod for share=(1, 5)");
    let r = reconstruct(ReconstructParams { shares: vec![(n(8), n(1)), (n(1), n(2))], prime: n(7) });
    assert_eq!(r.err().unwrap(), "x value shouldn't greater than prime");
    let r = reconstruct(ReconstructParams {
        shares: vec![(n(1), n(1)), (n(2), n(2)), (n(3), n(3))],
        prime: n(2),
    });
    assert_eq!(r.err().unwrap(), "shares count must be <= prime");
    let r = reconstruct(ReconstructParams {
        shares: vec![(n(4), n(1)), (n(2), n(2)), (n(4), n(3))],
        prime: n(1613),
    });
    assert_eq!(r.err().unwrap(), "shares must be unique, found duplicate x-coordinates: 4");
}

#[test]
fn generate_error_messages() {
    let params = |secret: u64, shares: usize, threshold: usize, prime: u64, c: Option<Vec<UBig>>| {
        GenerateShareParams { secret: n(secret), shares, threshold, prime: n(prime), coefficients: c }
    };
    let msg = |p: GenerateShareParams| generate_shares(p).err().unwrap();
    assert_eq!(msg(params(1, 8, 3, 7, None)), "shares count must be <= prime");
    assert_eq!(
        msg(params(7, 5, 3, 7, None)),
        "invalid secret or prime values. It must be 0 <= secret < prime"
    );
    assert_eq!(
        msg(params(1, 5, 6, 7, None)),
        "invalid threshold or share value. It must be 1 < threshold <= shares"
    );
    assert_eq!(
        msg(params(1, 5, 3, 7, Some(vec![n(1)]))),
        "coefficients list must be equal threshold -1"
    );
    assert_eq!(
        msg(params(1, 5, 3, 7, Some(vec![n(7), n(1)]))),
        "coefficient values must be in [0, p)"
    );
    assert_eq!(
        msg(params(1, 5, 3, 7, Some(vec![n(1), n(0)]))),
        "the coefficient a_{k-1} must be > 0"
    );
}

#[test]
fn generate_shares_with_given_coefficients() {
    // f(x) = 1234 + 166x + 94x² mod 1613, as the documentation works it out.
    let r = generate_shares(GenerateShareParams {
        secret: n(1234),
        shares: 5,
        threshold: 3,
        prime: n(1613),
        coefficients: Some(vec![n(166), n(94)]),
    })
    .unwrap();
    assert_eq!(r.coefficients, vec![n(166), n(94)]);
    assert_eq!(r.prime, n(1613));
    let ys: Vec<UBig> = r.shares.iter().map(|s| s.1.clone()).collect();
    assert_eq!(ys, vec![n(1494), n(329), n(965), n(176), n(1188)]);
}

#[test]
fn share_at_the_prime_is_the_secret() {
    // x = p is accepted, and f(p) ≡ f(0) (mod p).
    let r = generate_shares(GenerateShareParams {
        secret: n(3),
        shares: 7,
        threshold: 2,
        prime: n(7),
        coefficients: Some(vec![n(5)]),
    })
    .unwrap();
    assert_eq!(r.shares[6], (n(7), n(3)));
    let back = reconstruct(ReconstructParams {
        shares: vec![r.shares[6].clone(), r.shares[0].clone()],
        prime: n(7),
    })
    .unwrap();
    assert_eq!(back.secret, n(3));
}

#[test]
fn huge_threshold_is_refused_with_the_threshold_error() {
    let r = generate_shares(GenerateShareParams {
        secret: n(1),
        shares: 5,
        threshold: 1usize << 33,
        prime: n(1613),
        coefficients: None,
    });
    assert_eq!(
        r.err().unwrap(),
        "invalid threshold or share value. It must be 1 < threshold <= shares"
    );
}
