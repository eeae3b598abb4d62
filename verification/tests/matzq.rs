use homomorphic_commitments::matzq::MatZq;

#[test]
fn matzq_mul_col_exact() {
    let q: u64 = 5;
    let a = MatZq::from_rows(vec![vec![1, 2], vec![3, 4]], 2, q).unwrap();
    let v = MatZq::from_col(vec![1, 1], q);
    let product = a.mul_col(&v);
    // (1*1 + 2*1) mod 5 = 3, (3*1 + 4*1) mod 5 = 2.
    assert_eq!(product.get_entry(0, 0), 3);
    assert_eq!(product.get_entry(1, 0), 2);
}

#[test]
fn matzq_add_mod_exact() {
    let q: u64 = 7;
    let a = MatZq::from_col(vec![3, 6], q);
    let b = MatZq::from_col(vec![5, 1], q);
    let sum = a.add_mod(&b);
    assert_eq!(sum.get_entry(0, 0), 1);
    assert_eq!(sum.get_entry(1, 0), 0);
}

#[test]
fn matzq_from_rows_rejects_ragged() {
    let q: u64 = 7;
    assert!(MatZq::from_rows(vec![vec![1, 2], vec![3]], 2, q).is_none());
}

#[test]
fn matzq_entries_reduced() {
    let q: u64 = 5;
    let v = MatZq::from_col(vec![7, 12], q);
    assert_eq!(v.get_entry(0, 0), 2);
    assert_eq!(v.get_entry(1, 0), 2);
}

#[test]
fn matzq_norm_bound_strict() {
    let q: u64 = 97;
    // Norm 3*3 + 4*4 = 25.
    let v = MatZq::from_col(vec![3, 4], q);
    assert!(!v.norm_sqrd_below(25));
    assert!(v.norm_sqrd_below(26));
}

#[test]
fn matzq_equals_deep() {
    let q: u64 = 11;
    let a = MatZq::from_rows(vec![vec![1, 2], vec![3, 4]], 2, q).unwrap();
    let b = MatZq::from_rows(vec![vec![1, 2], vec![3, 4]], 2, q).unwrap();
    let c = MatZq::from_rows(vec![vec![1, 2], vec![3, 5]], 2, q).unwrap();
    assert!(a.equals(&b));
    assert!(!a.equals(&c));
    let wider = MatZq::from_rows(vec![vec![1, 2, 3]], 3, q).unwrap();
    assert!(!a.equals(&wider));
}
