use av1core::motion::MotionVector;

#[test]
fn quantize_to_fullpel_multiples_of_eight() {
    let cases = [
        (0i16, 0i16),
        (7, -7),
        (8, -8),
        (13, -13),
        (255, -255),
        (i16::MAX, i16::MIN),
    ];
    for (row, col) in cases {
        let q = MotionVector { row, col }.quantize_to_fullpel();
        assert_eq!(q.row % 8, 0);
        assert_eq!(q.col % 8, 0);
        assert_eq!(q.row, (row / 8) * 8);
        assert_eq!(q.col, (col / 8) * 8);
    }
}

#[test]
fn quantize_truncates_toward_zero() {
    let q = MotionVector { row: 13, col: -13 }.quantize_to_fullpel();
    assert_eq!(q.row, 8);
    assert_eq!(q.col, -8);
    let q = MotionVector { row: 7, col: -7 }.quantize_to_fullpel();
    assert_eq!(q.row, 0);
    assert_eq!(q.col, 0);
}

#[test]
fn plus_componentwise() {
    let a = MotionVector { row: 3, col: -4 };
    let b = MotionVector { row: 10, col: 20 };
    let s = a.plus(b);
    assert_eq!(s, MotionVector { row: 13, col: 16 });
}

#[test]
fn plus_commutative_and_associative() {
    let a = MotionVector { row: 5, col: -9 };
    let b = MotionVector { row: -2, col: 14 };
    let c = MotionVector { row: 100, col: -50 };
    assert_eq!(a.plus(b), b.plus(a));
    assert_eq!(a.plus(b).plus(c), a.plus(b.plus(c)));
}

#[test]
fn plus_negation_is_zero() {
    let a = MotionVector { row: 37, col: -41 };
    let n = MotionVector { row: -a.row, col: -a.col };
    assert!(a.plus(n).is_zero());
}

#[test]
fn div_scalar_truncates() {
    let a = MotionVector { row: 13, col: -13 };
    assert_eq!(a.div_scalar(4), MotionVector { row: 3, col: -3 });
    assert_eq!(a.div_scalar(-4), MotionVector { row: -3, col: 3 });
    let b = MotionVector { row: -1, col: 1 };
    assert_eq!(b.div_scalar(2), MotionVector { row: 0, col: 0 });
}

#[test]
fn zero_test_and_default() {
    assert!(MotionVector { row: 0, col: 0 }.is_zero());
    assert!(!MotionVector { row: 0, col: 1 }.is_zero());
    assert!(MotionVector::default().is_zero());
}
