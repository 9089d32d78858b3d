use mgrs::mgrs::get_accuracy;
use mgrs::Accuracy;

#[test]
fn getting_accuracy() {
    assert_eq!(get_accuracy(25, 250), Some(Accuracy::One));
    assert_eq!(get_accuracy(5, 25), Some(Accuracy::One));
    assert_eq!(get_accuracy(256, 823), Some(Accuracy::One));
    assert_eq!(get_accuracy(12345, 354), Some(Accuracy::One));
    assert_eq!(get_accuracy(12000, 123), Some(Accuracy::One));
    assert_eq!(get_accuracy(1200, 1000), Some(Accuracy::OneHundred));
    assert_eq!(get_accuracy(10000, 1), Some(Accuracy::One));
    assert_eq!(get_accuracy(10000, 20000), Some(Accuracy::TenThousand));
    assert_eq!(get_accuracy(100, 1234), Some(Accuracy::One));
}

#[test]
fn accuracy_from_trailing_zeros() {
    assert_eq!(get_accuracy(1, 2500), Some(Accuracy::One));
    assert_eq!(get_accuracy(50, 500), Some(Accuracy::Ten));
    assert_eq!(get_accuracy(200, 1000), Some(Accuracy::OneHundred));
    assert_eq!(get_accuracy(48000, 11000), Some(Accuracy::OneThousand));
    assert_eq!(get_accuracy(40000, 0), Some(Accuracy::TenThousand));
    assert_eq!(get_accuracy(0, 40000), Some(Accuracy::TenThousand));
    assert_eq!(get_accuracy(0, 7), Some(Accuracy::One));
    // more zeros at the end never give a finer precision
    let steps = [12345usize, 12340, 12300, 12000, 10000];
    let mut last = 0;
    for e in steps {
        let a = get_accuracy(e, 0).unwrap();
        assert!(a.as_distance() > last);
        last = a.as_distance();
    }
}

#[test]
fn accuracy_without_digits() {
    assert_eq!(get_accuracy(0, 0), None);
    assert_eq!(get_accuracy(123456, 0), None);
    assert_eq!(get_accuracy(1, 1234567), None);
    assert_eq!(get_accuracy(usize::MAX, 5), None);
    // six digits of which a zero goes
    assert_eq!(get_accuracy(100000, 0), Some(Accuracy::TenThousand));
    assert_eq!(get_accuracy(123450, 0), Some(Accuracy::One));
}

#[test]
fn accuracy_tables() {
    let all = [
        (Accuracy::One, 1usize, 1usize, 10usize),
        (Accuracy::Ten, 2, 10, 8),
        (Accuracy::OneHundred, 3, 100, 6),
        (Accuracy::OneThousand, 4, 1000, 4),
        (Accuracy::TenThousand, 5, 10000, 2),
    ];
    for (a, ordinal, meters, digits) in all {
        assert_eq!(a.as_numeric(), ordinal);
        assert_eq!(a.as_distance(), meters);
        assert_eq!(a.as_num_digits(), digits);
        assert_eq!(Accuracy::from_numeric(ordinal), Some(a));
        assert_eq!(Accuracy::from_distance(meters), Some(a));
        assert_eq!(Accuracy::from_num_digits(digits), Some(a));
    }
    for bad in [0usize, 7, 9, 11, 12, 50, 99, 1001, 100000] {
        assert_eq!(Accuracy::from_numeric(bad), None);
        assert_eq!(Accuracy::from_distance(bad), None);
        assert_eq!(Accuracy::from_num_digits(bad), None);
    }
    assert_eq!(Accuracy::from_numeric(6), None);
    assert_eq!(Accuracy::from_num_digits(3), None);
    assert_eq!(Accuracy::from_num_digits(5), None);
    assert_eq!(Accuracy::from_distance(2), None);
    assert_eq!(Accuracy::default(), Accuracy::One);
}
