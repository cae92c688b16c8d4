use numaflow_core::decimal::parse_i32;

#[test]
fn parse_i32_agrees_with_std() {
    let cases = [
        "", "+", "-", "0", "-0", "+0", "007", "42", "+42", "-42", "2147483647", "2147483648",
        "-2147483648", "-2147483649", "99999999999999999999", "-99999999999999999999", "1a", "a1",
        " 1", "1 ", "+-1", "--1", "1_000", "١", "12\n", "0000000000000000000000000001",
    ];
    for c in cases {
        assert_eq!(parse_i32(c), c.parse::<i32>().ok(), "case {:?}", c);
    }
}

#[test]
fn parse_i32_roundtrips_rendered_numbers() {
    for n in [i32::MIN, i32::MIN + 1, -100, -1, 0, 1, 100, i32::MAX - 1, i32::MAX] {
        assert_eq!(parse_i32(&n.to_string()), Some(n));
    }
}
