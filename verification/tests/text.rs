use patrie_network::text::{joined, decimal_string, money_string};

#[test]
fn numbers_are_written_in_decimal() {
    assert_eq!(decimal_string(0), "0");
    assert_eq!(decimal_string(7), "7");
    assert_eq!(decimal_string(10), "10");
    assert_eq!(decimal_string(1_234_567_890), "1234567890");
    assert_eq!(decimal_string(u64::MAX), "18446744073709551615");
    for n in [9u64, 99, 100, 101, 999, 1000, 4_294_967_296] {
        assert_eq!(decimal_string(n), n.to_string());
    }
}

#[test]
fn money_has_two_decimals() {
    assert_eq!(money_string(0), "0.00");
    assert_eq!(money_string(5), "0.05");
    assert_eq!(money_string(50), "0.50");
    assert_eq!(money_string(250_000), "2500.00");
    assert_eq!(money_string(295_099), "2950.99");
    assert_eq!(money_string(u64::MAX), "184467440737095516.15");
}

#[test]
fn texts_are_joined_in_order() {
    assert_eq!(joined("Bearer ", "token"), "Bearer token");
    assert_eq!(joined("", ""), "");
    assert_eq!(joined("é", "ß"), "éß");
}
