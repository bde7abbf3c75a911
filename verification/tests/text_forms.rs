use account_signing::decimal::Decimal;
use account_signing::text::{hex_encode, str_lt, u64_to_string};

#[test]
fn integers_are_rendered_in_plain_decimal() {
    assert_eq!(u64_to_string(0), "0");
    assert_eq!(u64_to_string(7), "7");
    assert_eq!(u64_to_string(10), "10");
    assert_eq!(u64_to_string(5000), "5000");
    assert_eq!(u64_to_string(1700000000000), "1700000000000");
    assert_eq!(u64_to_string(u64::MAX), "18446744073709551615");
}

#[test]
fn integers_agree_with_the_standard_rendering() {
    let samples: [u64; 8] = [0, 1, 9, 10, 99, 100, 60000, 1234567890123456789];
    for n in samples {
        assert_eq!(u64_to_string(n), n.to_string());
    }
}

#[test]
fn bytes_are_rendered_in_lower_case_hex() {
    assert_eq!(hex_encode(&[]), "");
    assert_eq!(hex_encode(&[0x00]), "00");
    assert_eq!(hex_encode(&[0x00, 0xff, 0x1a, 0xa1, 0x09, 0x90]), "00ff1aa10990");
    assert_eq!(hex_encode(&[0xde, 0xad, 0xbe, 0xef]), "deadbeef");
}

#[test]
fn strings_are_ordered_lexicographically() {
    assert!(str_lt("a", "b"));
    assert!(!str_lt("b", "a"));
    assert!(!str_lt("a", "a"));
    assert!(str_lt("", "a"));
    assert!(!str_lt("a", ""));
    assert!(!str_lt("", ""));
    assert!(str_lt("price", "quantity"));
    assert!(str_lt("quantity", "quoteOrderQty"));
    assert!(str_lt("recvWindow", "timestamp"));
    assert!(str_lt("side", "symbol"));
    assert!(str_lt("time", "timeInForce"));
    assert!(!str_lt("timeInForce", "time"));
}

#[test]
fn upper_case_sorts_before_lower_case() {
    assert!(str_lt("Z", "a"));
    assert!(str_lt("orderId", "origClientOrderId"));
    assert!(str_lt("newClientOrderId", "newOrderRespType"));
}

#[test]
fn string_order_agrees_with_the_standard_order() {
    let samples = ["", "a", "ab", "b", "B", "é", "z", "zz", "日本", "~", "symbol", "side"];
    for a in samples {
        for b in samples {
            assert_eq!(str_lt(a, b), a < b, "{:?} < {:?}", a, b);
        }
    }
}

#[test]
fn whole_decimals_have_no_point() {
    assert_eq!(Decimal::new(10, 0).to_text(), "10");
    assert_eq!(Decimal::new(0, 0).to_text(), "0");
    assert_eq!(Decimal::from_integer(42).to_text(), "42");
    assert_eq!(Decimal::new(1000000000, 8).to_text(), "10");
    assert_eq!(Decimal::new(0, 8).to_text(), "0");
    assert_eq!(Decimal::new(u64::MAX, 0).to_text(), "18446744073709551615");
}

#[test]
fn decimals_drop_trailing_zeros() {
    assert_eq!(Decimal::new(1500, 3).to_text(), "1.5");
    assert_eq!(Decimal::new(150, 2).to_text(), "1.5");
    assert_eq!(Decimal::new(15, 1).to_text(), "1.5");
    assert_eq!(Decimal::new(1400000, 8).to_text(), "0.014");
    assert_eq!(Decimal::new(14, 3).to_text(), "0.014");
    assert_eq!(Decimal::new(100, 1).to_text(), "10");
}

#[test]
fn decimals_keep_leading_zeros_of_the_fraction() {
    assert_eq!(Decimal::new(5, 1).to_text(), "0.5");
    assert_eq!(Decimal::new(5, 3).to_text(), "0.005");
    assert_eq!(Decimal::new(100005, 5).to_text(), "1.00005");
    assert_eq!(Decimal::new(1, 8).to_text(), "0.00000001");
    assert_eq!(Decimal::new(1, 20).to_text(), "0.00000000000000000001");
    assert_eq!(Decimal::new(472384689208129, 8).to_text(), "4723846.89208129");
}

#[test]
fn decimals_of_any_scale_are_rendered() {
    assert_eq!(
        Decimal::new(u64::MAX, 19).to_text(),
        "1.8446744073709551615"
    );
    assert_eq!(
        Decimal::new(u64::MAX, 20).to_text(),
        "0.18446744073709551615"
    );
    let long = Decimal::new(7, 255).to_text();
    assert_eq!(long.len(), 257);
    assert!(long.starts_with("0.0"));
    assert!(long.ends_with("07"));
}

#[test]
fn a_trailing_zero_does_not_change_the_rendering() {
    let pairs: [(u64, u8); 5] = [(0, 0), (1, 0), (15, 1), (123456, 4), (99, 7)];
    for (m, s) in pairs {
        assert_eq!(
            Decimal::new(m * 10, s + 1).to_text(),
            Decimal::new(m, s).to_text()
        );
    }
}
