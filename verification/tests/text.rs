use vendor_oplus_charger::adapter::Adapter;
use vendor_oplus_charger::classify::FastChargeInputs;
use vendor_oplus_charger::info::ChargerInfo;
use vendor_oplus_charger::text::{
    char_is_space, contains, contains_ascii_lower, decimal, eq_ascii_upper, eq_ignore_ascii_case,
    parse_first_int, parse_i32, parse_i64, parse_keyed_int, parse_plus_ints, split, text_eq, trim,
    Separator,
};

/// Texts with every kind of edge: blank, signed, out of range, foreign digits.
fn samples() -> Vec<&'static str> {
    vec![
        "", " ", "-", "+", "0", "-0", "+0", "7", "+7", "-7", "--7", "+-7", "007", "1 2", " 12",
        "12\n", "\t12 ", "2147483647", "2147483648", "-2147483648", "-2147483649",
        "9223372036854775807", "9223372036854775808", "-9223372036854775808",
        "-9223372036854775809", "99999999999999999999999", "12a", "a12", "\u{0663}", "1\u{a0}",
        "\u{a0}1", "\u{3000}x\u{2003}", "ab+cd", "+", "++", "a=1+b=2", "switch=1", "switch= 3 ",
        "switch=x+switch=2", "x=1=2", "=5", "80%", "at 80 or 90", "-5..6", "1-2", "- 3",
    ]
}

#[test]
fn white_space_is_that_of_unicode() {
    for code in 0..=0x10ffff_u32 {
        if let Some(c) = char::from_u32(code) {
            assert_eq!(char_is_space(c), c.is_whitespace(), "U+{:04X}", code);
        }
    }
}

#[test]
fn trimming_agrees_with_std() {
    for s in samples() {
        assert_eq!(trim(s), s.trim());
    }
    assert_eq!(trim("\u{2003} a b \u{85}\r\n"), "a b");
}

#[test]
fn integers_are_read_as_std_reads_them() {
    for s in samples() {
        assert_eq!(parse_i32(s), s.parse::<i32>().ok(), "{:?}", s);
        assert_eq!(parse_i64(s), s.parse::<i64>().ok(), "{:?}", s);
    }
}

#[test]
fn decimal_text_agrees_with_std_and_reads_back() {
    for n in [0, 1, -1, 9, 10, -10, 99, 100, 12345, -67890, i32::MAX, i32::MIN] {
        assert_eq!(decimal(n), n.to_string());
        assert_eq!(parse_i32(&decimal(n)), Some(n));
        assert_eq!(trim(&decimal(n)), n.to_string());
    }
}

#[test]
fn splitting_agrees_with_std() {
    for s in samples() {
        let at_plus: Vec<&str> = s.split('+').collect();
        assert_eq!(split(s, Separator::Char('+')), at_plus);
        let at_others: Vec<&str> = s
            .split(|c: char| !c.is_ascii_digit() && c != '-')
            .collect();
        assert_eq!(split(s, Separator::NonInteger), at_others);
    }
}

#[test]
fn searching_agrees_with_std() {
    for s in samples() {
        for needle in ["", "1", "12", "switch", "=", "ab+cd", "+", "\u{2003}"] {
            assert_eq!(contains(s, needle), s.contains(needle));
        }
        assert!(text_eq(s, s));
    }
    assert!(!text_eq("a", "A"));
    assert!(!text_eq("a", "aa"));
    assert!(contains_ascii_lower("xSuPeRx", "super"));
    assert!(!contains_ascii_lower("supe", "super"));
    assert!(eq_ascii_upper("usb_sdp", "USB_SDP"));
    assert!(!eq_ascii_upper("usb_sdp ", "USB_SDP"));
    assert!(eq_ignore_ascii_case("CHARGING", "Charging"));
    assert!(!eq_ignore_ascii_case("charge", "Charging"));
}

#[test]
fn first_integer_of_a_text() {
    assert_eq!(parse_first_int("limit 80 then 90"), Some(80));
    assert_eq!(parse_first_int("x-5y"), Some(-5));
    assert_eq!(parse_first_int("- 3"), Some(3));
    assert_eq!(parse_first_int("1-2"), None);
    assert_eq!(parse_first_int("99999999999 7"), None);
    assert_eq!(parse_first_int("none"), None);
    assert_eq!(parse_first_int(""), None);
}

#[test]
fn keyed_integers() {
    assert_eq!(parse_keyed_int("1+switch=1", "switch"), Some(1));
    assert_eq!(parse_keyed_int("switch= 3 ", "switch"), Some(3));
    assert_eq!(parse_keyed_int("switch=x+switch=2", "switch"), Some(2));
    assert_eq!(parse_keyed_int(" switch=2", "switch"), None);
    assert_eq!(parse_keyed_int("switch=1=2", "switch"), None);
    assert_eq!(parse_keyed_int("other=4", "switch"), None);
}

#[test]
fn integers_between_plus_signs() {
    assert_eq!(parse_plus_ints("2++1+80"), vec![2, 1, 80]);
    assert_eq!(parse_plus_ints(" 4 +x+ -7"), vec![4, -7]);
    assert_eq!(parse_plus_ints(""), Vec::<i32>::new());
}

#[test]
fn lower_case_goes_beyond_ascii() {
    // The Kelvin sign lowers to an ASCII letter.
    let inputs = FastChargeInputs {
        quick_charge_type: "",
        fastchg_mode: 0,
        sport_mode: 0,
        pd_verified: 0,
        cp_online: 0,
        usb_type: "QUIC\u{212a}",
        adapter_power_w: 0,
        online: true,
        usb_online: 1,
        pc_port_online: 0,
    };
    assert_eq!(Adapter::classify_fast_charge_values(inputs), 2);
    let info = ChargerInfo {
        battery_type: "SILICON-CARBON".into(),
        ..Default::default()
    };
    assert!(Adapter::is_silicon_battery(&info));
    assert!(Adapter::is_silicon_type("silicon-carbon"));
    assert!(!Adapter::is_silicon_type("SILICON-CARBON"));
}
