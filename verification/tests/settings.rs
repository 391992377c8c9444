use dat6_kubernetes_controller::settings::{
    eq_ignoring_ascii_case, flag_enabled, parse_u64, policy_from_env, u32_or, u64_or,
};

fn set(value: &str) -> Option<String> {
    Some(value.to_string())
}

#[test]
fn switches() {
    for on in ["1", "true", "TRUE", "True", "tRuE"] {
        assert!(flag_enabled(&set(on)));
    }
    for off in ["", "0", "11", "yes", "true ", "tru", "truee", "on", "t\u{212a}ue"] {
        assert!(!flag_enabled(&set(off)));
    }
    assert!(!flag_enabled(&None));
}

#[test]
fn case_is_ignored_as_std_does() {
    let words = ["", "a", "A", "z", "Z", "[", "@", "`", "{", "K", "\u{212a}", "\u{e9}", "\u{c9}"];
    for one in words {
        for other in words {
            assert_eq!(eq_ignoring_ascii_case(one, other), one.eq_ignore_ascii_case(other));
        }
    }
}

#[test]
fn policy_follows_the_environment() {
    let policy = policy_from_env(&set("1"), &None);
    assert!(policy.early_readiness_removal);
    assert!(!policy.drain_verification);
    let policy = policy_from_env(&set("0"), &set("true"));
    assert!(!policy.early_readiness_removal);
    assert!(policy.drain_verification);
    assert!(!policy.verify_readiness_loss);
    assert!(policy.state_handover.is_none());
}

#[test]
fn numbers_are_read_as_std_does() {
    for text in [
        "",
        "+",
        "-",
        "0",
        "+0",
        "-0",
        "7",
        "+42",
        "++1",
        "1+",
        "007",
        " 1",
        "1 ",
        "1_000",
        "0x10",
        "12a",
        "18446744073709551615",
        "18446744073709551616",
        "000000000000000000000000018446744073709551615",
        "99999999999999999999999",
        "99999999999999999999999x",
        "4294967295",
        "4294967296",
        "\u{0661}",
    ] {
        assert_eq!(parse_u64(text), text.parse::<u64>().ok());
        assert_eq!(u32_or(&set(text), 77), text.parse::<u32>().unwrap_or(77));
        assert_eq!(u64_or(&set(text), 77), text.parse::<u64>().unwrap_or(77));
    }
    assert_eq!(u64_or(&None, 28), 28);
    assert_eq!(u32_or(&None, 5), 5);
    assert_eq!(parse_u64("250"), Some(250));
}
