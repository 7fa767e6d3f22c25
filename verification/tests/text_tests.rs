use dedicated_server_availability_watcher::sorting::{precedes, sort_strings};
use dedicated_server_availability_watcher::text::{
    chars_of, decimal, digit, is_whitespace, join, split, string_of, strip_whitespace, text_eq,
    to_lower_hex, trim, trim_end,
};

fn strings(items: &[&str]) -> Vec<String> {
    items.iter().map(|s| s.to_string()).collect()
}

#[test]
fn whitespace_agrees_with_std_on_every_char() {
    let mut code: u32 = 0;
    while code <= 0x10ffff {
        if let Some(c) = char::from_u32(code) {
            assert_eq!(is_whitespace(c), c.is_whitespace(), "code point {:x}", code);
        }
        code += 1;
    }
}

#[test]
fn chars_and_back() {
    assert_eq!(chars_of("aé☃"), vec!['a', 'é', '☃']);
    assert_eq!(chars_of(""), Vec::<char>::new());
    assert_eq!(string_of(&vec!['a', 'é', '☃']), "aé☃");
}

#[test]
fn text_eq_compares_contents() {
    assert!(text_eq("ovh", "ovh"));
    assert!(!text_eq("ovh", "ovh "));
    assert!(!text_eq("ovh", "ovg"));
    assert!(text_eq("", ""));
}

#[test]
fn trim_agrees_with_std() {
    for sample in [
        "",
        " ",
        "  a  ",
        "\t\n a b \r\n",
        "a",
        "\u{a0}x\u{3000}",
        " \u{2003}",
        "x y",
        "\u{85}é\u{2028}",
    ] {
        assert_eq!(trim(sample), sample.trim(), "trim of {:?}", sample);
        assert_eq!(trim_end(sample), sample.trim_end(), "trim_end of {:?}", sample);
    }
}

#[test]
fn trim_exact_values() {
    assert_eq!(trim("  hello world \n"), "hello world");
    assert_eq!(trim_end("  hello world \n"), "  hello world");
}

#[test]
fn split_agrees_with_std() {
    for sample in ["", ",", "a", "a,b", "a,,b", ",a,", "a, b ,c", "é,☃"] {
        let expected: Vec<String> = sample.split(',').map(|s| s.to_string()).collect();
        assert_eq!(split(sample, ','), expected, "split of {:?}", sample);
    }
}

#[test]
fn split_exact_values() {
    assert_eq!(split("a,,b", ','), strings(&["a", "", "b"]));
    assert_eq!(split("", ','), strings(&[""]));
}

#[test]
fn join_agrees_with_std() {
    for sample in [vec![], vec!["a"], vec!["a", "b"], vec!["", ""], vec!["x", "", "z"]] {
        let items = strings(&sample);
        assert_eq!(join(&items, ","), items.join(","));
        assert_eq!(join(&items, " / "), items.join(" / "));
    }
}

#[test]
fn join_exact_value() {
    assert_eq!(join(&strings(&["fr", "gra", "rbx"]), ","), "fr,gra,rbx");
}

#[test]
fn strip_whitespace_removes_all_of_it() {
    assert_eq!(strip_whitespace(" 2 x 1 TB\tSSD\n"), "2x1TBSSD");
    assert_eq!(strip_whitespace("64\u{a0}GB"), "64GB");
    assert_eq!(strip_whitespace(""), "");
}

#[test]
fn decimal_agrees_with_std() {
    for n in [0u128, 1, 9, 10, 11, 99, 100, 404, 65535, 1_000_000_000, u64::MAX as u128, u128::MAX] {
        assert_eq!(decimal(n), n.to_string());
    }
}

#[test]
fn digits_are_lower_case() {
    let all: String = (0u8..16).map(digit).collect();
    assert_eq!(all, "0123456789abcdef");
    assert_eq!(digit(16), 'f');
    assert_eq!(digit(255), 'f');
}

#[test]
fn hex_exact_values() {
    assert_eq!(to_lower_hex(&vec![]), "");
    assert_eq!(to_lower_hex(&vec![0x00, 0x0f, 0xa0, 0xff]), "000fa0ff");
    assert_eq!(to_lower_hex(&vec![0xde, 0xad, 0xbe, 0xef]), "deadbeef");
}

#[test]
fn precedes_agrees_with_std_order() {
    let samples = ["", "a", "A", "ab", "b", "aa", "é", "z", "☃", "a☃", "10", "9"];
    for a in samples {
        for b in samples {
            assert_eq!(precedes(a, b), a <= b, "{:?} <= {:?}", a, b);
        }
    }
}

#[test]
fn sort_agrees_with_std() {
    for sample in [
        vec![],
        vec!["b", "a"],
        vec!["typeC", "typeA", "typeB"],
        vec!["b", "a", "b", "", "a"],
        vec!["é", "z", "Z", "10", "9"],
    ] {
        let items = strings(&sample);
        let mut expected = items.clone();
        expected.sort();
        assert_eq!(sort_strings(&items), expected);
    }
}

#[test]
fn sort_keeps_duplicates() {
    assert_eq!(sort_strings(&strings(&["b", "a", "b"])), strings(&["a", "b", "b"]));
}
