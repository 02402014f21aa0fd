use crdb_harness::environment::{order_of, Environment, TextOrder};
use crdb_harness::paths::cockroachdb_bin;
use crdb_harness::text::{
    characters, contains_char, decimal_text, join, same_text, signed_decimal_text, strip_suffix,
    trim, trim_end, white_space,
};

#[test]
fn white_space_is_that_of_unicode() {
    for n in 0u32..0x11_0000u32 {
        if let Some(c) = char::from_u32(n) {
            assert_eq!(white_space(c), c.is_whitespace());
        }
    }
}

#[test]
fn trimming_takes_white_space_off() {
    for s in ["", " ", "a", " a b \n", "\t\u{3000}é\u{a0}\r\n", "\n\n"] {
        assert_eq!(trim(s), s.trim());
        assert_eq!(trim_end(s), s.trim_end());
    }
}

#[test]
fn suffixes_are_stripped_once() {
    assert_eq!(strip_suffix("v1-dirty", "-dirty"), "v1");
    assert_eq!(strip_suffix("v1-dirty-dirty", "-dirty"), "v1-dirty");
    assert_eq!(strip_suffix("v1", "-dirty"), "v1");
    assert_eq!(strip_suffix("y", "-dirty"), "y");
    assert_eq!(strip_suffix("é", ""), "é");
}

#[test]
fn characters_are_found_and_listed() {
    assert_eq!(characters("aé"), vec!['a', 'é']);
    assert!(contains_char("a\nb", '\n'));
    assert!(!contains_char("ab", '\n'));
    assert!(!contains_char("", 'a'));
    assert!(same_text("é", "é"));
    assert!(!same_text("e", "é"));
}

#[test]
fn parts_are_joined() {
    let parts = vec![String::from("a"), String::from("b"), String::from("c")];
    assert_eq!(join(&parts, ", "), "a, b, c");
    assert_eq!(join(&vec![String::from("a")], ", "), "a");
    assert_eq!(join(&vec![], ", "), "");
}

#[test]
fn numbers_are_written_in_decimal() {
    for n in [0u64, 7, 10, 45913, 65535, u64::MAX] {
        assert_eq!(decimal_text(n), n.to_string());
    }
    for n in [0i32, -1, 9, -10, i32::MIN, i32::MAX] {
        assert_eq!(signed_decimal_text(n), n.to_string());
    }
}

#[test]
fn texts_are_ordered_as_strings_are() {
    let texts = ["", "A", "AB", "B", "a", "é", "\u{10000}", "\u{ffff}", "ab"];
    for a in texts {
        for b in texts {
            let expected = if a < b {
                TextOrder::Before
            } else if a == b {
                TextOrder::Same
            } else {
                TextOrder::After
            };
            assert_eq!(order_of(a, b), expected);
        }
    }
}

#[test]
fn environment_is_sorted_and_the_later_setting_counts() {
    let mut env = Environment::new();
    assert_eq!(env.list(), vec![]);
    for (name, value) in [("b", "1"), ("a", "2"), ("c", "3"), ("b", "4"), ("", "5")] {
        env.set(String::from(name), String::from(value));
    }
    assert_eq!(
        env.list(),
        vec![("", "5"), ("a", "2"), ("b", "4"), ("c", "3")]
    );
}

#[test]
fn binary_lies_under_the_output_directory() {
    assert_eq!(cockroachdb_bin("/out"), "/out/cockroachdb/bin/cockroach");
    assert_eq!(cockroachdb_bin("/out/"), "/out/cockroachdb/bin/cockroach");
    assert_eq!(cockroachdb_bin("/"), "/cockroachdb/bin/cockroach");
    assert_eq!(cockroachdb_bin(""), "cockroachdb/bin/cockroach");
    let joined = camino::Utf8Path::new("a b").join("cockroachdb/bin").join("cockroach");
    assert_eq!(cockroachdb_bin("a b"), joined.as_str());
}
