use mysensors::gateway::text::{
    chars_of, looks_like_float, push_decimal, read_u32, separator_count, split_fields, trim,
};

#[test]
fn chars_come_in_order() {
    assert_eq!(chars_of(""), Vec::<char>::new());
    assert_eq!(chars_of("a;1"), vec!['a', ';', '1']);
    assert_eq!(chars_of("\u{e9}\u{2603}x"), vec!['\u{e9}', '\u{2603}', 'x']);
}

#[test]
fn a_number_is_read_from_digits_and_an_optional_plus() {
    assert_eq!(read_u32("0"), Some(0));
    assert_eq!(read_u32("39"), Some(39));
    assert_eq!(read_u32("+39"), Some(39));
    assert_eq!(read_u32("0039"), Some(39));
    assert_eq!(read_u32("4294967295"), Some(4294967295));
    assert_eq!(read_u32("4294967296"), None);
    assert_eq!(read_u32("42949672950"), None);
    assert_eq!(read_u32(""), None);
    assert_eq!(read_u32("+"), None);
    assert_eq!(read_u32("-1"), None);
    assert_eq!(read_u32("1 "), None);
    assert_eq!(read_u32("1+"), None);
    assert_eq!(read_u32("3a"), None);
}

#[test]
fn a_number_is_written_without_leading_zeros() {
    for (n, text) in [(0u32, "0"), (7, "7"), (10, "10"), (99, "99"), (100, "100"), (1234567890, "1234567890"), (u32::MAX, "4294967295")] {
        let mut out = String::from("x=");
        push_decimal(&mut out, n);
        assert_eq!(out, format!("x={}", text));
        assert_eq!(read_u32(text), Some(n));
    }
}

#[test]
fn every_number_is_written_as_the_standard_library_writes_it() {
    let mut n: u32 = 0;
    loop {
        let mut out = String::new();
        push_decimal(&mut out, n);
        assert_eq!(out, n.to_string());
        assert_eq!(read_u32(&out), Some(n));
        if n > u32::MAX - 104_729 {
            break;
        }
        n += 104_729;
    }
}

#[test]
fn trimming_takes_the_white_space_off_both_ends() {
    assert_eq!(trim(""), "");
    assert_eq!(trim("   "), "");
    assert_eq!(trim("a"), "a");
    assert_eq!(trim(" a"), "a");
    assert_eq!(trim("a\r\n"), "a");
    assert_eq!(trim("\t a b \n"), "a b");
    assert_eq!(trim("\u{2028}\u{e9}\u{202f}"), "\u{e9}");
    assert_eq!(trim("\u{200b}a\u{200b}"), "\u{200b}a\u{200b}");
    assert_eq!(trim("\u{1f}a\u{1c}"), "\u{1f}a\u{1c}");
}

#[test]
fn a_line_is_split_at_each_separator() {
    assert_eq!(split_fields(""), vec![""]);
    assert_eq!(split_fields("abc"), vec!["abc"]);
    assert_eq!(split_fields(";"), vec!["", ""]);
    assert_eq!(split_fields("a;b"), vec!["a", "b"]);
    assert_eq!(split_fields(";a;;b;"), vec!["", "a", "", "b", ""]);
    assert_eq!(split_fields("1;2;3;0;4;x y\n"), vec!["1", "2", "3", "0", "4", "x y\n"]);
    assert_eq!(split_fields("\u{e9};\u{2603}"), vec!["\u{e9}", "\u{2603}"]);
}

#[test]
fn splitting_agrees_with_the_standard_library() {
    for line in ["", ";", ";;", "a", "a;", ";a", "1;2;3;4;5;6", "1;2;3;4;5;6;7", "x;\u{e9};y\u{1F600};;z"] {
        let expected: Vec<&str> = line.split(';').collect();
        assert_eq!(split_fields(line), expected);
        assert_eq!(separator_count(line) + 1, expected.len());
    }
}

#[test]
fn the_shape_of_a_float() {
    for text in ["1", "-1", "+1", "1.5", "1.", ".5", "1e5", "1E-5", "1.5e+10", "inf", "-INF", "Infinity", "nan", "NaN", "+nan"] {
        assert!(looks_like_float(text), "for {:?}", text);
    }
    for text in ["", "+", "-", ".", "e5", "1e", "1e+", "1.5.5", "1 ", " 1", "in", "infinit", "nane", "1f", "0x1", "1_0", "--1"] {
        assert!(!looks_like_float(text), "for {:?}", text);
    }
}
