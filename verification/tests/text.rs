use codeql_agent::text::{
    contains, decimal, from_chars, glue, glue3, join_lines, same_text, split_lines, to_chars,
};

fn owned(lines: &[&str]) -> Vec<String> {
    lines.iter().map(|l| l.to_string()).collect()
}

#[test]
fn chars_round_trip() {
    let v = to_chars("héllo");
    assert_eq!(v, vec!['h', 'é', 'l', 'l', 'o']);
    assert_eq!(from_chars(&v), "héllo");
    assert_eq!(from_chars(&[]), "");
}

#[test]
fn glue_appends_in_order() {
    assert_eq!(glue("ab", "cd"), "abcd");
    assert_eq!(glue("", ""), "");
    assert_eq!(glue3("a", "/", "b"), "a/b");
}

#[test]
fn decimal_writes_numerals() {
    assert_eq!(decimal(0), "0");
    assert_eq!(decimal(7), "7");
    assert_eq!(decimal(10), "10");
    assert_eq!(decimal(362), "362");
    assert_eq!(decimal(1234567890), "1234567890");
    assert_eq!(decimal(u64::MAX), "18446744073709551615");
}

#[test]
fn decimal_agrees_with_std_formatting() {
    let mut n: u64 = 1;
    for _ in 0..60 {
        assert_eq!(decimal(n), format!("{}", n));
        assert_eq!(decimal(n - 1), format!("{}", n - 1));
        n = n.wrapping_mul(3).wrapping_add(7);
        if n == 0 {
            n = 1;
        }
    }
}

#[test]
fn different_numbers_have_different_numerals() {
    for a in 0..200u64 {
        for b in 0..200u64 {
            assert_eq!(decimal(a) == decimal(b), a == b);
        }
    }
}

#[test]
fn contains_finds_runs_of_characters() {
    assert!(contains("import cpp", "import cpp"));
    assert!(contains("  import cpp\nfrom", "import cpp"));
    assert!(contains("abc", ""));
    assert!(contains("", ""));
    assert!(!contains("", "a"));
    assert!(!contains("ab", "abc"));
    assert!(!contains("import  cpp", "import cpp"));
    assert!(contains("aab", "ab"));
    assert!(contains("xxab", "ab"));
    assert!(!contains("abab", "ba b"));
    assert!(contains("naïve café", "café"));
}

#[test]
fn contains_agrees_with_std() {
    let hays = ["", "a", "ab", "aba", "abab", "bbbab", "import java", "import javascript"];
    let needles = ["", "a", "b", "ab", "ba", "bab", "import java", "javascript", "abc"];
    for h in hays {
        for n in needles {
            assert_eq!(contains(h, n), h.contains(n), "{:?} in {:?}", n, h);
        }
    }
}

#[test]
fn same_text_compares_character_by_character() {
    assert!(same_text("", ""));
    assert!(same_text("filename", "filename"));
    assert!(!same_text("filename", "Filename"));
    assert!(!same_text("filename", "filename "));
    assert!(!same_text("a", ""));
}

#[test]
fn split_lines_of_empty_text() {
    assert_eq!(split_lines(""), Vec::<String>::new());
}

#[test]
fn split_lines_at_line_feeds() {
    assert_eq!(split_lines("a\nb\nc"), owned(&["a", "b", "c"]));
    assert_eq!(split_lines("a\nb\nc\n"), owned(&["a", "b", "c"]));
    assert_eq!(split_lines("\n"), owned(&[""]));
    assert_eq!(split_lines("\n\n"), owned(&["", ""]));
    assert_eq!(split_lines("a\n\nb"), owned(&["a", "", "b"]));
    assert_eq!(split_lines("only"), owned(&["only"]));
}

#[test]
fn split_lines_drops_a_carriage_return_before_a_line_feed() {
    assert_eq!(split_lines("a\r\nb\r\n"), owned(&["a", "b"]));
    assert_eq!(split_lines("a\r\n\r\nb"), owned(&["a", "", "b"]));
    assert_eq!(split_lines("a\r\r\nb"), owned(&["a\r", "b"]));
}

#[test]
fn split_lines_keeps_a_carriage_return_without_a_line_feed() {
    assert_eq!(split_lines("a\rb\nc"), owned(&["a\rb", "c"]));
    assert_eq!(split_lines("a\nb\r"), owned(&["a", "b\r"]));
    assert_eq!(split_lines("\r"), owned(&["\r"]));
}

#[test]
fn split_lines_agrees_with_std() {
    let texts = [
        "", "\n", "\r\n", "\r", "a", "a\n", "a\r\n", "a\r", "\na", "\r\na", "a\n\n", "a\r\n\r\n",
        "a\n\rb", "ab\r\ncd\nef\r", "x\r\r\n\ny", "int p;\r\n  return 0;\r\n}\r\n",
    ];
    for t in texts {
        let expected: Vec<String> = t.lines().map(|l| l.to_string()).collect();
        assert_eq!(split_lines(t), expected, "{:?}", t);
    }
}

#[test]
fn join_lines_puts_line_feeds_between() {
    assert_eq!(join_lines(&owned(&[])), "");
    assert_eq!(join_lines(&owned(&["a"])), "a");
    assert_eq!(join_lines(&owned(&["a", "b"])), "a\nb");
    assert_eq!(join_lines(&owned(&["a", "", "b"])), "a\n\nb");
    assert_eq!(join_lines(&owned(&["", ""])), "\n");
}
