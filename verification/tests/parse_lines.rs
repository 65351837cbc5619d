use md5sum::digest::digest_bytes;
use md5sum::engine::{md5sum_check, MD5Check};
use md5sum::parse::{format_md5sum_line, is_hex_str, read_md5sum_line};

#[test]
fn it_should_validate_checksum_lines() {
    let valid_lines = vec![
        (
            "262d61a1b7a6df20a71b36563a78cd3b  Cargo.toml",
            Some(("262d61a1b7a6df20a71b36563a78cd3b", "Cargo.toml")),
        ),
        (
            "9e1f74e2cd32f1da3bf795607ddd0366  src/main.rs",
            Some(("9e1f74e2cd32f1da3bf795607ddd0366", "src/main.rs")),
        ),
        (
            "9e1f74e2cd32f1da3bf795607ddd0366 *src/lib.rs",
            Some(("9e1f74e2cd32f1da3bf795607ddd0366", "src/lib.rs")),
        ),
    ];

    for (line, expected) in valid_lines {
        assert_eq!(expected, read_md5sum_line(line));
    }

    let invalid_lines = vec![
        " 9e1f74e2cd32f1da3bf795607ddd0366  src/main.rs",
        " e1f74e2cd32f1da3bf795607ddd0366  src/main.rs",
        "9e1f74e2cd32f1da3bf795607ddd03664 src/main.rs",
        "9e1f74e2cd32f1da3bf795607ddd0366 -src/main.rs",
        "9e1f74e2cd32f1da3bf795607ddd0366 src/main.rs",
        "9e1f74e2cd32f1da3bf795607ddd0366 src/main.rs ",
    ];

    for line in invalid_lines {
        assert_eq!(None, read_md5sum_line(line));
    }
}

#[test]
fn hex_strings_are_recognized() {
    assert!(is_hex_str(""));
    assert!(is_hex_str("0123456789abcdefABCDEF"));
    assert!(!is_hex_str("0123g"));
    assert!(!is_hex_str(" 0123"));
}

#[test]
fn uppercase_digest_tokens_parse() {
    let line = "D41D8CD98F00B204E9800998ECF8427E  upper.bin";
    let parsed = read_md5sum_line(line);
    assert_eq!(
        Some(("D41D8CD98F00B204E9800998ECF8427E", "upper.bin")),
        parsed
    );
}

#[test]
fn target_names_are_taken_verbatim() {
    let line = "d41d8cd98f00b204e9800998ecf8427e  a name  with  spaces ";
    let parsed = read_md5sum_line(line).unwrap();
    assert_eq!("a name  with  spaces ", parsed.1);

    let empty_name = "d41d8cd98f00b204e9800998ecf8427e *";
    assert_eq!(Some(("d41d8cd98f00b204e9800998ecf8427e", "")), read_md5sum_line(empty_name));
}

#[test]
fn formatting_then_parsing_returns_the_pair() {
    let digest = digest_bytes(b"round trip");
    let line = format_md5sum_line(&digest, "some/target name.txt");
    let (token, name) = read_md5sum_line(&line).unwrap();
    assert_eq!(name, "some/target name.txt");
    let hex: String = digest.0.iter().map(|b| format!("{:02x}", b)).collect();
    assert_eq!(token, hex);
}

#[test]
fn produce_mode_line_is_exact() {
    let digest = digest_bytes(b"abc");
    let line = format_md5sum_line(&digest, "abc.txt");
    assert_eq!("900150983cd24fb0d6963f7d28e17f72  abc.txt", line);
}

#[test]
fn malformed_lines_are_bad_format_even_with_a_readable_target() {
    let digest = digest_bytes(b"");
    let malformed = [
        " d41d8cd98f00b204e9800998ecf8427e  empty.txt",
        "d41d8cd98f00b204e9800998ecf8427  empty.txt",
        "d41d8cd98f00b204e9800998ecf8427e3 empty.txt",
        "d41d8cd98f00b204e9800998ecf8427e empty.txt",
        "d41d8cd98f00b204e9800998ecf8427e",
        "",
    ];
    for line in malformed {
        assert_eq!(MD5Check::BadFormat, md5sum_check(line, Ok(digest)));
    }
}

#[test]
fn hex_value_mutation_is_a_mismatch_never_bad_format() {
    let digest = digest_bytes(b"");
    let line = "d41d8cd98f00b204e9800998ecf8427e *empty.txt";
    assert_eq!(
        MD5Check::MatchSuccess("empty.txt".to_string()),
        md5sum_check(line, Ok(digest))
    );

    // Mutate each digest-token position to a hex character of another value.
    for i in 0..32 {
        let mut chars: Vec<char> = line.chars().collect();
        chars[i] = if chars[i] == 'f' { '0' } else { 'f' };
        let mutated: String = chars.iter().collect();
        assert_eq!(
            MD5Check::MatchFailed("empty.txt".to_string()),
            md5sum_check(&mutated, Ok(digest)),
            "position {}",
            i
        );
    }
}

#[test]
fn digest_comparison_is_case_insensitive() {
    let digest = digest_bytes(b"");
    let upper = "D41D8CD98F00B204E9800998ECF8427E  empty.txt";
    assert_eq!(
        MD5Check::MatchSuccess("empty.txt".to_string()),
        md5sum_check(upper, Ok(digest))
    );
}

#[test]
fn read_errors_carry_the_target_and_the_error() {
    let line = "d41d8cd98f00b204e9800998ecf8427e  gone.txt";
    let outcome = md5sum_check(line, Err("no such file".to_string()));
    assert_eq!(
        MD5Check::ReadError("gone.txt".to_string(), "no such file".to_string()),
        outcome
    );
}
