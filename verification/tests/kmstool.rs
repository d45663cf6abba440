use base64::prelude::BASE64_STANDARD;
use base64::Engine;
use trustvault::kmstool::{char_is_whitespace, parse_output, KmsToolError};

#[test]
fn test_successful_parse_output_decrypt_or_genrandom() {
    let stdout = format!("PLAINTEXT: {}\n", BASE64_STANDARD.encode(b"Hello World"));
    let stderr = "Some warning message\n";

    let result = parse_output(&["PLAINTEXT: "], stdout.as_bytes(), "exit status: 0".to_string(), stderr.as_bytes()).unwrap();

    assert_eq!(result[0], b"Hello World");
}

#[test]
fn test_successful_parse_output_genkey() {
    let stdout = format!(
        "CIPHERTEXT: {}\nPLAINTEXT: {}\n",
        BASE64_STANDARD.encode(b"ciphertext"),
        BASE64_STANDARD.encode(b"secretdata!")
    );
    let stderr = "Some warning message\n";

    let result = parse_output(
        &["CIPHERTEXT: ", "PLAINTEXT: "],
        stdout.as_bytes(),
        "exit status: 1".to_string(),
        stderr.as_bytes(),
    )
    .unwrap();

    assert_eq!(result[0], b"ciphertext");
    assert_eq!(result[1], b"secretdata!");
}

#[test]
fn test_unsuccessful_parse_output_no_stdout() {
    let stdout = "";
    let stderr = "Some warning message\n";

    let result = parse_output(&["PLAINTEXT: "], stdout.as_bytes(), "exit status: 1".to_string(), stderr.as_bytes());

    match result {
        Err(err) => match err {
            KmsToolError::StdoutParse { stderr, .. } => {
                assert_eq!(stderr, "Some warning message\n");
            }
            _ => {
                panic!("expect KmsToolError::StdoutParse variant");
            }
        },
        Ok(_ok) => {
            panic!("expected error got ok");
        }
    }
}

#[test]
fn test_successful_parse_output_malformed_stdout() {
    let stdout = format!(
        "PLAINTEXT: {}\nCIPHERTEXT: {}\n",
        BASE64_STANDARD.encode(b"secretdata!"),
        BASE64_STANDARD.encode(b"ciphertext"),
    );
    let stderr = "Some warning message\n";

    let result = parse_output(
        &["CIPHERTEXT: ", "PLAINTEXT: "],
        stdout.as_bytes(),
        "exit status: 1".to_string(),
        stderr.as_bytes(),
    )
    .unwrap();
    assert_eq!(result[0], b"ciphertext");
    assert_eq!(result[1], b"secretdata!");
}

#[test]
fn parse_output_reports_the_output_when_a_field_is_missing() {
    let stdout = "CIPHERTEXT: Y2lwaGVy\n";
    let result = parse_output(
        &["CIPHERTEXT: ", "PLAINTEXT: "],
        stdout.as_bytes(),
        "exit status: 2".to_string(),
        b"boom",
    );
    match result {
        Err(KmsToolError::StdoutParse { stdout: o, status, stderr }) => {
            assert_eq!(o, "CIPHERTEXT: Y2lwaGVy\n");
            assert_eq!(status, "exit status: 2");
            assert_eq!(stderr, "boom");
        }
        _ => panic!("expected a parse error"),
    }
}

#[test]
fn parse_output_reports_undecodable_base64() {
    let result = parse_output(&["PLAINTEXT: "], b"PLAINTEXT: !!not base64!!\n", String::new(), b"");
    assert!(matches!(result, Err(KmsToolError::DecodeError(_))));
}

#[test]
fn parse_output_trims_lines_and_values() {
    let stdout = "noise\r\n \t PLAINTEXT:   aGVsbG8=  \r\nmore noise";
    let result = parse_output(&["PLAINTEXT: "], stdout.as_bytes(), String::new(), b"").unwrap();
    assert_eq!(result, vec![b"hello".to_vec()]);
}

#[test]
fn parse_output_takes_the_first_matching_line() {
    let stdout = "PLAINTEXT: Zmlyc3Q=\nPLAINTEXT: c2Vjb25k\n";
    let result = parse_output(&["PLAINTEXT: "], stdout.as_bytes(), String::new(), b"").unwrap();
    assert_eq!(result[0], b"first");
}

#[test]
fn parse_output_reads_invalid_utf8_lossily() {
    let mut stdout = b"\xff\xfe junk\n".to_vec();
    stdout.extend_from_slice(b"PLAINTEXT: aGk=\n");
    let result = parse_output(&["PLAINTEXT: "], &stdout, String::new(), b"").unwrap();
    assert_eq!(result[0], b"hi");
}

#[test]
fn parse_output_with_no_fields_is_empty() {
    let result = parse_output(&[], b"anything", String::new(), b"").unwrap();
    assert!(result.is_empty());
}

#[test]
fn whitespace_is_unicode_white_space() {
    for c in [' ', '\t', '\n', '\r', '\u{0b}', '\u{0c}', '\u{85}', '\u{a0}', '\u{2003}', '\u{3000}'] {
        assert!(char_is_whitespace(c));
        assert_eq!(char_is_whitespace(c), c.is_whitespace());
    }
    for c in ['a', '0', '\u{200b}', '\u{feff}'] {
        assert!(!char_is_whitespace(c));
        assert_eq!(char_is_whitespace(c), c.is_whitespace());
    }
}
