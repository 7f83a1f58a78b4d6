use swt2::error::AppError;
use swt2::greet;
use swt2::history::{file_history_record, search_pattern, tts_history_record};
use swt2::ids::temp_file_name;
use swt2::text::{is_blank, parse_u64, split_words, u64_to_decimal};

fn is_timestamp(s: &str) -> bool {
    let c: Vec<char> = s.chars().collect();
    let t = c.len() - 15;
    c.len() >= 19
        && c[t] == '-'
        && c[t + 3] == '-'
        && c[t + 6] == ' '
        && c[t + 9] == ':'
        && c[t + 12] == ':'
        && [1, 2, 4, 5, 7, 8, 10, 11, 13, 14].iter().all(|k| c[t + k].is_ascii_digit())
}

#[test]
fn errors_read_as_kind_and_message() {
    let e = AppError::db("locked");
    assert_eq!(e.kind, "db");
    assert_eq!(e.display_text(), "[db] locked");
    assert_eq!(AppError::config("bad").kind, "config");
    assert_eq!(AppError::server("down").display_text(), "[server] down");
    assert_eq!(AppError::new("io", "gone").display_text(), "[io] gone");
}

#[test]
fn greeting() {
    assert_eq!(greet("Ann"), "Hello, Ann! SWT2 backend is ready.");
}

#[test]
fn history_records() {
    let r = tts_history_record("你好 world", "Qwen/Qwen3-TTS-0.6B-GGUF");
    assert_eq!(r.source, "tts");
    assert_eq!(r.word_count, 8);
    assert_eq!(r.file_name, format!("TTS_{}", r.created_at));
    assert!(is_timestamp(&r.created_at));
    assert_eq!(r.language, "auto");
    assert_eq!(r.segments_json, "[]");
    assert_eq!(r.file_duration, 0);
    let f = file_history_record("a.wav", 2.5f64.to_bits(), "m", "zh", "abc", "[{}]");
    assert_eq!(f.source, "file");
    assert_eq!(f.word_count, 3);
    assert_eq!(f64::from_bits(f.file_duration), 2.5);
    assert!(is_timestamp(&f.created_at));
    assert_eq!(search_pattern("abc"), "%abc%");
}

#[test]
fn temporary_names_are_fresh() {
    let a = temp_file_name("swt2_conv_", ".wav");
    let b = temp_file_name("swt2_conv_", ".wav");
    assert_ne!(a, b);
    assert!(a.starts_with("swt2_conv_") && a.ends_with(".wav"));
    let u = &a["swt2_conv_".len()..a.len() - 4];
    assert_eq!(u.len(), 36);
    assert_eq!(u.as_bytes()[14], b'4');
    assert!(u.chars().all(|c| c == '-' || c.is_ascii_digit() || ('a'..='f').contains(&c)));
}

#[test]
fn numbers_and_words() {
    assert_eq!(u64_to_decimal(0), "0");
    assert_eq!(u64_to_decimal(907), "907");
    assert_eq!(parse_u64("907"), Some(907));
    assert_eq!(parse_u64(&u64_to_decimal(u64::MAX)), Some(u64::MAX));
    assert_eq!(parse_u64("0012"), Some(12));
    assert_eq!(parse_u64("1_000"), None);
    assert_eq!(split_words("zh en ja"), vec!["zh", "en", "ja"]);
    assert!(split_words("").is_empty());
    assert_eq!(split_words("a  b"), vec!["a", "", "b"]);
    assert!(is_blank(""));
    assert!(is_blank(" \u{a0}\u{2028}"));
    assert!(!is_blank(" x "));
}
