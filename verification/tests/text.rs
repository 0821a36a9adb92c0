use script_engine::api::{id_of, id_text, ids_of};
use script_engine::text::{integer_text, joined, natural_text, parse_i64, trim_end};

#[test]
fn a_log_id_survives_a_round_trip() {
    let id = 3_915_793_272_451_299_329;
    assert_eq!(id_text(id), "3915793272451299329");
    assert_eq!(id_of(&id_text(id)).unwrap(), id);
}

#[test]
fn ids_at_the_edges_survive_the_trip() {
    for id in [0, 1, -1, 9, 10, -10, i64::MAX, i64::MIN, 1 << 53, (1 << 53) + 1] {
        assert_eq!(id_text(id), id.to_string());
        assert_eq!(id_of(&id_text(id)).unwrap(), id);
    }
}

#[test]
fn reading_agrees_with_from_str() {
    for text in [
        "", "+", "-", "+5", "-0", "007", "12a", " 1", "1 ", "9223372036854775807",
        "9223372036854775808", "-9223372036854775808", "-9223372036854775809", "٣", "+-1",
        "00000000000000000000000000000000001",
    ] {
        assert_eq!(parse_i64(text), text.parse::<i64>().ok(), "{text:?}");
    }
}

#[test]
fn a_text_that_is_not_an_id_is_refused() {
    assert!(id_of("abc").is_err());
    assert!(id_of("").is_err());
    assert!(id_of("12345678901234567890").is_err());
    assert_eq!(script_engine::api::not_an_id("abc"), "abc 은(는) id가 아니다");
}

#[test]
fn a_list_of_ids_is_read_whole_or_not_at_all() {
    let good = vec!["1".to_string(), "-2".to_string()];
    assert_eq!(ids_of(&good).unwrap(), vec![1, -2]);
    let bad = vec!["1".to_string(), "x".to_string()];
    assert!(ids_of(&bad).is_err());
}

#[test]
fn numbers_are_written_as_to_string_writes_them() {
    assert_eq!(natural_text(0), "0");
    assert_eq!(natural_text(u64::MAX), u64::MAX.to_string());
    assert_eq!(integer_text(-42), "-42");
}

#[test]
fn trailing_whitespace_of_every_kind_goes() {
    let text = "stack\u{3000}\u{2029}\u{a0} \t\r\n";
    assert_eq!(trim_end(text), text.trim_end());
    assert_eq!(trim_end("  "), "");
    assert_eq!(trim_end(" a b "), " a b");
}

#[test]
fn console_arguments_are_joined_by_spaces() {
    let parts = vec!["x".to_string(), "1".to_string(), String::new()];
    assert_eq!(joined(&parts), "x 1 ");
    assert_eq!(joined(&Vec::new()), "");
}

#[test]
fn a_refused_id_tells_the_script_what_it_got() {
    let error = id_of("abc").unwrap_err();
    assert!(error.to_string().contains("abc 은(는) id가 아니다"), "{error}");
    let list = ids_of(&vec!["1".to_string(), "x".to_string(), "y".to_string()]).unwrap_err();
    assert!(list.to_string().contains("x 은(는) id가 아니다"), "{list}");
}
