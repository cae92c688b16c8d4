use numaflow_core::error::Error;
use numaflow_core::transformer::filter::expr::eval_bool;
use numaflow_core::transformer::filter::FilterTransformer;

const EXPR: &str = "int(json(payload).id) < 100";

fn transformer_message(r: Result<bool, Error>) -> String {
    match r {
        Err(Error::Transformer(m)) => m,
        other => panic!("expected a transformer error, got {:?}", other),
    }
}

#[test]
fn eval_bool_small_id_passes() {
    assert_eq!(eval_bool(EXPR, b"42").unwrap(), true);
    assert_eq!(eval_bool(EXPR, b"99").unwrap(), true);
    assert_eq!(eval_bool(EXPR, b"-5").unwrap(), true);
    assert_eq!(eval_bool(EXPR, b"+7").unwrap(), true);
    assert_eq!(eval_bool(EXPR, b"0").unwrap(), true);
}

#[test]
fn eval_bool_large_id_fails_condition() {
    assert_eq!(eval_bool(EXPR, b"100").unwrap(), false);
    assert_eq!(eval_bool(EXPR, b"2147483647").unwrap(), false);
    assert_eq!(eval_bool(EXPR, b"-2147483648").unwrap(), true);
}

#[test]
fn eval_bool_unsupported_expression() {
    assert_eq!(transformer_message(eval_bool("int(json(payload).id) > 100", b"42")), "Unsupported expression");
    assert_eq!(transformer_message(eval_bool("", b"42")), "Unsupported expression");
}

#[test]
fn eval_bool_invalid_utf8() {
    assert_eq!(transformer_message(eval_bool(EXPR, &[0xff, 0x31])), "Invalid UTF-8");
    assert_eq!(transformer_message(eval_bool(EXPR, &[0xc3])), "Invalid UTF-8");
}

#[test]
fn eval_bool_not_a_number() {
    assert_eq!(transformer_message(eval_bool(EXPR, b"")), "Failed to parse ID");
    assert_eq!(transformer_message(eval_bool(EXPR, b"{\"id\": 5}")), "Failed to parse ID");
    assert_eq!(transformer_message(eval_bool(EXPR, b" 5")), "Failed to parse ID");
    assert_eq!(transformer_message(eval_bool(EXPR, b"2147483648")), "Failed to parse ID");
    assert_eq!(transformer_message(eval_bool(EXPR, "é".as_bytes())), "Failed to parse ID");
}

#[test]
fn filter_law_on_rendered_ids() {
    for id in [-2147483648i32, -1000, -1, 0, 1, 9, 10, 99, 100, 101, 12345, 2147483647] {
        let text = id.to_string();
        assert_eq!(eval_bool(EXPR, text.as_bytes()).unwrap(), id < 100, "id {}", id);
    }
}

#[test]
fn apply_keeps_and_drops() {
    let f = FilterTransformer::new(EXPR.to_string());
    let now = chrono::Utc::now();
    let keys = vec!["k".to_string()];
    assert!(f.apply(now, b"7", &keys).unwrap().is_some());
    assert!(f.apply(now, b"700", &keys).unwrap().is_none());
    match f.apply(now, b"x", &keys) {
        Err(Error::Transformer(m)) => assert_eq!(m, "Failed to parse ID"),
        _ => panic!("expected an error"),
    }
}

#[test]
fn apply_with_unknown_expression_errs() {
    let f = FilterTransformer::new("true".to_string());
    match f.apply(chrono::Utc::now(), b"7", &[]) {
        Err(Error::Transformer(m)) => assert_eq!(m, "Unsupported expression"),
        _ => panic!("expected an error"),
    }
}
