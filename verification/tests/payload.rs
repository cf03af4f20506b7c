use tokenizer_ffi::encode::encode_payload;

fn strings(items: &[&str]) -> Vec<String> {
    items.iter().map(|s| s.to_string()).collect()
}

#[test]
fn encode_empty_arrays() {
    let tokens: Vec<String> = Vec::new();
    let ids: Vec<u32> = Vec::new();
    let payload = encode_payload(&tokens, &ids, None);
    assert_eq!(payload, "{\"tokens\":[],\"ids\":[]}");
}

#[test]
fn encode_basic_payload() {
    let tokens = strings(&["hello", "world"]);
    let ids: Vec<u32> = vec![7, 4094];
    let trace = strings(&["one step"]);
    let payload = encode_payload(&tokens, &ids, Some(&trace));
    assert_eq!(
        payload,
        "{\"tokens\":[\"hello\",\"world\"],\"ids\":[7,4094],\"debug_logs\":[\"one step\"]}"
    );
}

#[test]
fn encode_escapes_special_characters() {
    let tokens = strings(&["a\"b", "c\\d", "e\nf"]);
    let ids: Vec<u32> = vec![0, 1, 2];
    let payload = encode_payload(&tokens, &ids, None);
    let expected = "{\"tokens\":[\"a\\\"b\",\"c\\\\d\",\"e\\u000af\"],\"ids\":[0,1,2]}";
    assert_eq!(payload, expected);
}

#[test]
fn encode_extreme_ids() {
    let tokens = strings(&["min", "max"]);
    let ids: Vec<u32> = vec![0, u32::MAX];
    let payload = encode_payload(&tokens, &ids, None);
    assert_eq!(payload, "{\"tokens\":[\"min\",\"max\"],\"ids\":[0,4294967295]}");
}

#[test]
fn encode_is_deterministic() {
    let tokens = strings(&["alpha", "beta", "gamma"]);
    let ids: Vec<u32> = vec![11, 22, 33];
    let trace = strings(&["first", "second"]);
    let one = encode_payload(&tokens, &ids, Some(&trace));
    let two = encode_payload(&tokens, &ids, Some(&trace));
    assert_eq!(one.into_bytes(), two.into_bytes());
}

#[test]
fn encode_output_is_valid_json() {
    let tokens = strings(&["qu\"ote", "back\\slash", "tab\there"]);
    let ids: Vec<u32> = vec![5, 6, 7];
    let trace = strings(&["resolved from file"]);
    let payload = encode_payload(&tokens, &ids, Some(&trace));
    let value: serde_json::Value = serde_json::from_str(&payload).unwrap();
    let out_tokens = value["tokens"].as_array().unwrap();
    let out_ids = value["ids"].as_array().unwrap();
    let out_logs = value["debug_logs"].as_array().unwrap();
    assert_eq!(out_tokens.len(), out_ids.len());
    assert_eq!(out_tokens[0].as_str().unwrap(), "qu\"ote");
    assert_eq!(out_tokens[1].as_str().unwrap(), "back\\slash");
    assert_eq!(out_tokens[2].as_str().unwrap(), "tab\there");
    assert_eq!(out_ids[2].as_u64().unwrap(), 7);
    assert_eq!(out_logs[0].as_str().unwrap(), "resolved from file");
}
