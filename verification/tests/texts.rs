use neo4r_server::http::{
    hex_value, http_response_head, parse_http_target, percent_decode, percent_decode_bytes,
    HttpHead, HttpResponse,
};
use neo4r_server::json::{
    extract_json_string_field, extract_optional_json_bool_field,
    extract_optional_json_string_field, extract_optional_json_u64_field, json_error, json_escape,
    json_quote, parse_json_string, string_array_json,
};
use neo4r_server::literal::{parse_json_number, parse_json_params_field, parse_json_value, Literal};
use neo4r_server::sorting::sort_strings;
use neo4r_server::text::{
    blank, comes_before, ends_with, join_with, lines_of, lowered, read_number, read_signed,
    read_u64, replaced, same_ignoring_case, show, show_signed, split_first, split_on, starts_with,
    strip_prefix, swapped_char, trimmed, uppered, words_of,
};

fn owned(list: &[&str]) -> Vec<String> {
    list.iter().map(|s| s.to_string()).collect()
}

#[test]
fn numbers_read_back_from_their_digits() {
    for n in [0u128, 7, 10, 999, 18446744073709551615, u128::MAX] {
        assert_eq!(read_number(&show(n), u128::MAX), Some(n));
        assert_eq!(show(n), n.to_string());
    }
    assert_eq!(read_u64("18446744073709551616"), None);
    assert_eq!(read_u64("+5"), Some(5));
    assert_eq!(read_u64(""), None);
    assert_eq!(read_u64("-5"), None);
    assert_eq!(read_u64("5x"), None);
    assert_eq!(show_signed(i64::MIN), i64::MIN.to_string());
    assert_eq!(read_signed("-9223372036854775808"), Some(i64::MIN));
    assert_eq!(read_signed("9223372036854775808"), None);
}

#[test]
fn joined_texts_split_into_their_parts() {
    let parts = owned(&["a", "", "c d"]);
    assert_eq!(join_with(&parts, "\t"), "a\t\tc d");
    assert_eq!(split_on("a\t\tc d", '\t'), parts);
    assert_eq!(split_on("", '\t'), owned(&[""]));
    assert_eq!(
        split_first("key=a=b", "="),
        Some(("key".to_string(), "a=b".to_string()))
    );
    assert_eq!(split_first("none", "="), None);
}

#[test]
fn lines_are_found_between_line_ends() {
    assert_eq!(lines_of("a\nb\r\n\nc"), owned(&["a", "b", "", "c"]));
    assert_eq!(lines_of("a\n"), owned(&["a"]));
    assert_eq!(lines_of(""), owned(&[]));
}

#[test]
fn texts_are_compared_and_changed_by_their_characters() {
    assert!(starts_with("ERR\tx", "ERR\t"));
    assert!(ends_with("a.yml", ".yml"));
    assert_eq!(strip_prefix("ERR\tx", "ERR\t"), Some("x".to_string()));
    assert_eq!(strip_prefix("x", "ERR\t"), None);
    assert_eq!(trimmed("  a b \n"), "a b");
    assert!(blank(" \t\n"));
    assert_eq!(lowered("AbC-Z"), "abc-z");
    assert_eq!(uppered("abC"), "ABC");
    assert!(same_ignoring_case("ReaDer", "reader"));
    assert_eq!(swapped_char("a-b-c", '-', '_'), "a_b_c");
    assert_eq!(replaced("a\\b", "\\", "\\\\"), "a\\\\b");
    assert_eq!(words_of("  READ_ONLY   SNAPSHOT "), owned(&["READ_ONLY", "SNAPSHOT"]));
    assert!(comes_before("ab", "b"));
    assert!(!comes_before("b", "ab"));
    assert!(!comes_before("a", "a"));
}

#[test]
fn sorted_texts_stand_in_order() {
    assert_eq!(
        sort_strings(&owned(&["b", "a", "ab", "a"])),
        owned(&["a", "a", "ab", "b"])
    );
}

#[test]
fn json_strings_read_back() {
    for text in ["", "plain", "a\"b\\c\n\r\t", "gr\u{fc}n \u{1F600}"] {
        let quoted = json_quote(text);
        let (read, rest) = parse_json_string(&format!("{quoted} , 1")).unwrap();
        assert_eq!(read, text);
        assert_eq!(rest, " , 1");
    }
    assert_eq!(json_escape("a\"b"), "a\\\"b");
    assert_eq!(json_error("no \"x\""), "{\"error\":\"no \\\"x\\\"\"}");
    assert_eq!(string_array_json(&owned(&["a", "b"])), "[\"a\",\"b\"]");
    assert!(parse_json_string("\"open").is_err());
    assert!(parse_json_string("no quote").is_err());
}

#[test]
fn json_fields_are_found_by_their_names() {
    let body = "{\"name\":\"ada\",\"on\": true,\"days\": 30,\"off\":false}";
    assert_eq!(extract_json_string_field(body, "name"), Ok("ada".to_string()));
    assert_eq!(
        extract_optional_json_string_field(body, "missing"),
        Ok(None)
    );
    assert!(extract_json_string_field(body, "missing").is_err());
    assert_eq!(extract_optional_json_bool_field(body, "on"), Ok(true));
    assert_eq!(extract_optional_json_bool_field(body, "missing"), Ok(false));
    assert_eq!(extract_optional_json_u64_field(body, "days"), Ok(Some(30)));
    assert_eq!(extract_optional_json_u64_field(body, "missing"), Ok(None));
}

#[test]
fn json_values_are_told_apart() {
    match parse_json_number("-12 rest").unwrap() {
        (Literal::Int(n), rest) => {
            assert_eq!(n, -12);
            assert_eq!(rest, " rest");
        }
        _ => panic!("not an integer"),
    }
    match parse_json_value("1.5,").unwrap() {
        (Literal::Float(text), rest) => {
            assert_eq!(text, "1.5");
            assert_eq!(rest, ",");
        }
        _ => panic!("not a float"),
    }
    assert!(matches!(parse_json_value("null").unwrap().0, Literal::Null));
    assert!(matches!(parse_json_value("true").unwrap().0, Literal::Bool(true)));
    assert!(parse_json_value("nothing").is_err());
}

#[test]
fn params_of_a_request_are_read_by_name() {
    let params =
        parse_json_params_field("{\"query\":\"x\",\"params\":{\"a\":1,\"b\":\"t\",\"a\":2}}")
            .ok()
            .unwrap();
    assert_eq!(params.len(), 2);
    assert!(matches!(params.get("a"), Some(Literal::Int(2))));
    assert!(matches!(params.get("c"), None));
    assert_eq!(parse_json_params_field("{}").ok().unwrap().len(), 0);
    assert!(parse_json_params_field("{\"params\":3}").is_err());
}

#[test]
fn percent_signs_stand_for_bytes() {
    assert_eq!(percent_decode("a%20b+c"), "a b c");
    assert_eq!(percent_decode("a%zzb%4"), "ab");
    assert_eq!(percent_decode_bytes(b"%41%"), b"A".to_vec());
    assert_eq!(hex_value(b'f'), Some(15));
    assert_eq!(hex_value(b'g'), None);
    // Bytes that are no text are shown as replacement characters.
    assert_eq!(percent_decode("%ff"), "\u{fffd}");
    assert_eq!(percent_decode("gr%C3%BCn"), "gr\u{fc}n");
}

#[test]
fn targets_of_requests_have_a_path_and_values() {
    let (path, query) = parse_http_target("/api/graph?limit=5&name=a%20b&flag");
    assert_eq!(path, "/api/graph");
    assert_eq!(query.get("limit"), Some("5"));
    assert_eq!(query.get("name"), Some("a b"));
    assert_eq!(query.get("flag"), Some(""));
    assert_eq!(query.get("other"), None);
}

#[test]
fn requests_are_read_line_by_line() {
    let mut head = HttpHead::start("POST /api/query?database=a HTTP/1.1");
    assert!(!head.add_line("Content-Length: 3\r\n"));
    assert!(!head.add_line("X-Token:  secret \r\n"));
    assert!(head.add_line("\r\n"));
    assert_eq!(head.content_length, 3);
    let request = head.with_body(b"abc");
    assert_eq!(request.method, "POST");
    assert_eq!(request.path, "/api/query");
    assert_eq!(request.query_value("database"), Some("a".to_string()));
    assert_eq!(request.header("x-token"), Some("secret".to_string()));
    assert_eq!(request.body, "abc");
}

#[test]
fn responses_start_with_their_status() {
    let response = HttpResponse::json_status(409, "{}".to_string());
    let head = http_response_head(&response);
    assert_eq!(
        head,
        "HTTP/1.1 409 OK\r\ncontent-type: application/json; charset=utf-8\r\ncontent-length: 2\r\ncache-control: no-store\r\nconnection: close\r\n\r\n"
    );
    let missing = http_response_head(&HttpResponse::json_status(404, String::new()));
    assert!(missing.starts_with("HTTP/1.1 404 Not Found\r\n"));
}
