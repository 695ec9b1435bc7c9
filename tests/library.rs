use fortune_server::{
    categories_reply, categories_reply_from, category_from_query, fortune_args, fortune_from_run,
    fortune_reply, is_category_name, is_space, parse_port, reply_for_run, route,
    strip_category_token, trim_spaces, CategoryIndex, FortuneError, ProgramRun, Route,
    DEFAULT_PORT, STATUS_NOT_FOUND, STATUS_OK,
};

fn strings(v: &[&str]) -> Vec<String> {
    v.iter().map(|s| s.to_string()).collect()
}

fn sorted(mut v: Vec<String>) -> Vec<String> {
    v.sort();
    v
}

fn json_keys(body: &str) -> Vec<String> {
    let value: serde_json::Value = serde_json::from_str(body).expect("body is JSON");
    let object = value.as_object().expect("body is a JSON object");
    sorted(object.keys().cloned().collect())
}

#[test]
fn dotted_entries_are_not_categories() {
    let index = CategoryIndex::from_entries(strings(&["wisdom", "riddles", "README.md"]));
    assert_eq!(sorted(index.names().clone()), strings(&["riddles", "wisdom"]));
}

#[test]
fn empty_listing_gives_empty_index() {
    let index = CategoryIndex::from_entries(Vec::new());
    assert!(index.names().is_empty());
    let reply = categories_reply(&index);
    assert_eq!(reply.status, STATUS_OK);
    assert_eq!(reply.body, "{}");
}

#[test]
fn category_name_rule() {
    assert!(is_category_name("wisdom"));
    assert!(is_category_name(""));
    assert!(!is_category_name("wisdom.dat"));
    assert!(!is_category_name("."));
    assert!(!is_category_name("README.md"));
}

#[test]
fn categories_body_keys_equal_listing() {
    let index = CategoryIndex::from_entries(strings(&[
        "wisdom", "riddles", "README.md", "wisdom.dat", "people",
    ]));
    let reply = categories_reply(&index);
    assert_eq!(reply.status, STATUS_OK);
    assert_eq!(json_keys(&reply.body), strings(&["people", "riddles", "wisdom"]));
    assert_eq!(reply.body, "{\"people\":null,\"riddles\":null,\"wisdom\":null}");
}

#[test]
fn categories_body_is_stable_across_calls() {
    let index = CategoryIndex::from_entries(strings(&["zippy", "art", "law"]));
    let first = categories_reply(&index);
    let second = categories_reply(&index);
    assert_eq!(first.body, second.body);
    assert_eq!(first.status, second.status);
}

#[test]
fn categories_body_escapes_names() {
    let index = CategoryIndex::from_entries(strings(&["say \"hi\""]));
    let reply = categories_reply(&index);
    assert_eq!(json_keys(&reply.body), strings(&["say \"hi\""]));
}

#[test]
fn failed_serialisation_falls_back_to_empty_array() {
    let reply = categories_reply_from(None);
    assert_eq!(reply.status, 200);
    assert_eq!(reply.body, "[]");
    let reply = categories_reply_from(Some("{\"a\":null}".to_string()));
    assert_eq!(reply.status, 200);
    assert_eq!(reply.body, "{\"a\":null}");
}

#[test]
fn routes_by_exact_path() {
    assert_eq!(route("/categories"), Route::Categories);
    assert_eq!(route("/"), Route::Fortune);
    assert_eq!(route("/categories/"), Route::Fortune);
    assert_eq!(route("/anything"), Route::Fortune);
}

#[test]
fn query_names_category() {
    assert_eq!(category_from_query(Some("category=riddles")), "riddles");
    assert_eq!(category_from_query(Some("category=  wisdom \t")), "wisdom");
    assert_eq!(category_from_query(Some("riddles")), "riddles");
}

#[test]
fn missing_or_empty_query_names_no_category() {
    assert_eq!(category_from_query(None), "");
    assert_eq!(category_from_query(Some("")), "");
    assert_eq!(category_from_query(Some("category=")), "");
    assert_eq!(category_from_query(Some(" category= ")), "");
}

#[test]
fn token_is_removed_everywhere() {
    assert_eq!(strip_category_token("x=1&category=a"), "x=1&a");
    assert_eq!(strip_category_token("category=category=b"), "b");
    assert_eq!(strip_category_token("categorycategory=="), "category=");
    assert_eq!(strip_category_token("categor"), "categor");
}

#[test]
fn trims_unicode_white_space() {
    assert_eq!(trim_spaces("\u{3000} a b \u{a0}\n"), "a b");
    assert_eq!(trim_spaces("   "), "");
    assert_eq!(trim_spaces("x"), "x");
    assert!(is_space('\u{2028}'));
    assert!(!is_space('\u{200b}'));
    assert!(!is_space('a'));
}

#[test]
fn empty_category_is_passed_through() {
    assert_eq!(fortune_args(""), strings(&["-a", ""]));
    assert_eq!(fortune_args(&category_from_query(None)), strings(&["-a", ""]));
    let run = ProgramRun { succeeded: true, stdout: b"Default fortune.\n".to_vec() };
    assert_eq!(fortune_from_run(Some(run)), Ok("Default fortune.\n".to_string()));
}

#[test]
fn category_is_passed_as_one_argument() {
    assert_eq!(fortune_args("riddles"), strings(&["-a", "riddles"]));
    assert_eq!(fortune_args("-m x"), strings(&["-a", "-m x"]));
}

#[test]
fn good_run_replies_with_stdout_verbatim() {
    let text = "Q: What is black and white?\nA: A newspaper.  \n";
    let run = ProgramRun { succeeded: true, stdout: text.as_bytes().to_vec() };
    let reply = reply_for_run(Some(run));
    assert_eq!(reply.status, STATUS_OK);
    assert_eq!(reply.body, text);
}

#[test]
fn non_ascii_output_is_decoded() {
    let run = ProgramRun { succeeded: true, stdout: "Bonne journée ☀".as_bytes().to_vec() };
    let reply = reply_for_run(Some(run));
    assert_eq!(reply.status, 200);
    assert_eq!(reply.body, "Bonne journée ☀");
}

#[test]
fn failed_exit_replies_not_found() {
    let run = ProgramRun { succeeded: false, stdout: b"No fortunes found\n".to_vec() };
    let reply = reply_for_run(Some(run));
    assert_eq!(reply.status, STATUS_NOT_FOUND);
    assert_eq!(reply.body, "Fail to load fortune");
}

#[test]
fn unstarted_program_replies_not_found() {
    let reply = reply_for_run(None);
    assert_eq!(reply.status, 404);
    assert_eq!(reply.body, "Fail to load fortune");
    assert_eq!(fortune_from_run(None), Err(FortuneError::ExecutionFailed));
}

#[test]
fn invalid_utf8_replies_parse_error() {
    let run = ProgramRun { succeeded: true, stdout: vec![b'o', b'k', 0xff, 0xfe] };
    assert_eq!(fortune_from_run(Some(run)), Err(FortuneError::DecodeFailed));
    let run = ProgramRun { succeeded: true, stdout: vec![0xc3] };
    let reply = reply_for_run(Some(run));
    assert_eq!(reply.status, 404);
    assert_eq!(reply.body, "Fail to parse fortune");
}

#[test]
fn error_messages() {
    assert_eq!(FortuneError::ExecutionFailed.message(), "Fail to load fortune");
    assert_eq!(FortuneError::DecodeFailed.message(), "Fail to parse fortune");
    let reply = fortune_reply(Err(FortuneError::DecodeFailed));
    assert_eq!(reply.status, 404);
    let reply = fortune_reply(Ok("x".to_string()));
    assert_eq!((reply.status, reply.body.as_str()), (200, "x"));
}

#[test]
fn ports_in_decimal() {
    assert_eq!(parse_port("8080"), Some(8080));
    assert_eq!(parse_port("+80"), Some(80));
    assert_eq!(parse_port("0"), Some(0));
    assert_eq!(parse_port("00065535"), Some(65535));
    assert_eq!(DEFAULT_PORT, 8080);
}

#[test]
fn bad_ports_are_refused() {
    assert_eq!(parse_port(""), None);
    assert_eq!(parse_port("+"), None);
    assert_eq!(parse_port("-1"), None);
    assert_eq!(parse_port("65536"), None);
    assert_eq!(parse_port("99999999999"), None);
    assert_eq!(parse_port("80a"), None);
    assert_eq!(parse_port(" 80"), None);
    assert_eq!(parse_port("++80"), None);
}

#[test]
fn ports_agree_with_std() {
    for s in ["1", "443", "+65535", "65536", "", "+", "-0", "7x", "000"] {
        assert_eq!(parse_port(s), s.parse::<u16>().ok(), "input {:?}", s);
    }
}

#[test]
fn riddles_request_gets_program_output() {
    assert_eq!(route("/"), Route::Fortune);
    let category = category_from_query(Some("category=riddles"));
    assert_eq!(fortune_args(&category), strings(&["-a", "riddles"]));
    let stdout = b"What has keys but opens no locks?\n\tA piano.\n".to_vec();
    let reply = reply_for_run(Some(ProgramRun { succeeded: true, stdout: stdout.clone() }));
    assert_eq!(reply.status, 200);
    assert_eq!(reply.body.as_bytes(), stdout.as_slice());
}

#[test]
fn unknown_category_request_is_not_found() {
    let category = category_from_query(Some("category=doesnotexist"));
    assert_eq!(fortune_args(&category), strings(&["-a", "doesnotexist"]));
    let run = ProgramRun { succeeded: false, stdout: Vec::new() };
    let reply = reply_for_run(Some(run));
    assert_eq!(reply.status, 404);
    assert_eq!(reply.body, "Fail to load fortune");
    assert!(!reply.body.is_empty());
}

#[test]
fn repeated_entries_are_held_once() {
    let index = CategoryIndex::from_entries(strings(&["art", "art", "law.dat", "law", "art"]));
    assert_eq!(sorted(index.names().clone()), strings(&["art", "law"]));
    let reply = categories_reply(&index);
    assert_eq!(reply.body, "{\"art\":null,\"law\":null}");
}

#[test]
fn same_names_in_another_order_give_same_reply() {
    let a = CategoryIndex::from_entries(strings(&["wisdom", "riddles", "art"]));
    let b = CategoryIndex::from_entries(strings(&["art", "wisdom", "riddles", "wisdom"]));
    assert_eq!(categories_reply(&a).body, categories_reply(&b).body);
}

#[test]
fn ports_read_back_from_decimal() {
    for p in [0u16, 7, 80, 443, 8080, 10000, 65535] {
        assert_eq!(parse_port(&p.to_string()), Some(p));
    }
}
