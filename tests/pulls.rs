use pullrequests::filters::{Sort, SortDirection, State};
use pullrequests::json::fits_parser_limits;
use pullrequests::pullrequests::{Method, PullRequest, PullRequests};
use pullrequests::rep::{Error, PullEdit, PullReq};

fn collection() -> PullRequests {
    PullRequests::new("acme", "widgets")
}

#[test]
fn sort_tokens() {
    assert_eq!(Sort::Created.to_string(), "created");
    assert_eq!(Sort::Updated.to_string(), "updated");
    assert_eq!(Sort::Popularity.to_string(), "popularity");
    assert_eq!(Sort::LongRunning.to_string(), "long-running");
}

#[test]
fn state_and_direction_tokens() {
    assert_eq!(State::Open.to_string(), "open");
    assert_eq!(State::Closed.to_string(), "closed");
    assert_eq!(State::All.to_string(), "all");
    assert_eq!(SortDirection::Asc.to_string(), "asc");
    assert_eq!(SortDirection::Desc.to_string(), "desc");
}

#[test]
fn defaults() {
    assert_eq!(Sort::default(), Sort::Created);
    assert_eq!(State::default(), State::Open);
    assert_eq!(SortDirection::default(), SortDirection::Asc);
}

#[test]
fn list_defaults_send_all_three_parameters() {
    let c = collection();
    let call = c.list().get();
    assert_eq!(call.request.method, Method::Get);
    assert_eq!(
        call.request.path,
        "/repos/acme/widgets/pulls?state=open&sort=created&direction=asc"
    );
    assert!(call.request.body.is_none());
}

#[test]
fn filter_order_does_not_matter() {
    let c = collection();
    let mut one = c.list();
    one.state(State::All).sort(Sort::Popularity).direction(SortDirection::Desc);
    let mut two = c.list();
    two.direction(SortDirection::Desc).sort(Sort::Popularity).state(State::All);
    assert_eq!(one.get().request.path, two.get().request.path);
    assert_eq!(
        one.get().request.path,
        "/repos/acme/widgets/pulls?state=all&sort=popularity&direction=desc"
    );
}

#[test]
fn later_filter_calls_overwrite_earlier_ones() {
    let c = collection();
    let mut b = c.list();
    b.sort(Sort::Updated).sort(Sort::LongRunning);
    assert_eq!(
        b.get().request.path,
        "/repos/acme/widgets/pulls?state=open&sort=long-running&direction=asc"
    );
}

#[test]
fn open_is_an_edit_of_the_state_alone() {
    let pr = collection().get(7);
    let open = pr.open();
    let edit = pr.edit(&PullEdit::new(None, None, Some("open".to_string())));
    assert_eq!(open.request.method, Method::Patch);
    assert_eq!(open.request.method, edit.request.method);
    assert_eq!(open.request.path, edit.request.path);
    assert_eq!(open.request.body, edit.request.body);
    assert_eq!(open.request.body.as_deref(), Some("{\"state\":\"open\"}"));
}

#[test]
fn close_is_an_edit_of_the_state_alone() {
    let pr = collection().get(7);
    let close = pr.close();
    let edit = pr.edit(&PullEdit::new(None, None, Some("closed".to_string())));
    assert_eq!(close.request.method, edit.request.method);
    assert_eq!(close.request.path, edit.request.path);
    assert_eq!(close.request.body, edit.request.body);
    assert_eq!(close.request.body.as_deref(), Some("{\"state\":\"closed\"}"));
}

#[test]
fn edit_sends_only_present_fields_in_order() {
    let pr = collection().get(7);
    let call = pr.edit(&PullEdit::new(
        Some("New title".to_string()),
        Some("Line one\nsays \"hi\"".to_string()),
        None,
    ));
    assert_eq!(
        call.request.body.as_deref(),
        Some("{\"title\":\"New title\",\"body\":\"Line one\\nsays \\\"hi\\\"\"}")
    );
    let empty = pr.edit(&PullEdit::new(None, None, None));
    assert_eq!(empty.request.body.as_deref(), Some("{}"));
}

#[test]
fn get_targets_the_numbered_pull_request() {
    let pr = collection().get(42);
    assert_eq!(pr.owner, "acme");
    assert_eq!(pr.repo, "widgets");
    assert_eq!(pr.number, 42);
    let call = pr.get();
    assert_eq!(call.request.method, Method::Get);
    assert_eq!(call.request.path, "/repos/acme/widgets/pulls/42");
    assert!(call.request.body.is_none());
    assert_eq!(pr.edit(&PullEdit::new(None, None, None)).request.path, "/repos/acme/widgets/pulls/42");
}

#[test]
fn numbers_are_written_in_decimal() {
    assert_eq!(PullRequest::new("a", "b", 0).path(""), "/repos/a/b/pulls/0");
    assert_eq!(PullRequest::new("a", "b", 1090).path("/files"), "/repos/a/b/pulls/1090/files");
    assert_eq!(PullRequest::new("a", "b", -7).path(""), "/repos/a/b/pulls/-7");
    assert_eq!(
        PullRequest::new("a", "b", i64::MAX).path(""),
        "/repos/a/b/pulls/9223372036854775807"
    );
    assert_eq!(
        PullRequest::new("a", "b", i64::MIN).path(""),
        "/repos/a/b/pulls/-9223372036854775808"
    );
}

#[test]
fn create_targets_the_collection() {
    let c = collection();
    let call = c.create(&PullReq::new("Add widgets", "feature", "master", "Adds \"widgets\"."));
    assert_eq!(call.request.method, Method::Post);
    assert_eq!(call.request.path, "/repos/acme/widgets/pulls");
    assert_eq!(
        call.request.body.as_deref(),
        Some(
            "{\"title\":\"Add widgets\",\"head\":\"feature\",\"base\":\"master\",\"body\":\"Adds \\\"widgets\\\".\"}"
        )
    );
    assert_eq!(c.path("?x"), "/repos/acme/widgets/pulls?x");
}

#[test]
fn list_scenario_keeps_server_order() {
    let c = collection();
    let mut b = c.list();
    b.state(State::Open).sort(Sort::Updated).direction(SortDirection::Desc);
    let call = b.get();
    assert_eq!(call.request.method, Method::Get);
    assert_eq!(
        call.request.path,
        "/repos/acme/widgets/pulls?state=open&sort=updated&direction=desc"
    );
    let answer: Result<String, String> =
        Ok("[{\"number\": 9, \"title\": \"b\"}, {\"number\": 3}, {\"number\": 5}]".to_string());
    let pulls = call.finish(answer).ok().expect("an array of objects decodes");
    let texts: Vec<&str> = pulls.iter().map(|p| p.json.as_str()).collect();
    assert_eq!(
        texts,
        vec!["{\"number\":9,\"title\":\"b\"}", "{\"number\":3}", "{\"number\":5}"]
    );
}

#[test]
fn empty_list_decodes_to_no_pulls() {
    let c = collection();
    let pulls = c.list().get().finish::<String>(Ok("[]".to_string())).ok().expect("decodes");
    assert!(pulls.is_empty());
}

#[test]
fn single_pull_is_decoded() {
    let pr = collection().get(42);
    let body = "{\"number\": 42, \"state\": \"open\"}".to_string();
    let pull = pr.get().finish::<String>(Ok(body.clone())).ok().expect("an object decodes");
    assert_eq!(pull.json, body);
}

#[test]
fn transport_failure_comes_back_unchanged() {
    let c = collection();
    let pr = c.get(1);
    let fail = || Err::<String, String>("connection reset".to_string());
    for r in [
        pr.get().finish(fail()),
        pr.edit(&PullEdit::new(Some("t".to_string()), None, None)).finish(fail()),
        pr.open().finish(fail()),
        pr.close().finish(fail()),
        c.create(&PullReq::new("t", "h", "b", "d")).finish(fail()),
    ] {
        assert!(matches!(r, Err(Error::Transport(ref e)) if e == "connection reset"));
    }
    let listed = c.list().get().finish(fail());
    assert!(matches!(listed, Err(Error::Transport(ref e)) if e == "connection reset"));
}

#[test]
fn malformed_answers_are_decode_errors() {
    let pr = collection().get(1);
    assert!(matches!(pr.get().finish::<String>(Ok("not json".to_string())), Err(Error::Decode)));
    assert!(matches!(pr.get().finish::<String>(Ok("[{}]".to_string())), Err(Error::Decode)));
    assert!(matches!(pr.get().finish::<String>(Ok("42".to_string())), Err(Error::Decode)));
    let c = collection();
    assert!(matches!(c.list().get().finish::<String>(Ok("{}".to_string())), Err(Error::Decode)));
    assert!(matches!(
        c.list().get().finish::<String>(Ok("[{}, 1]".to_string())),
        Err(Error::Decode)
    ));
    assert!(matches!(c.list().get().finish::<String>(Ok("[".to_string())), Err(Error::Decode)));
}

#[test]
fn control_characters_are_escaped_in_hex() {
    let pr = collection().get(7);
    let call = pr.edit(&PullEdit::new(Some("a\u{1}b\u{7f}/\u{b}\u{8}\u{c}\r\t\\".to_string()), None, None));
    assert_eq!(
        call.request.body.as_deref(),
        Some("{\"title\":\"a\\u0001b\\u007f/\\u000b\\b\\f\\r\\t\\\\\"}")
    );
}

#[test]
fn parser_limits() {
    assert!(fits_parser_limits("{\"number\": [1, {\"a\": \"}]]]\"}]}"));
    assert!(fits_parser_limits(&"[".repeat(128)));
    assert!(!fits_parser_limits(&"[".repeat(129)));
    assert!(!fits_parser_limits("]"));
    let key = "k".repeat(511);
    assert!(fits_parser_limits(&format!("{{\"{}\": 1}}", key)));
    let key = "k".repeat(512);
    assert!(!fits_parser_limits(&format!("{{\"{}\": 1}}", key)));
    let value = "v".repeat(70000);
    assert!(fits_parser_limits(&format!("{{\"body\": \"{}\"}}", value)));
}

#[test]
fn deeply_nested_answers_are_decode_errors() {
    let c = collection();
    let deep = "[".repeat(300000);
    assert!(matches!(c.list().get().finish::<String>(Ok(deep)), Err(Error::Decode)));
    let nested = format!("{}{}", "{\"a\":".repeat(200), "}".repeat(200));
    assert!(matches!(c.get(1).get().finish::<String>(Ok(nested)), Err(Error::Decode)));
}

#[test]
fn long_keys_are_decode_errors_and_long_values_are_not() {
    let pr = collection().get(1);
    let long_key = format!("{{\"\u{e9}{}\": 1}}", "a".repeat(65535));
    assert!(matches!(pr.get().finish::<String>(Ok(long_key)), Err(Error::Decode)));
    let long_value = format!("{{\"body\": \"{}\"}}", "a".repeat(70000));
    let pull = pr.get().finish::<String>(Ok(long_value.clone())).ok().expect("decodes");
    assert_eq!(pull.json, long_value);
    let listed = format!("[{{\"body\": \"{}\"}}]", "a".repeat(70000));
    let pulls = collection().list().get().finish::<String>(Ok(listed)).ok().expect("decodes");
    assert_eq!(pulls.len(), 1);
}

#[test]
fn object_closed_after_a_comma_is_a_decode_error() {
    let c = collection();
    assert!(!fits_parser_limits("[{\"a\":{\"b\":1,},\"c\":2}]"));
    assert!(matches!(
        c.list().get().finish::<String>(Ok("[{\"a\":{\"b\":1,},\"c\":2}]".to_string())),
        Err(Error::Decode)
    ));
    assert!(matches!(
        c.get(1).get().finish::<String>(Ok("{\"a\":{\"b\":1,},\"c\":2}".to_string())),
        Err(Error::Decode)
    ));
    assert!(fits_parser_limits("{\"a\": \",}\", \"b\": [1, 2]}"));
}

#[test]
fn long_exponent_is_a_decode_error() {
    let c = collection();
    assert!(!fits_parser_limits("1e99999999999999999999"));
    assert!(matches!(
        c.get(1).get().finish::<String>(Ok("{\"n\":1e99999999999999999999}".to_string())),
        Err(Error::Decode)
    ));
    assert!(matches!(
        c.list().get().finish::<String>(Ok("[{\"n\":2E-00000000001}]".to_string())),
        Err(Error::Decode)
    ));
    assert!(fits_parser_limits("{\"n\": 1e+999999999, \"t\": true, \"f\": false}"));
    let pull = c.get(1).get().finish::<String>(Ok("{\"n\": 1.5e3, \"ok\": true}".to_string()));
    assert!(pull.is_ok());
}
