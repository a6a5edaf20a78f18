use crate_version::{declaration, failure_message, request_url};
use crate_version::{ApiError, ApiResponse, Crate, FetchError, Opt, Step};

fn opt(verbose: bool, clipboard: bool, name: &str) -> Opt {
    Opt { verbose, clipboard, crate_name: name.to_string() }
}

fn found(version: &str) -> ApiResponse {
    ApiResponse { crate_: Some(Crate { max_version: version.to_string() }), errors: vec![] }
}

fn errors(details: &[&str]) -> ApiResponse {
    ApiResponse {
        crate_: None,
        errors: details.iter().map(|d| ApiError { detail: d.to_string() }).collect(),
    }
}

fn exit(step: Step) -> (i32, String, String) {
    match step {
        Step::Exit { code, stdout, stderr } => (code, stdout, stderr),
        Step::Fetch(u) => panic!("expected an exit, got a fetch of {}", u),
        Step::Copy(t) => panic!("expected an exit, got a copy of {}", t),
    }
}

#[test]
fn start_fetches_crate_endpoint() {
    match opt(false, false, "serde").start() {
        Step::Fetch(u) => assert_eq!(u, "https://crates.io/api/v1/crates/serde"),
        _ => panic!("expected a fetch"),
    }
}

#[test]
fn url_keeps_name_verbatim() {
    assert_eq!(request_url("a b/c?d"), "https://crates.io/api/v1/crates/a b/c?d");
}

#[test]
fn declaration_quotes_version() {
    assert_eq!(declaration("rand", "0.8.5"), "rand = \"0.8.5\"");
}

#[test]
fn found_crate_prints_declaration() {
    let (code, out, err) = exit(opt(false, false, "serde").on_fetched(Ok(found("1.2.3"))));
    assert_eq!(code, 0);
    assert_eq!(out, "serde = \"1.2.3\"\n");
    assert_eq!(err, "");
}

#[test]
fn found_crate_verbose_prints_same() {
    let (code, out, err) = exit(opt(true, false, "tokio").on_fetched(Ok(found("1.0.0"))));
    assert_eq!(code, 0);
    assert_eq!(out, "tokio = \"1.0.0\"\n");
    assert_eq!(err, "");
}

#[test]
fn single_error_reports_detail() {
    let (code, out, err) = exit(opt(false, false, "nope").on_fetched(Ok(errors(&["Not Found"]))));
    assert_eq!(code, 1);
    assert_eq!(out, "");
    assert_eq!(err, "Something went wrong!\nError: Not Found\n\n");
    assert!(err.lines().any(|l| l == "Error: Not Found"));
}

#[test]
fn many_errors_listed_in_order() {
    let (code, out, err) = exit(opt(false, false, "x").on_fetched(Ok(errors(&["a", "b", "c"]))));
    assert_eq!(code, 1);
    assert_eq!(out, "");
    assert_eq!(err, "Something went wrong!\nErrors:\n  a\n  b\n  c\n\n");
}

#[test]
fn two_errors_listed() {
    let (code, _, err) = exit(opt(true, false, "x").on_fetched(Ok(errors(&["first", "second"]))));
    assert_eq!(code, 1);
    assert_eq!(err, "Something went wrong!\nErrors:\n  first\n  second\n\n");
}

#[test]
fn no_errors_and_no_data() {
    let (code, out, err) = exit(opt(false, false, "x").on_fetched(Ok(errors(&[]))));
    assert_eq!(code, 1);
    assert_eq!(out, "");
    assert_eq!(
        err,
        "Something went wrong!\ncrates.io API request gave no errors and no data...\n\n"
    );
}

#[test]
fn errors_win_over_crate() {
    let mut resp = found("1.0.0");
    resp.errors.push(ApiError { detail: "odd".to_string() });
    let (code, out, err) = exit(opt(false, true, "x").on_fetched(Ok(resp)));
    assert_eq!(code, 1);
    assert_eq!(out, "");
    assert_eq!(err, "Something went wrong!\nError: odd\n\n");
}

#[test]
fn repeated_runs_are_identical() {
    let o = opt(true, false, "serde");
    let a = exit(o.on_fetched(Ok(errors(&["a", "b"]))));
    let b = exit(o.on_fetched(Ok(errors(&["a", "b"]))));
    assert_eq!(a, b);
    let c = exit(o.on_fetched(Ok(found("2.0.0"))));
    let d = exit(o.on_fetched(Ok(found("2.0.0"))));
    assert_eq!(c, d);
}

#[test]
fn copy_asks_for_one_clipboard_write() {
    let o = opt(false, true, "serde");
    let line = match o.on_fetched(Ok(found("1.2.3"))) {
        Step::Copy(t) => t,
        _ => panic!("expected a clipboard write"),
    };
    assert_eq!(line, "serde = \"1.2.3\"");
    let (code, out, err) = exit(o.on_copied(line, Ok(())));
    assert_eq!(code, 0);
    assert_eq!(out, "serde = \"1.2.3\"\n");
    assert_eq!(err, "");
}

#[test]
fn clipboard_failure_fails_run() {
    let o = opt(false, true, "serde");
    let (code, out, err) = exit(o.on_copied("serde = \"1.2.3\"".to_string(), Err("no display".to_string())));
    assert_eq!(code, 1);
    assert_eq!(out, "");
    assert_eq!(err, "Error copying result to clipboard\n");
}

#[test]
fn clipboard_failure_verbose_detail() {
    let o = opt(true, true, "serde");
    let (code, _, err) = exit(o.on_copied("serde = \"1.2.3\"".to_string(), Err("no display".to_string())));
    assert_eq!(code, 1);
    assert_eq!(err, "Error copying result to clipboard\n\nno display\n");
}

#[test]
fn transport_error_plain() {
    let e = FetchError::Transport("dns failure".to_string());
    let (code, out, err) = exit(opt(false, false, "serde").on_fetched(Err(e)));
    assert_eq!(code, 1);
    assert_eq!(out, "");
    assert_eq!(err, "crates.io API request failed\n");
}

#[test]
fn transport_error_verbose() {
    let e = FetchError::Transport("dns failure".to_string());
    let (code, _, err) = exit(opt(true, false, "serde").on_fetched(Err(e)));
    assert_eq!(code, 1);
    assert_eq!(err, "crates.io API request failed\n\ndns failure\n");
}

#[test]
fn decode_error_plain_and_verbose() {
    let e = FetchError::Decode("expected value".to_string());
    let (code, _, err) = exit(opt(false, false, "serde").on_fetched(Err(e)));
    assert_eq!(code, 1);
    assert_eq!(err, "Failed parsing crates.io API response\n");
    let e = FetchError::Decode("expected value".to_string());
    let (code, _, err) = exit(opt(true, false, "serde").on_fetched(Err(e)));
    assert_eq!(code, 1);
    assert_eq!(err, "Failed parsing crates.io API response\n\nexpected value\n");
}

#[test]
fn exit_message_without_detail_ignores_verbose() {
    assert_eq!(opt(true, false, "x").exit_with_msg("boom", None), "boom\n");
    assert_eq!(opt(false, false, "x").exit_with_msg("boom", Some("why".to_string())), "boom\n");
}

#[test]
fn failure_message_by_error_count() {
    assert_eq!(
        failure_message(&vec![]),
        "Something went wrong!\ncrates.io API request gave no errors and no data...\n"
    );
    assert_eq!(
        failure_message(&vec![ApiError { detail: "Not Found".to_string() }]),
        "Something went wrong!\nError: Not Found\n"
    );
}
