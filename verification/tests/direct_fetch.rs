use web_content_extract::direct::{fetch_direct, is_blocked_page, DirectOutcome};

fn received(status: u16, body: &str) -> DirectOutcome {
    DirectOutcome::Received { status, body: body.to_string() }
}

#[test]
fn good_page_is_accepted_unchanged() {
    assert_eq!(fetch_direct(received(200, "<html>Hello</html>")), Ok("<html>Hello</html>".to_string()));
    assert_eq!(fetch_direct(received(299, "ok")), Ok("ok".to_string()));
}

#[test]
fn failed_status_is_reported_with_reason() {
    assert_eq!(fetch_direct(received(404, "x")), Err("Direct fetch HTTP error: 404 Not Found".to_string()));
    assert_eq!(fetch_direct(received(503, "")), Err("Direct fetch HTTP error: 503 Service Unavailable".to_string()));
    assert_eq!(fetch_direct(received(301, "moved")), Err("Direct fetch HTTP error: 301 Moved Permanently".to_string()));
    assert_eq!(fetch_direct(received(199, "x")), Err("Direct fetch HTTP error: 199 <unknown status code>".to_string()));
    assert_eq!(fetch_direct(received(300, "x")), Err("Direct fetch HTTP error: 300 Multiple Choices".to_string()));
}

#[test]
fn block_pages_are_refused() {
    let refused = Err("Blocked or invalid content detected".to_string());
    assert_eq!(fetch_direct(received(200, "Access Denied")), refused);
    assert_eq!(fetch_direct(received(200, "Please solve the CAPTCHA")), refused);
    assert_eq!(fetch_direct(received(200, "You are BLOCKED")), refused);
    assert_eq!(fetch_direct(received(200, "Checking your browser - Cloudflare")), refused);
    assert_eq!(fetch_direct(received(200, "   \n\t ")), refused);
    assert_eq!(fetch_direct(received(200, "")), refused);
}

#[test]
fn send_and_body_errors_name_their_stage() {
    assert_eq!(
        fetch_direct(DirectOutcome::SendFailed("dns error".to_string())),
        Err("Direct fetch error: dns error".to_string())
    );
    assert_eq!(
        fetch_direct(DirectOutcome::BodyFailed("eof".to_string())),
        Err("Direct fetch body error: eof".to_string())
    );
}

#[test]
fn blocked_check_works_on_lowercase_text() {
    assert!(is_blocked_page("access denied"));
    assert!(!is_blocked_page("Access Denied"));
    assert!(!is_blocked_page("welcome"));
    assert!(is_blocked_page(" "));
}
