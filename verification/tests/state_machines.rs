use web_content_extract::lifecycle::BrowserLifecycle;
use web_content_extract::page::{PageAction, PageLoad};
use web_content_extract::pool::ContextPool;
use web_content_extract::retry::{is_timeout, PlaywrightRetry, RetryStep};

#[test]
fn browser_relaunches_every_ten_requests() {
    let mut life = BrowserLifecycle::new();
    let mut relaunches = Vec::new();
    for i in 1..=25 {
        if life.on_request() {
            relaunches.push(i);
        }
    }
    assert_eq!(relaunches, vec![10, 20]);
    assert_eq!(life.request_count(), 5);
    life.on_relaunch();
    assert_eq!(life.request_count(), 0);
    for _ in 0..9 {
        assert!(!life.on_request());
    }
    assert!(life.on_request());
}

#[test]
fn pool_lends_last_returned_first() {
    let mut pool = ContextPool::new(vec![1, 2, 3]);
    assert_eq!(pool.len(), 3);
    assert_eq!(pool.try_acquire(), Some(3));
    pool.release(7);
    assert_eq!(pool.try_acquire(), Some(7));
    assert_eq!(pool.try_acquire(), Some(2));
    assert_eq!(pool.try_acquire(), Some(1));
    assert_eq!(pool.try_acquire(), None);
    assert_eq!(pool.len(), 0);
}

#[test]
fn timeout_is_found_in_any_case() {
    assert!(is_timeout("Timeout 30000ms exceeded"));
    assert!(is_timeout("navigation TIMEOUT"));
    assert!(!is_timeout("net::ERR_NAME_NOT_RESOLVED"));
    assert!(!is_timeout("time out"));
}

#[test]
fn retries_three_timeouts_then_fails() {
    let mut r = PlaywrightRetry::new();
    assert!(matches!(r.on_attempt(Err("Timeout a".to_string())), RetryStep::RelaunchAndRetry));
    assert!(matches!(r.on_attempt(Err("timeout b".to_string())), RetryStep::RelaunchAndRetry));
    match r.on_attempt(Err("TIMEOUT c".to_string())) {
        RetryStep::RelaunchAndFail(e) => assert_eq!(e, "TIMEOUT c"),
        _ => panic!("expected the third timeout to fail"),
    }
    assert_eq!(r.attempts_made(), 3);
}

#[test]
fn other_errors_and_success_end_retries() {
    let mut r = PlaywrightRetry::new();
    assert!(matches!(r.on_attempt(Err("timeout".to_string())), RetryStep::RelaunchAndRetry));
    match r.on_attempt(Err("Playwright goto error: boom".to_string())) {
        RetryStep::Return(Err(e)) => assert_eq!(e, "Playwright goto error: boom"),
        _ => panic!("expected the error to be returned"),
    }
    let mut r = PlaywrightRetry::new();
    match r.on_attempt(Ok(("<p>x</p>".to_string(), vec![1, 2]))) {
        RetryStep::Return(Ok((html, shot))) => {
            assert_eq!(html, "<p>x</p>");
            assert_eq!(shot, vec![1, 2]);
        },
        _ => panic!("expected the page"),
    }
}

#[test]
fn page_load_with_screenshot() {
    let mut p = PageLoad::new(true);
    assert!(matches!(p.on_opened(Ok(())), PageAction::Navigate));
    assert!(matches!(p.on_navigated(Ok(())), PageAction::ReadContent));
    assert!(matches!(p.on_content(Ok("<p>x</p>".to_string())), PageAction::Capture));
    match p.on_captured(Some(vec![9, 8])) {
        PageAction::Finish { result: Ok((html, shot)), give_back_context } => {
            assert_eq!(html, "<p>x</p>");
            assert_eq!(shot, vec![9, 8]);
            assert!(give_back_context);
        },
        _ => panic!("expected the page"),
    }
}

#[test]
fn page_load_failed_screenshot_is_empty() {
    let mut p = PageLoad::new(true);
    p.on_opened(Ok(()));
    p.on_navigated(Ok(()));
    p.on_content(Ok("h".to_string()));
    match p.on_captured(None) {
        PageAction::Finish { result: Ok((html, shot)), give_back_context: true } => {
            assert_eq!(html, "h");
            assert!(shot.is_empty());
        },
        _ => panic!("expected the page"),
    }
}

#[test]
fn page_load_without_screenshot() {
    let mut p = PageLoad::new(false);
    p.on_opened(Ok(()));
    p.on_navigated(Ok(()));
    match p.on_content(Ok("h".to_string())) {
        PageAction::Finish { result: Ok((html, shot)), give_back_context: true } => {
            assert_eq!(html, "h");
            assert!(shot.is_empty());
        },
        _ => panic!("expected the page"),
    }
}

#[test]
fn page_load_errors_keep_the_context() {
    let mut p = PageLoad::new(false);
    match p.on_opened(Err("closed".to_string())) {
        PageAction::Finish { result: Err(e), give_back_context: false } => assert_eq!(e, "Playwright new_page error: closed"),
        _ => panic!(),
    }
    let mut p = PageLoad::new(false);
    p.on_opened(Ok(()));
    match p.on_navigated(Err("Timeout 30000ms".to_string())) {
        PageAction::Finish { result: Err(e), give_back_context: false } => assert_eq!(e, "Playwright goto error: Timeout 30000ms"),
        _ => panic!(),
    }
    let mut p = PageLoad::new(true);
    p.on_opened(Ok(()));
    p.on_navigated(Ok(()));
    match p.on_content(Err("detached".to_string())) {
        PageAction::Finish { result: Err(e), give_back_context: false } => assert_eq!(e, "Playwright content error: detached"),
        _ => panic!(),
    }
}
