use web_content_extract::client::{client_output, client_plan, ClientOutput, ClientPlan};
use web_content_extract::content::SummaryOutcome;
use web_content_extract::lifecycle::BrowserLifecycle;
use web_content_extract::extract::{ExtractAction, ExtractRequest, ExtractResponse, Extraction, FetchSource};

fn request(output_md: bool, use_openai: bool, take_screenshot: bool) -> ExtractRequest {
    ExtractRequest {
        url: "https://example.com".to_string(),
        output_md,
        use_openai,
        model: "gpt-3.5-turbo".to_string(),
        prompt: String::new(),
        take_screenshot,
    }
}

fn respond(a: ExtractAction) -> (ExtractResponse, FetchSource) {
    match a {
        ExtractAction::Respond { response, source } => (response, source),
        _ => panic!("expected a response"),
    }
}

#[test]
fn cache_hit_answers_html_only() {
    let (mut x, a) = Extraction::start(request(true, false, true), true, &mut BrowserLifecycle::new());
    assert!(matches!(a, ExtractAction::LookupCache { ref url } if url == "https://example.com"));
    let (r, source) = respond(x.on_cache_lookup(Some("<h1>cached</h1>".to_string())));
    assert!(matches!(source, FetchSource::Cache));
    assert_eq!(r.html, "<h1>cached</h1>");
    assert_eq!(r.markdown, "");
    assert!(r.screenshot.is_empty());
    assert_eq!(r.openai_response, "");
    assert_eq!(r.error, "");
}

#[test]
fn cache_miss_fetches_then_stores() {
    let (mut x, _) = Extraction::start(request(false, false, false), true, &mut BrowserLifecycle::new());
    assert!(matches!(x.on_cache_lookup(None), ExtractAction::Fetch { take_screenshot: false, .. }));
    match x.on_direct_first(Ok("<p>hi</p><script>s</script>".to_string())) {
        ExtractAction::StoreCache { url, html } => {
            assert_eq!(url, "https://example.com");
            assert_eq!(html, "<p>hi</p><script>s</script>");
        },
        _ => panic!("expected the page to be stored"),
    }
    let (r, source) = respond(x.on_cache_stored());
    assert!(matches!(source, FetchSource::Direct));
    assert_eq!(r.html, "<p>hi</p><script>s</script>");
    assert_eq!(r.error, "");
}

#[test]
fn without_cache_nothing_is_stored() {
    let (mut x, a) = Extraction::start(request(true, false, false), false, &mut BrowserLifecycle::new());
    assert!(matches!(a, ExtractAction::Fetch { .. }));
    let (r, _) = respond(x.on_direct_first(Ok("<h1>Hello</h1>".to_string())));
    assert_eq!(r.html, "<h1>Hello</h1>");
    assert_eq!(r.markdown, "# Hello");
}

#[test]
fn failed_direct_waits_for_browser() {
    let (mut x, _) = Extraction::start(request(false, false, true), false, &mut BrowserLifecycle::new());
    assert!(matches!(x.on_direct_first(Err("blocked".to_string())), ExtractAction::AwaitPlaywright));
    let (r, source) = respond(x.on_playwright(Ok(("<p>b</p>".to_string(), vec![1, 2, 3]))));
    assert!(matches!(source, FetchSource::Playwright));
    assert_eq!(r.html, "<p>b</p>");
    assert_eq!(r.screenshot, vec![1, 2, 3]);
}

#[test]
fn failed_fetches_answer_the_error_only() {
    let (mut x, _) = Extraction::start(request(true, true, true), true, &mut BrowserLifecycle::new());
    x.on_cache_lookup(None);
    x.on_direct_first(Err("x".to_string()));
    let (r, source) = respond(x.on_playwright(Err("Playwright goto error: boom".to_string())));
    assert!(matches!(source, FetchSource::Direct));
    assert_eq!(r.html, "");
    assert_eq!(r.markdown, "");
    assert!(r.screenshot.is_empty());
    assert_eq!(r.openai_response, "");
    assert_eq!(r.error, "Playwright goto error: boom");
}

#[test]
fn summary_uses_cleaned_page() {
    let (mut x, _) = Extraction::start(request(true, true, false), false, &mut BrowserLifecycle::new());
    match x.on_playwright(Ok(("<p>a</p><style>x</style>".to_string(), vec![]))) {
        ExtractAction::Summarize { model, content } => {
            assert_eq!(model, "gpt-3.5-turbo");
            assert_eq!(content, "Summarize the following HTML content:\n\nHTML:\n<p>a</p>");
        },
        _ => panic!("expected a summary request"),
    }
    let (r, source) = respond(x.on_summary(SummaryOutcome::Answer("A page.".to_string())));
    assert!(matches!(source, FetchSource::Playwright));
    assert_eq!(r.openai_response, "A page.");
    assert_eq!(r.markdown, "");
    assert_eq!(r.html, "<p>a</p><style>x</style>");
}

#[test]
fn summary_failure_fails_the_request() {
    let (mut x, _) = Extraction::start(request(false, true, false), false, &mut BrowserLifecycle::new());
    x.on_direct_first(Ok("<p>a</p>".to_string()));
    match x.on_summary(SummaryOutcome::MissingKey) {
        ExtractAction::Fail(m) => assert_eq!(m, "OPENAI_API_KEY must be set"),
        _ => panic!("expected a failure"),
    }
}

#[test]
fn client_plan_needs_url_unless_logs() {
    assert!(matches!(client_plan(true, None), ClientPlan::StreamLogs));
    assert!(matches!(client_plan(false, None), ClientPlan::MissingUrl));
    assert!(matches!(client_plan(false, Some("u".to_string())), ClientPlan::Extract(ref u) if u == "u"));
}

#[test]
fn client_output_priority() {
    let mut r = ExtractResponse {
        html: "h".to_string(),
        markdown: "m".to_string(),
        screenshot: vec![1],
        openai_response: "o".to_string(),
        error: String::new(),
    };
    assert!(matches!(client_output(&r, true, true, true), ClientOutput::SaveScreenshot));
    assert!(matches!(client_output(&r, false, true, true), ClientOutput::PrintSummary));
    assert!(matches!(client_output(&r, false, false, true), ClientOutput::PrintMarkdown));
    assert!(matches!(client_output(&r, false, false, false), ClientOutput::PrintHtml));
    r.markdown = String::new();
    assert!(matches!(client_output(&r, false, false, true), ClientOutput::PrintHtml));
    r.error = "e".to_string();
    assert!(matches!(client_output(&r, true, true, true), ClientOutput::Failed));
}

#[test]
fn tenth_request_relaunches_first() {
    let mut life = BrowserLifecycle::new();
    for _ in 0..9 {
        let (_, a) = Extraction::start(request(false, false, false), true, &mut life);
        assert!(matches!(a, ExtractAction::LookupCache { .. }));
    }
    let (mut x, a) = Extraction::start(request(false, false, false), true, &mut life);
    assert!(matches!(a, ExtractAction::RelaunchBrowser));
    assert_eq!(life.request_count(), 0);
    assert!(matches!(x.on_relaunched(), ExtractAction::LookupCache { ref url } if url == "https://example.com"));
    let (_, a) = Extraction::start(request(false, false, true), false, &mut life);
    assert!(matches!(a, ExtractAction::Fetch { take_screenshot: true, .. }));
}
