use web_content_extract::content::{
    clean_html, element_pattern_for, markdown_for, summary_reply, summary_request, SummaryOutcome,
};

#[test]
fn element_pattern_text() {
    assert_eq!(element_pattern_for("script"), "(?is)<script[^>]*>.*?</script>");
}

#[test]
fn cleaning_removes_noise_elements() {
    let html = "<p>a</p><script type=\"x\">var s;\n</script><STYLE>p{}</style><iframe src=\"y\"></iframe><noscript>n</noscript><p>b</p>";
    assert_eq!(clean_html(html), Some("<p>a</p><p>b</p>".to_string()));
    assert_eq!(clean_html("<p>plain</p>"), Some("<p>plain</p>".to_string()));
    assert_eq!(clean_html(""), Some(String::new()));
}

#[test]
fn cleaning_stops_at_first_closing_tag() {
    assert_eq!(
        clean_html("<script>a</script>keep<script>b</script>"),
        Some("keep".to_string())
    );
}

#[test]
fn markdown_is_one_trimmed_line() {
    assert_eq!(markdown_for("<h1>Hello</h1>"), Ok("# Hello".to_string()));
    assert_eq!(markdown_for("<p>a</p><p>b</p>"), Ok("a<br><br>b".to_string()));
    assert_eq!(markdown_for("<h1>Hi</h1><script>var x;</script>"), Ok("# Hi".to_string()));
    let md = markdown_for("<ul><li>one</li><li>two</li></ul>").unwrap();
    assert!(!md.contains('\n'));
    assert_eq!(md, md.trim());
}

#[test]
fn summary_request_uses_default_prompt_when_empty() {
    assert_eq!(
        summary_request("", "<p>x</p>"),
        "Summarize the following HTML content:\n\nHTML:\n<p>x</p>"
    );
    assert_eq!(summary_request("List links", "<a>"), "List links\n\nHTML:\n<a>");
}

#[test]
fn summary_reply_texts() {
    assert_eq!(summary_reply(SummaryOutcome::Answer("It is a page.".to_string())), Ok("It is a page.".to_string()));
    assert_eq!(
        summary_reply(SummaryOutcome::Unexpected("Object {}".to_string())),
        Ok("OpenAI API error or unexpected response: Object {}".to_string())
    );
    assert_eq!(summary_reply(SummaryOutcome::MissingKey), Err("OPENAI_API_KEY must be set".to_string()));
    assert_eq!(
        summary_reply(SummaryOutcome::SendFailed("refused".to_string())),
        Err("OpenAI send error: refused".to_string())
    );
    assert_eq!(
        summary_reply(SummaryOutcome::BadJson("eof".to_string())),
        Err("OpenAI json error: eof".to_string())
    );
}
