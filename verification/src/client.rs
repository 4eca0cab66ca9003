//! The command-line client's decisions: what it asks for, and which part of
//! the answer it writes out.

use vstd::prelude::*;
use crate::extract::ExtractResponse;

verus! {

/// What the client does.
pub enum ClientPlan {
    /// Follow the server's log.
    StreamLogs,
    /// Ask the server to extract this URL.
    Extract(String),
    /// Neither a URL nor the log was asked for: report the missing `--url`
    /// and exit with status 1.
    MissingUrl,
}

/// Decides from the command line: the log when asked for, else the URL,
/// which is then required.
pub fn client_plan(show_logs: bool, url: Option<String>) -> (p: ClientPlan)
    ensures
        show_logs ==> p == ClientPlan::StreamLogs,
        !show_logs ==> match url {
            Some(u) => p == ClientPlan::Extract(u),
            None => p == ClientPlan::MissingUrl,
        },
{
    if show_logs {
        ClientPlan::StreamLogs
    } else {
        match url {
            Some(u) => ClientPlan::Extract(u),
            None => ClientPlan::MissingUrl,
        }
    }
}

/// Which part of the answer the client writes out.
pub enum ClientOutput {
    /// The server reported an error: print it and exit with status 1.
    Failed,
    /// Save the screenshot to `image.png`.
    SaveScreenshot,
    /// Print the summary.
    PrintSummary,
    /// Print the Markdown.
    PrintMarkdown,
    /// Print the HTML.
    PrintHtml,
}

/// The first that applies: an error; a screenshot that was asked for and
/// came; a summary that was asked for and came; Markdown that was asked for
/// and came; else the HTML.
pub open spec fn output_choice(
    response: &ExtractResponse,
    take_screenshot: bool,
    use_openai: bool,
    output_md: bool,
) -> ClientOutput {
    if response.error@.len() > 0 {
        ClientOutput::Failed
    } else if take_screenshot && response.screenshot@.len() > 0 {
        ClientOutput::SaveScreenshot
    } else if use_openai && response.openai_response@.len() > 0 {
        ClientOutput::PrintSummary
    } else if output_md && response.markdown@.len() > 0 {
        ClientOutput::PrintMarkdown
    } else {
        ClientOutput::PrintHtml
    }
}

/// Decides which part of the answer to write out.
pub fn client_output(
    response: &ExtractResponse,
    take_screenshot: bool,
    use_openai: bool,
    output_md: bool,
) -> (o: ClientOutput)
    ensures
        o == output_choice(response, take_screenshot, use_openai, output_md),
{
    if !response.error.as_str().is_empty() {
        ClientOutput::Failed
    } else if take_screenshot && response.screenshot.len() > 0 {
        ClientOutput::SaveScreenshot
    } else if use_openai && !response.openai_response.as_str().is_empty() {
        ClientOutput::PrintSummary
    } else if output_md && !response.markdown.as_str().is_empty() {
        ClientOutput::PrintMarkdown
    } else {
        ClientOutput::PrintHtml
    }
}

} // verus!
