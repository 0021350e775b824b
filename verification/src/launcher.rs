//! What the user is told about the browser step of a login.
//!
//! Opening the browser is the caller's part and never fails the login:
//! where it is not tried, or does not work, the URL is shown instead.

use vstd::prelude::*;
use vstd::string::StringExecFns;
use crate::text::joined;

verus! {

/// How the attempt to open the browser went.
#[derive(Debug)]
pub enum Launch {
    /// The user asked not to open a browser.
    NotTried,
    /// The browser was started.
    Opened,
    /// The browser could not be started; the text says why.
    Failed(String),
}

/// The scopes that are asked for where the user names none.
pub open spec fn default_scope_text() -> Seq<char> {
    "projects:read projects:write memories:read memories:write artifacts:read artifacts:write assets:read assets:write"@
}

/// The lines to show, in their order.
pub open spec fn launch_lines(launch: Launch, url: Seq<char>) -> Seq<Seq<char>> {
    match launch {
        Launch::NotTried => seq![
            "[pajama] Open this URL in your browser to continue login:"@,
            url,
        ],
        Launch::Opened => seq!["[pajama] Opening browser for login..."@],
        Launch::Failed(why) => seq![
            "[pajama] Failed to open browser: "@ + why@,
            "[pajama] Open this URL manually:"@,
            url,
        ],
    }
}

/// Whether the URL is among the lines shown: always, but where the
/// browser was started.
pub proof fn lemma_url_is_shown(launch: Launch, url: Seq<char>)
    ensures
        !(launch is Opened) ==> launch_lines(launch, url).last() == url,
{
}

/// The scopes that are asked for where the user names none.
pub fn default_scope() -> (scope: String)
    ensures
        scope@ == default_scope_text(),
{
    String::from_str(
        "projects:read projects:write memories:read memories:write artifacts:read artifacts:write assets:read assets:write",
    )
}

/// Whether to try to open the browser at all.
pub fn should_open_browser(no_open: bool) -> (open: bool)
    ensures
        open == !no_open,
{
    !no_open
}

/// Writes the lines to show for the authorization URL `url`.
pub fn launch_messages(launch: &Launch, url: &str) -> (lines: Vec<String>)
    ensures
        lines.deep_view() == launch_lines(*launch, url@),
{
    let mut lines: Vec<String> = Vec::new();
    match launch {
        Launch::NotTried => {
            lines.push(String::from_str("[pajama] Open this URL in your browser to continue login:"));
            lines.push(String::from_str(url));
        },
        Launch::Opened => {
            lines.push(String::from_str("[pajama] Opening browser for login..."));
        },
        Launch::Failed(why) => {
            lines.push(joined("[pajama] Failed to open browser: ", why.as_str()));
            lines.push(String::from_str("[pajama] Open this URL manually:"));
            lines.push(String::from_str(url));
        },
    }
    proof {
        assert(lines.deep_view() =~= launch_lines(*launch, url@));
    }
    lines
}

} // verus!
