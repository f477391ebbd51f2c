//! The script texts that drive the embedded browser element.
//!
//! Every effect on the element goes through a script that the window
//! evaluates in its document. This module fixes those texts: one that
//! mounts a new element on a new address, and three that call a navigation
//! method on the element if there is one.

use vstd::prelude::*;
use vstd::string::StringExecFns;

verus! {

/// Opens the statement that assigns the container's content: up to and with
/// the backtick that opens the new content.
pub const ASSIGN_HEAD: &'static str =
    "\n        document.getElementById('webview-container').innerHTML = `";

/// Closes the statement that assigns the container's content: from the
/// backtick that closes the new content on.
pub const ASSIGN_TAIL: &'static str = "`;\n    ";

/// What the element's markup reads before the address: the opening tag and
/// the opening of `src`.
pub const ELEMENT_HEAD: &'static str = "\n            <webview \n                src=\"";

/// What the element's markup reads after the address: the closing of `src`,
/// the fixed attributes and the closing tag.
pub const ELEMENT_TAIL: &'static str =
    "\" \n                style=\"width:100%; height:100%; border:none;\"\n                allowfullscreen=\"false\"\n            ></webview>\n        ";

/// The element's style: it fills the container and has no border.
pub const ELEMENT_STYLE: &'static str = "width:100%; height:100%; border:none;";

/// The element's setting for fullscreen navigation: disabled.
pub const ELEMENT_FULLSCREEN: &'static str = "false";

/// What a call script reads first: the query for the element inside the
/// container.
pub const ELEMENT_QUERY: &'static str =
    "\n        document.querySelector('#webview-container webview')";

/// The guard between the query and the method: where the query finds no
/// element, the call is skipped and the script still runs to its end.
pub const IF_PRESENT: &'static str = "?.";

/// What stands after the method's name in a call script.
pub const CALL_TAIL: &'static str = "();\n    ";

/// The element's method that loads the current address again.
pub const RELOAD: &'static str = "reload";

/// The element's method that steps back in its history.
pub const BACK: &'static str = "back";

/// The element's method that steps forward in its history.
pub const FORWARD: &'static str = "forward";

/// The markup of an embedded browser element whose address is `url`. The
/// address is put in as it is.
pub open spec fn element_text(url: Seq<char>) -> Seq<char> {
    ELEMENT_HEAD@ + url + ELEMENT_TAIL@
}

/// The script that replaces the container's content by a new element whose
/// address is `url`. The address is put in as it is.
pub open spec fn navigate_text(url: Seq<char>) -> Seq<char> {
    ASSIGN_HEAD@ + element_text(url) + ASSIGN_TAIL@
}

/// The script that calls `method` on the element, if the container has one.
pub open spec fn call_text(method: Seq<char>) -> Seq<char> {
    ELEMENT_QUERY@ + IF_PRESENT@ + method + CALL_TAIL@
}

/// The script that reloads the element's page.
pub open spec fn refresh_text() -> Seq<char> {
    call_text(RELOAD@)
}

/// The script that steps the element back in its history.
pub open spec fn back_text() -> Seq<char> {
    call_text(BACK@)
}

/// The script that steps the element forward in its history.
pub open spec fn forward_text() -> Seq<char> {
    call_text(FORWARD@)
}

/// Builds the script that shows `url` in a new element.
pub fn navigate_script(url: &str) -> (script: String)
    ensures
        script@ == navigate_text(url@),
{
    let mut script = String::from_str(ASSIGN_HEAD);
    script.append(ELEMENT_HEAD);
    script.append(url);
    script.append(ELEMENT_TAIL);
    script.append(ASSIGN_TAIL);
    assert(script@ =~= navigate_text(url@));
    script
}

/// Builds the script that calls `method` on the element.
fn call_script(method: &str) -> (script: String)
    ensures
        script@ == call_text(method@),
{
    let mut script = String::from_str(ELEMENT_QUERY);
    script.append(IF_PRESENT);
    script.append(method);
    script.append(CALL_TAIL);
    script
}

/// Builds the script that reloads the element's page.
pub fn refresh_script() -> (script: String)
    ensures
        script@ == refresh_text(),
{
    call_script(RELOAD)
}

/// Builds the script that steps the element back.
pub fn back_script() -> (script: String)
    ensures
        script@ == back_text(),
{
    call_script(BACK)
}

/// Builds the script that steps the element forward.
pub fn forward_script() -> (script: String)
    ensures
        script@ == forward_text(),
{
    call_script(FORWARD)
}

} // verus!
