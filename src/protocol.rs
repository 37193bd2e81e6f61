//! Messages exchanged with the presentation layer.

use vstd::prelude::*;

verus! {

/// What a request asks the presentation layer to do.
#[derive(Debug, Clone, Copy, PartialEq, Eq, Structural)]
pub enum RequestKind {
    Input,
    Select,
    Html,
    Editor,
    Complete,
}

/// The wire name of each request kind.
pub open spec fn kind_name(kind: RequestKind) -> Seq<char> {
    match kind {
        RequestKind::Input => "input"@,
        RequestKind::Select => "select"@,
        RequestKind::Html => "html"@,
        RequestKind::Editor => "editor"@,
        RequestKind::Complete => "complete"@,
    }
}

impl RequestKind {
    /// The name under which the presentation layer knows this kind.
    pub fn as_str(&self) -> (r: &'static str)
        ensures
            r@ == kind_name(*self),
    {
        match self {
            RequestKind::Input => "input",
            RequestKind::Select => "select",
            RequestKind::Html => "html",
            RequestKind::Editor => "editor",
            RequestKind::Complete => "complete",
        }
    }
}

} // verus!

verus! {

/// The text that stands for a boolean on the wire.
pub open spec fn bool_text(b: bool) -> Seq<char> {
    if b {
        "true"@
    } else {
        "false"@
    }
}

/// `"true"` or `"false"`.
pub fn bool_str(b: bool) -> (r: &'static str)
    ensures
        r@ == bool_text(b),
{
    if b {
        "true"
    } else {
        "false"
    }
}

/// A message from the host to the presentation layer.
#[derive(Debug)]
pub struct UIRequest {
    /// Correlation token; an answer, if one is expected, carries the same id.
    pub id: String,
    pub kind: RequestKind,
    /// Prompt or title text.
    pub message: String,
    /// Choice labels, present only for a selection.
    pub options: Option<Vec<String>>,
    /// HTML or editor payload, present only for the kinds that show content.
    pub html_content: Option<String>,
}

/// A message from the presentation layer answering an earlier request.
#[derive(Debug)]
pub struct UIResponse {
    pub id: String,
    pub value: String,
}

impl UIRequest {
    /// A request for one line of free text.
    pub fn input(id: String, message: &str) -> (r: UIRequest)
        ensures
            r.id@ == id@,
            r.kind == RequestKind::Input,
            r.message@ == message@,
            r.options is None,
            r.html_content is None,
    {
        UIRequest {
            id,
            kind: RequestKind::Input,
            message: String::from_str(message),
            options: None,
            html_content: None,
        }
    }

    /// A request to pick one of `options`, offered in the order given.
    pub fn select(id: String, message: &str, options: Vec<String>) -> (r: UIRequest)
        ensures
            r.id@ == id@,
            r.kind == RequestKind::Select,
            r.message@ == message@,
            r.options == Some(options),
            r.html_content is None,
    {
        UIRequest {
            id,
            kind: RequestKind::Select,
            message: String::from_str(message),
            options: Some(options),
            html_content: None,
        }
    }

    /// A request to show HTML; no answer is expected.
    pub fn html(id: String, message: &str, content: String) -> (r: UIRequest)
        ensures
            r.id@ == id@,
            r.kind == RequestKind::Html,
            r.message@ == message@,
            r.options is None,
            r.html_content == Some(content),
    {
        UIRequest {
            id,
            kind: RequestKind::Html,
            message: String::from_str(message),
            options: None,
            html_content: Some(content),
        }
    }

    /// A request to open the text editor on an encoded payload.
    pub fn editor(id: String, message: &str, payload: String) -> (r: UIRequest)
        ensures
            r.id@ == id@,
            r.kind == RequestKind::Editor,
            r.message@ == message@,
            r.options is None,
            r.html_content == Some(payload),
    {
        UIRequest {
            id,
            kind: RequestKind::Editor,
            message: String::from_str(message),
            options: None,
            html_content: Some(payload),
        }
    }

    /// The one-way completion signal; its single option tells whether the
    /// view should close by itself.
    pub fn complete(id: &str, message: &str, close: bool) -> (r: UIRequest)
        ensures
            r.id@ == id@,
            r.kind == RequestKind::Complete,
            r.message@ == message@,
            r.options matches Some(o) && o@.len() == 1 && o@[0]@ == bool_text(close),
            r.html_content is None,
    {
        let mut options: Vec<String> = Vec::new();
        options.push(String::from_str(bool_str(close)));
        UIRequest {
            id: String::from_str(id),
            kind: RequestKind::Complete,
            message: String::from_str(message),
            options: Some(options),
            html_content: None,
        }
    }

    /// Whether this request closes the view when it arrives: a completion
    /// signal whose option reads `"true"`.
    pub open spec fn signals_close(&self) -> bool {
        &&& self.kind == RequestKind::Complete
        &&& self.options matches Some(o) && o@.len() == 1 && o@[0]@ == "true"@
    }
}

} // verus!
