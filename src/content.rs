//! The content that fire-and-forget requests carry: rendered Markdown,
//! message cards, and the editor's payload.

use pulldown_cmark::Options;
use vstd::prelude::*;

verus! {

/// The HTML that pulldown-cmark renders from Markdown text, with
/// strikethrough, tables, footnotes, task lists and smart punctuation on.
pub uninterp spec fn markdown_html(text: Seq<char>) -> Seq<char>;

/// The compact JSON text of an object whose fields are the given name/value
/// pairs, every value a JSON string, as serde_json writes it.
pub uninterp spec fn json_object_text(fields: Seq<(Seq<char>, Seq<char>)>) -> Seq<char>;

/// Relies on pulldown_cmark::Parser::new_ext and pulldown_cmark::html::push_html:
/// the HTML for `text`, which depends on the text alone; empty text gives no HTML.
#[verifier::external_body]
fn render_markdown_html(text: &str) -> (r: String)
    ensures
        r@ == markdown_html(text@),
        text@.len() == 0 ==> r@.len() == 0,
{
    let options = Options::ENABLE_STRIKETHROUGH | Options::ENABLE_TABLES | Options::ENABLE_FOOTNOTES
        | Options::ENABLE_TASKLISTS | Options::ENABLE_SMART_PUNCTUATION;
    let mut html = String::new();
    pulldown_cmark::html::push_html(&mut html, pulldown_cmark::Parser::new_ext(text, options));
    html
}

/// Relies on serde_json::to_string over a serde_json::Map of string values:
/// the JSON object made of `fields`. serde_json documents two ways to fail, a
/// Serialize impl that fails and a map with keys that are not strings; this
/// map has neither, so the call succeeds.
#[verifier::external_body]
fn encode_json_object(fields: Vec<(String, String)>) -> (r: Result<String, String>)
    ensures
        r is Ok,
        r matches Ok(s) ==> s@ == json_object_text(fields.deep_view()),
{
    let object: serde_json::Map<String, serde_json::Value> = fields.into_iter().map(
        |(name, value)| (name, serde_json::Value::String(value)),
    ).collect();
    serde_json::to_string(&object).map_err(|e| e.to_string())
}

/// The dark-theme stylesheet that rendered Markdown is shown with.
pub const MARKDOWN_STYLESHEET: &'static str = "<style>
    /* Simple dark theme styling - no glass backgrounds */
    body, * {
        color: #ffffff !important;
        background: none !important;
    }

    /* Headers */
    h1, h2, h3, h4, h5, h6 {
        margin-top: 1.5em;
        margin-bottom: 0.5em;
        color: #ffffff !important;
        font-weight: 600;
    }

    h1 {
        border-bottom: 2px solid rgba(255, 255, 255, 0.3);
        padding-bottom: 0.3em;
    }

    h2 {
        border-bottom: 1px solid rgba(255, 255, 255, 0.2);
        padding-bottom: 0.2em;
    }

    /* Code styling - minimal dark background */
    code {
        background: rgba(0, 0, 0, 0.3) !important;
        color: #e1e5e9 !important;
        padding: 3px 6px;
        border-radius: 4px;
        font-family: 'Consolas', 'Monaco', 'Courier New', monospace;
    }

    pre {
        background: rgba(0, 0, 0, 0.3) !important;
        color: #e1e5e9 !important;
        padding: 16px;
        border-radius: 8px;
        overflow-x: auto;
        margin: 16px 0;
    }

    pre code {
        background: none !important;
        padding: 0;
    }

    /* Blockquotes */
    blockquote {
        border-left: 4px solid rgba(255, 255, 255, 0.4);
        margin: 16px 0;
        padding: 16px;
        color: rgba(255, 255, 255, 0.8) !important;
        font-style: italic;
        background: rgba(0, 0, 0, 0.15) !important;
        border-radius: 6px;
    }

    /* Tables */
    table {
        border-collapse: collapse;
        width: 100%;
        margin: 16px 0;
    }

    th, td {
        border: 1px solid rgba(255, 255, 255, 0.15);
        padding: 8px 12px;
        text-align: left;
        color: #ffffff !important;
    }

    th {
        background: rgba(0, 0, 0, 0.2) !important;
        font-weight: 600;
    }

    /* Lists */
    ul, ol {
        color: #ffffff !important;
    }

    li {
        color: #ffffff !important;
    }

    /* Links */
    a {
        color: #64b5f6 !important;
        text-decoration: none;
    }

    a:hover {
        color: #90caf9 !important;
    }

    /* Paragraphs */
    p {
        color: rgba(255, 255, 255, 0.9) !important;
    }

    /* Emphasis */
    strong {
        color: #ffffff !important;
        font-weight: 600;
    }

    em {
        color: rgba(255, 255, 255, 0.9) !important;
    }
</style>
";

/// Rendered Markdown as it is shown: the stylesheet, then the HTML.
pub open spec fn markdown_page_spec(html: Seq<char>) -> Seq<char> {
    MARKDOWN_STYLESHEET@ + html
}

/// Wraps HTML rendered from Markdown in the stylesheet.
pub fn markdown_page(html: &str) -> (r: String)
    ensures
        r@ == markdown_page_spec(html@),
{
    let mut page = String::from_str(MARKDOWN_STYLESHEET);
    page.append(html);
    page
}

/// Markdown text as it is shown.
pub fn render_markdown(text: &str) -> (r: String)
    ensures
        r@ == markdown_page_spec(markdown_html(text@)),
{
    let html = render_markdown_html(text);
    markdown_page(html.as_str())
}

/// The card that shows a short message under a heading.
pub open spec fn message_card_spec(title: Seq<char>, message: Seq<char>) -> Seq<char> {
    "<div style='text-align: center; padding: 2rem;'><h3>"@ + title + "</h3><p>"@ + message
        + "</p></div>"@
}

/// Builds the message card for `title` and `message`.
pub fn message_card(title: &str, message: &str) -> (r: String)
    ensures
        r@ == message_card_spec(title@, message@),
{
    let mut card = String::from_str("<div style='text-align: center; padding: 2rem;'><h3>");
    card.append(title);
    card.append("</h3><p>");
    card.append(message);
    card.append("</p></div>");
    card
}

/// What the editor is opened on.
#[derive(Debug)]
pub enum EditorSource {
    /// A new, empty document.
    Blank,
    /// A file that was read.
    Loaded { path: String, content: String },
    /// A file that could not be read; the editor opens empty and shows why.
    Unreadable { path: String, error: String },
}

/// The prefix of the error shown for a file that could not be read.
pub const READ_ERROR_PREFIX: &'static str = "Could not read file: ";

/// The fields of the editor's payload, in order.
pub open spec fn editor_fields_spec(source: EditorSource, persistent: bool) -> Seq<(Seq<char>, Seq<char>)> {
    let head = if persistent {
        seq![("persistent"@, "true"@)]
    } else {
        Seq::empty()
    };
    head + match source {
        EditorSource::Blank => seq![("content"@, Seq::<char>::empty())],
        EditorSource::Loaded { path, content } => seq![("filePath"@, path@), ("content"@, content@)],
        EditorSource::Unreadable { path, error } => seq![
            ("filePath"@, path@),
            ("content"@, Seq::<char>::empty()),
            ("error"@, READ_ERROR_PREFIX@ + error@),
        ],
    }
}

/// Lists the fields of the editor's payload. A file that could not be read
/// still yields a payload, one that carries the reason.
pub fn editor_fields(source: &EditorSource, persistent: bool) -> (r: Vec<(String, String)>)
    ensures
        r.deep_view() == editor_fields_spec(*source, persistent),
{
    let mut fields: Vec<(String, String)> = Vec::new();
    if persistent {
        fields.push((String::from_str("persistent"), String::from_str("true")));
    }
    match source {
        EditorSource::Blank => {
            fields.push((String::from_str("content"), String::new()));
        },
        EditorSource::Loaded { path, content } => {
            fields.push((String::from_str("filePath"), path.clone()));
            fields.push((String::from_str("content"), content.clone()));
        },
        EditorSource::Unreadable { path, error } => {
            let mut message = String::from_str(READ_ERROR_PREFIX);
            message.append(error.as_str());
            fields.push((String::from_str("filePath"), path.clone()));
            fields.push((String::from_str("content"), String::new()));
            fields.push((String::from_str("error"), message));
        },
    }
    assert(fields.deep_view() =~= editor_fields_spec(*source, persistent));
    fields
}

/// The editor's payload as JSON text.
pub fn editor_payload(source: &EditorSource, persistent: bool) -> (r: String)
    ensures
        r@ == json_object_text(editor_fields_spec(*source, persistent)),
{
    match encode_json_object(editor_fields(source, persistent)) {
        Ok(text) => text,
        Err(_) => {
            assert(false);
            String::new()
        },
    }
}

} // verus!
