//! The text of a step as it is handed to the page: as it stands, or turned
//! from markdown into HTML.

use vstd::prelude::*;

verus! {

/// What goes into the tooltip's text area.
#[derive(Debug, PartialEq, Eq, Clone)]
pub enum Content {
    /// Plain text; the page escapes it.
    Text(String),
    /// Markup; the page inserts it as it is.
    Html(String),
}

/// The HTML that the markdown compiler produces for `source`.
pub uninterp spec fn markdown_html(source: Seq<char>) -> Seq<char>;

/// `markdown::to_html`: compiles markdown to HTML by the CommonMark rules, with
/// the compiler's default options. The result depends on the source text
/// alone; the contract names it and claims nothing more about it.
#[verifier::external_body]
fn to_html(source: &str) -> (html: String)
    ensures
        html@ == markdown_html(source@),
{
    markdown::to_html(source)
}

/// What `render` returns for `content`.
pub open spec fn rendered(content: Seq<char>, markdown: bool, result: Content) -> bool {
    if markdown {
        result matches Content::Html(html) && html@ == markdown_html(content)
    } else {
        result matches Content::Text(text) && text@ == content
    }
}

/// Prepares the content of a step for the page: compiled to HTML when
/// `markdown` is set, the text itself otherwise.
pub fn render(content: &str, markdown: bool) -> (r: Content)
    ensures
        rendered(content@, markdown, r),
{
    if markdown {
        Content::Html(to_html(content))
    } else {
        Content::Text(content.to_owned())
    }
}

} // verus!
