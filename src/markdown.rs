//! Markdown source and rendered HTML, kept apart as distinct types.

use hoedown::Render;
use vstd::prelude::*;

verus! {

/// An owned string containing Markdown.
#[derive(Debug)]
pub struct Markdown(pub String);

impl View for Markdown {
    type V = Seq<char>;

    open spec fn view(&self) -> Seq<char> {
        self.0@
    }
}

impl Markdown {
    /// Wraps Markdown text.
    pub fn new(text: String) -> (r: Markdown)
        ensures
            r@ == text@,
    {
        Markdown(text)
    }

    /// The Markdown text.
    pub fn as_str(&self) -> (r: &str)
        ensures
            r@ == self@,
    {
        self.0.as_str()
    }
}

/// An owned string containing HTML.
#[derive(Debug)]
pub struct Html(pub String);

impl View for Html {
    type V = Seq<char>;

    open spec fn view(&self) -> Seq<char> {
        self.0@
    }
}

impl Html {
    /// Wraps HTML text.
    pub fn new(text: String) -> (r: Html)
        ensures
            r@ == text@,
    {
        Html(text)
    }

    /// The HTML text.
    pub fn as_str(&self) -> (r: &str)
        ensures
            r@ == self@,
    {
        self.0.as_str()
    }
}

/// The HTML that hoedown renders from Markdown text, with the autolink, fenced-code and table
/// extensions on and raw HTML in the text escaped.
pub uninterp spec fn hoedown_html_of(markdown: Seq<char>) -> Seq<char>;

/// Relies on hoedown's HTML renderer (`hoedown::Html::render` over a `hoedown::Markdown` with
/// `AUTOLINK | FENCED_CODE | TABLES` and the renderer flag `ESCAPE`): its output depends on the
/// Markdown text alone.
#[verifier::external_body]
fn hoedown_render(markdown: &str) -> (r: String)
    ensures
        r@ == hoedown_html_of(markdown@),
{
    let doc = hoedown::Markdown::new(markdown).extensions(
        hoedown::AUTOLINK | hoedown::FENCED_CODE | hoedown::TABLES,
    );
    let mut renderer = hoedown::Html::new(hoedown::renderer::html::ESCAPE, 0);
    let out = renderer.render(&doc);
    String::from_utf8_lossy(out.as_ref()).into_owned()
}

/// Renders Markdown text into HTML; HTML written in the text is escaped, not passed through.
pub fn render_html(markdown: &str) -> (r: Html)
    ensures
        r@ == hoedown_html_of(markdown@),
{
    Html(hoedown_render(markdown))
}

} // verus!
