//! Post previews: the start of the rendered HTML, a link to the whole post, then sanitizing.

use vstd::prelude::*;

use crate::markdown::Html;
use crate::text::{chars_of, push_char, push_str};

verus! {

/// The number of characters of a post's HTML that its preview keeps.
pub const SUMMARY_LENGTH: usize = 200;

/// The first `n` characters of `s`, or all of `s` where it is shorter.
pub open spec fn take(s: Seq<char>, n: nat) -> Seq<char> {
    if s.len() <= n {
        s
    } else {
        s.subrange(0, n as int)
    }
}

/// The link that ends every preview.
pub open spec fn continuation_link(url: Seq<char>) -> Seq<char> {
    "\u{2026} <a href=\""@ + url + "\">Continue&rarr;</a>"@
}

/// The text of a preview before it is sanitized: the first characters of the HTML, then the
/// continuation link.
pub open spec fn summary_source_of(html: Seq<char>, url: Seq<char>) -> Seq<char> {
    take(html, SUMMARY_LENGTH as nat) + continuation_link(url)
}

/// What ammonia's cleaner, set to pass relative URLs through, makes of an HTML fragment.
pub uninterp spec fn sanitized_of(html: Seq<char>) -> Seq<char>;

/// Relies on `ammonia::Builder::clean` with `UrlRelative::PassThrough` and otherwise default
/// settings: the cleaned document depends on the input text alone, and closes every tag that
/// the input leaves open.
#[verifier::external_body]
fn sanitize(html: &str) -> (r: String)
    ensures
        r@ == sanitized_of(html@),
{
    let mut builder = ammonia::Builder::default();
    builder.url_relative(ammonia::UrlRelative::PassThrough);
    builder.clean(html).to_string()
}

/// The first `SUMMARY_LENGTH` characters of the HTML (all of it where it is shorter), followed by
/// the continuation link to `url`.
pub fn summary_source(html: &Html, url: &str) -> (r: String)
    ensures
        r@ == summary_source_of(html@, url@),
{
    let cs = chars_of(html.as_str());
    let n: usize = if cs.len() < SUMMARY_LENGTH { cs.len() } else { SUMMARY_LENGTH };
    let mut r = String::new();
    let mut i: usize = 0;
    while i < n
        invariant
            cs@ == html@,
            n <= cs@.len(),
            i <= n,
            r@ == cs@.subrange(0, i as int),
        decreases n - i,
    {
        push_char(&mut r, cs[i]);
        i = i + 1;
        assert(r@ =~= cs@.subrange(0, i as int));
    }
    assert(r@ =~= take(html@, SUMMARY_LENGTH as nat));
    push_str(&mut r, "\u{2026} <a href=\"");
    push_str(&mut r, url);
    push_str(&mut r, "\">Continue&rarr;</a>");
    assert(r@ =~= summary_source_of(html@, url@));
    r
}

/// A preview of a post: its first characters and a link to `url`, sanitized so that every tag
/// is closed.
pub fn create_summary(html: &Html, url: &str) -> (r: Html)
    ensures
        r@ == sanitized_of(summary_source_of(html@, url@)),
{
    let source = summary_source(html, url);
    Html::new(sanitize(source.as_str()))
}

/// Where the HTML is longer than `SUMMARY_LENGTH` characters, the preview keeps exactly its first
/// `SUMMARY_LENGTH` characters before the link; where it is not, it keeps all of it.
pub proof fn summary_keeps_a_bounded_prefix(html: Seq<char>, url: Seq<char>)
    ensures
        html.len() > SUMMARY_LENGTH ==> summary_source_of(html, url) == html.subrange(
            0,
            SUMMARY_LENGTH as int,
        ) + continuation_link(url),
        html.len() <= SUMMARY_LENGTH ==> summary_source_of(html, url) == html
            + continuation_link(url),
        take(html, SUMMARY_LENGTH as nat).len() <= SUMMARY_LENGTH,
{
}

/// Before sanitizing, every preview ends with the continuation link to `url`.
pub proof fn summary_ends_with_link(html: Seq<char>, url: Seq<char>)
    ensures
        ({
            let s = summary_source_of(html, url);
            let k = continuation_link(url).len();
            s.len() >= k && s.subrange(s.len() - k, s.len() as int) == continuation_link(url)
        }),
{
    let s = summary_source_of(html, url);
    let k = continuation_link(url).len();
    assert(s.subrange(s.len() - k, s.len() as int) =~= continuation_link(url));
}

} // verus!
