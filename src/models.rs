//! The records that the post store holds and hands out.

use vstd::prelude::*;

use crate::date::PostDate;
use crate::markdown::{Html, Markdown};

verus! {

impl Html {
    /// A copy of the HTML.
    pub fn duplicate(&self) -> (r: Html)
        ensures
            r@ == self@,
    {
        Html(self.0.clone())
    }
}

impl Markdown {
    /// A copy of the Markdown.
    pub fn duplicate(&self) -> (r: Markdown)
        ensures
            r@ == self@,
    {
        Markdown(self.0.clone())
    }
}

/// A post that has been parsed and rendered, ready to be stored.
#[derive(Debug)]
pub struct NewPost {
    /// The title of the post.
    pub title: String,
    /// The time that the post was written.
    pub date: PostDate,
    /// The Markdown of the post rendered as HTML.
    pub html: Html,
    /// A short preview of the post, ending in a link to it.
    pub summary: Html,
    /// The relative URL of the post.
    pub url: String,
    /// The lower-cased title with spaces replaced by hyphens; with the calendar day of `date`
    /// it identifies the post.
    pub slug: String,
    /// The post's Markdown source, which the search index holds.
    pub content: Markdown,
}

/// A stored post.
#[derive(Debug)]
pub struct Post {
    /// The identifier that the store gave the post.
    pub id: usize,
    pub title: String,
    pub date: PostDate,
    pub html: Html,
    pub summary: Html,
    pub url: String,
    pub slug: String,
    pub content: Markdown,
}

/// An entry of the full-text search index.
#[derive(Debug)]
pub struct PostContent {
    /// The identifier of the stored post.
    pub docid: usize,
    pub title: String,
    pub content: String,
}

/// A brief summary of a post.
#[derive(Debug)]
pub struct Summary {
    /// The title of the post.
    pub title: String,
    /// The time that the post was written.
    pub date: PostDate,
    /// A short preview of the post.
    pub summary: String,
    /// A URL to reach the full post.
    pub url: String,
}

/// What is needed to link to a post.
#[derive(Debug)]
pub struct PostLink {
    /// The title of the linked post.
    pub title: String,
    /// The URL of the linked post.
    pub url: String,
}

/// The stored post `p` holds the new post `n` under identifier `id`.
pub open spec fn stores(p: Post, n: NewPost, id: int) -> bool {
    &&& p.id == id
    &&& p.title@ == n.title@
    &&& p.date == n.date
    &&& p.html@ == n.html@
    &&& p.summary@ == n.summary@
    &&& p.url@ == n.url@
    &&& p.slug@ == n.slug@
    &&& p.content@ == n.content@
}

/// `s` summarizes the stored post `p`.
pub open spec fn summarizes(s: Summary, p: Post) -> bool {
    &&& s.title@ == p.title@
    &&& s.date == p.date
    &&& s.summary@ == p.summary@
    &&& s.url@ == p.url@
}

/// `l` links to the stored post `p`.
pub open spec fn links_to(l: PostLink, p: Post) -> bool {
    l.title@ == p.title@ && l.url@ == p.url@
}

/// `c` is the index entry of the stored post `p`.
pub open spec fn indexes(c: PostContent, p: Post) -> bool {
    c.docid == p.id && c.title@ == p.title@ && c.content@ == p.content@
}

impl Post {
    /// The summary of the post.
    pub fn to_summary(&self) -> (r: Summary)
        ensures
            summarizes(r, *self),
    {
        Summary {
            title: self.title.clone(),
            date: self.date,
            summary: self.summary.0.clone(),
            url: self.url.clone(),
        }
    }

    /// A link to the post.
    pub fn to_link(&self) -> (r: PostLink)
        ensures
            links_to(r, *self),
    {
        PostLink { title: self.title.clone(), url: self.url.clone() }
    }

    /// The post's entry in the search index.
    pub fn to_content(&self) -> (r: PostContent)
        ensures
            indexes(r, *self),
    {
        PostContent { docid: self.id, title: self.title.clone(), content: self.content.0.clone() }
    }

    /// Stores a new post under identifier `id`.
    pub fn from_new(n: &NewPost, id: usize) -> (r: Post)
        ensures
            stores(r, *n, id as int),
    {
        Post {
            id,
            title: n.title.clone(),
            date: n.date,
            html: n.html.duplicate(),
            summary: n.summary.duplicate(),
            url: n.url.clone(),
            slug: n.slug.clone(),
            content: n.content.duplicate(),
        }
    }
}

} // verus!
