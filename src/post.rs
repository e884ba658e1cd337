//! Parsing one post: the front matter / content split, metadata validation, slug and URL.

use vstd::prelude::*;

use crate::date::{on_disk_date, PostDate};
use crate::markdown::Markdown;
use crate::text::{
    chars_of, decimal, lower_of, push_char, push_decimal, push_signed_decimal, push_str,
    signed_decimal, substring, to_lowercase,
};

verus! {

/// A required front-matter field.
#[derive(Debug, Clone, Copy, PartialEq, Eq, Structural)]
pub enum Field {
    Title,
    Date,
}

/// Why a post file could not be parsed.
#[derive(Debug, Clone, Copy, PartialEq, Eq, Structural)]
pub enum ParseErrorKind {
    /// The file has no blank line between its front matter and its content.
    MalformedDocument,
    /// The front matter is not a well-formed key-value document.
    MetadataSyntaxError,
    /// A required field is absent.
    MissingField(Field),
    /// A required field is present but empty.
    EmptyField(Field),
    /// The date does not follow the on-disk format.
    InvalidDateFormat,
}

/// A parse failure, with the identity of the file it came from.
#[derive(Debug)]
pub struct ParseError {
    pub source: String,
    pub kind: ParseErrorKind,
}

impl ParseError {
    pub fn new(source: &str, kind: ParseErrorKind) -> (r: ParseError)
        ensures
            r.source@ == source@,
            r.kind == kind,
    {
        ParseError { source: source.to_owned(), kind }
    }
}

/// A post file cut at its first blank line.
#[derive(Debug)]
pub struct Document {
    /// Everything before the first blank line.
    pub front_matter: String,
    /// Everything after the first blank line.
    pub content: Markdown,
}

/// The front-matter fields as a key-value reader found them.
#[derive(Debug)]
pub struct FrontMatter {
    pub title: Option<String>,
    pub date: Option<String>,
    pub categories: Vec<String>,
    pub tags: Vec<String>,
}

/// A post's validated metadata.
#[derive(Debug)]
pub struct Metadata {
    pub title: String,
    pub date: PostDate,
    pub categories: Vec<String>,
    pub tags: Vec<String>,
}

/// A parsed post: its metadata and its Markdown content.
#[derive(Debug)]
pub struct ParsedPost {
    pub metadata: Metadata,
    pub content: Markdown,
}

/// Two consecutive newlines start at `i`.
pub open spec fn blank_at(s: Seq<char>, i: int) -> bool {
    0 <= i && i + 1 < s.len() && s[i] == '\n' && s[i + 1] == '\n'
}

/// The first blank line starts at `i`.
pub open spec fn is_first_blank(s: Seq<char>, i: int) -> bool {
    blank_at(s, i) && forall|j: int| 0 <= j < i ==> !blank_at(s, j)
}

/// The front matter and content of a document, or nothing where it has no blank line.
pub open spec fn split_of(s: Seq<char>) -> Option<(Seq<char>, Seq<char>)> {
    if exists|i: int| is_first_blank(s, i) {
        let i = choose|i: int| is_first_blank(s, i);
        Some((s.subrange(0, i), s.subrange(i + 2, s.len() as int)))
    } else {
        None
    }
}

proof fn lemma_first_blank_unique(s: Seq<char>, i: int, k: int)
    requires
        is_first_blank(s, i),
        is_first_blank(s, k),
    ensures
        i == k,
{
    if i < k {
        assert(!blank_at(s, i));
    } else if k < i {
        assert(!blank_at(s, k));
    }
}

/// Cuts the post file `source`, whose text is `raw`, at its first blank line.
pub fn split_document(source: &str, raw: &str) -> (r: Result<Document, ParseError>)
    ensures
        r is Err <==> forall|i: int| !blank_at(raw@, i),
        match r {
            Ok(doc) => split_of(raw@) == Some((doc.front_matter@, doc.content@)),
            Err(e) => {
                &&& split_of(raw@) is None
                &&& e.kind == ParseErrorKind::MalformedDocument
                &&& e.source@ == source@
            },
        },
{
    let cs = chars_of(raw);
    let n = cs.len();
    let mut i: usize = 0;
    while i < n
        invariant
            cs@ == raw@,
            n == cs@.len(),
            i <= n,
            forall|j: int| 0 <= j < i ==> !blank_at(raw@, j),
        decreases n - i,
    {
        if i + 1 < n && cs[i] == '\n' && cs[i + 1] == '\n' {
            proof {
                assert(is_first_blank(raw@, i as int));
                let k = choose|k: int| is_first_blank(raw@, k);
                lemma_first_blank_unique(raw@, i as int, k);
            }
            let front_matter = substring(cs.as_slice(), 0, i);
            let content = substring(cs.as_slice(), i + 2, n);
            return Ok(Document { front_matter, content: Markdown::new(content) });
        }
        i = i + 1;
    }
    assert forall|j: int| !is_first_blank(raw@, j) by {
        if 0 <= j < i {
        } else {
            assert(!blank_at(raw@, j));
        }
    }
    Err(ParseError::new(source, ParseErrorKind::MalformedDocument))
}

/// A front matter that holds a non-empty title and a date in the on-disk format.
pub open spec fn front_matter_is_valid(front: Option<FrontMatter>) -> bool {
    &&& front matches Some(f)
    &&& f.title matches Some(t)
    &&& t@.len() > 0
    &&& f.date matches Some(d)
    &&& on_disk_date(d@) is Some
}

/// What validation makes of a front matter: the first error in the order syntax, absent title,
/// absent date, empty title, date format; or else the post's timestamp.
pub open spec fn metadata_check(front: Option<FrontMatter>) -> Result<PostDate, ParseErrorKind> {
    match front {
        None => Err(ParseErrorKind::MetadataSyntaxError),
        Some(f) => {
            if f.title is None {
                Err(ParseErrorKind::MissingField(Field::Title))
            } else if f.date is None {
                Err(ParseErrorKind::MissingField(Field::Date))
            } else if f.title->0@.len() == 0 {
                Err(ParseErrorKind::EmptyField(Field::Title))
            } else {
                match on_disk_date(f.date->0@) {
                    None => Err(ParseErrorKind::InvalidDateFormat),
                    Some(d) => Ok(d),
                }
            }
        },
    }
}

/// Validates a front matter; `None` stands for one that could not be read at all.
pub fn parse_metadata(front: Option<FrontMatter>) -> (r: Result<Metadata, ParseErrorKind>)
    ensures
        match metadata_check(front) {
            Err(kind) => r == Err::<Metadata, ParseErrorKind>(kind),
            Ok(date) => r matches Ok(m) && {
                &&& m.date == date
                &&& m.date.wf()
                &&& front matches Some(f)
                &&& f.title matches Some(t)
                &&& m.title@ == t@
                &&& m.categories@ == f.categories@
                &&& m.tags@ == f.tags@
            },
        },
{
    match front {
        None => Err(ParseErrorKind::MetadataSyntaxError),
        Some(f) => {
            let FrontMatter { title, date, categories, tags } = f;
            match (title, date) {
                (None, _) => Err(ParseErrorKind::MissingField(Field::Title)),
                (Some(_), None) => Err(ParseErrorKind::MissingField(Field::Date)),
                (Some(title), Some(date)) => {
                    if title.as_str().is_empty() {
                        return Err(ParseErrorKind::EmptyField(Field::Title));
                    }
                    match PostDate::parse_on_disk(date.as_str()) {
                        None => Err(ParseErrorKind::InvalidDateFormat),
                        Some(d) => Ok(Metadata { title, date: d, categories, tags }),
                    }
                },
            }
        },
    }
}

/// Builds a post from a file's name, its cut document and what was read from its front matter.
pub fn parse_post(source: &str, document: Document, front: Option<FrontMatter>) -> (r: Result<
    ParsedPost,
    ParseError,
>)
    ensures
        match metadata_check(front) {
            Err(kind) => r matches Err(e) && e.kind == kind && e.source@ == source@,
            Ok(date) => r matches Ok(p) && {
                &&& p.metadata.date == date
                &&& p.metadata.date.wf()
                &&& front matches Some(f)
                &&& f.title matches Some(t)
                &&& p.metadata.title@ == t@
                &&& p.metadata.categories@ == f.categories@
                &&& p.metadata.tags@ == f.tags@
                &&& p.content@ == document.content@
            },
        },
{
    match parse_metadata(front) {
        Err(kind) => Err(ParseError::new(source, kind)),
        Ok(metadata) => Ok(ParsedPost { metadata, content: document.content }),
    }
}

/// Parsing succeeds on every well-formed document, and the content it keeps is exactly what
/// follows the first blank line.
pub proof fn parse_succeeds_on_well_formed(raw: Seq<char>, i: int, front: Option<FrontMatter>)
    requires
        is_first_blank(raw, i),
        front_matter_is_valid(front),
    ensures
        split_of(raw) == Some((raw.subrange(0, i), raw.subrange(i + 2, raw.len() as int))),
        metadata_check(front) is Ok,
{
    let k = choose|k: int| is_first_blank(raw, k);
    lemma_first_blank_unique(raw, i, k);
}

/// A missing-field error names only a key that the front matter lacks.
pub proof fn missing_field_is_absent(front: Option<FrontMatter>)
    ensures
        metadata_check(front) == Err::<PostDate, ParseErrorKind>(
            ParseErrorKind::MissingField(Field::Title),
        ) ==> (front matches Some(f) && f.title is None),
        metadata_check(front) == Err::<PostDate, ParseErrorKind>(
            ParseErrorKind::MissingField(Field::Date),
        ) ==> (front matches Some(f) && f.date is None),
{
}

/// A document without a blank line is rejected.
pub proof fn no_blank_line_is_malformed(raw: Seq<char>)
    requires
        forall|i: int| !blank_at(raw, i),
    ensures
        split_of(raw) is None,
{
}

/// `s` with every space replaced by a hyphen.
pub open spec fn hyphenate(s: Seq<char>) -> Seq<char> {
    s.map_values(|c: char| if c == ' ' { '-' } else { c })
}

/// The slug of a title: lower-cased, with spaces replaced by hyphens.
pub open spec fn slug_of(title: Seq<char>) -> Seq<char> {
    hyphenate(lower_of(title))
}

/// The relative URL of a post written at `date` with slug `slug`.
pub open spec fn url_of(date: PostDate, slug: Seq<char>) -> Seq<char> {
    seq!['/', 'b', 'l', 'o', 'g', '/'] + signed_decimal(date.year as int) + seq!['/'] + decimal(
        date.month as nat,
    ) + seq!['/'] + decimal(date.day as nat) + seq!['/'] + slug
}

/// Replaces every space of `s` with a hyphen.
pub fn hyphenate_spaces(s: &str) -> (r: String)
    ensures
        r@ == hyphenate(s@),
{
    let cs = chars_of(s);
    let mut r = String::new();
    let mut i: usize = 0;
    while i < cs.len()
        invariant
            cs@ == s@,
            i <= cs@.len(),
            r@ == hyphenate(s@).subrange(0, i as int),
        decreases cs@.len() - i,
    {
        let c = cs[i];
        push_char(&mut r, if c == ' ' { '-' } else { c });
        i = i + 1;
        assert(r@ =~= hyphenate(s@).subrange(0, i as int));
    }
    assert(hyphenate(s@).subrange(0, i as int) =~= hyphenate(s@));
    r
}

/// The slug of a title: lower-cased, with spaces replaced by hyphens.
pub fn slug(title: &str) -> (r: String)
    ensures
        r@ == slug_of(title@),
{
    let lower = to_lowercase(title);
    hyphenate_spaces(lower.as_str())
}

/// The slug is a function of the title alone: equal titles give equal slugs, and every space
/// of the lower-cased title becomes a hyphen.
pub proof fn slug_is_deterministic(a: Seq<char>, b: Seq<char>)
    requires
        a == b,
    ensures
        slug_of(a) == slug_of(b),
        slug_of(a).len() == lower_of(a).len(),
        forall|i: int|
            0 <= i < slug_of(a).len() ==> slug_of(a)[i] == if lower_of(a)[i] == ' ' {
                '-'
            } else {
                lower_of(a)[i]
            },
{
}

/// The relative URL `/blog/{year}/{month}/{day}/{slug}`.
pub fn post_url(date: &PostDate, slug: &str) -> (r: String)
    ensures
        r@ == url_of(*date, slug@),
{
    let mut r = String::new();
    push_str(&mut r, "/blog/");
    push_signed_decimal(&mut r, date.year);
    push_char(&mut r, '/');
    push_decimal(&mut r, date.month);
    push_char(&mut r, '/');
    push_decimal(&mut r, date.day);
    push_char(&mut r, '/');
    push_str(&mut r, slug);
    proof {
        reveal_strlit("/blog/");
    }
    assert(r@ =~= url_of(*date, slug@));
    r
}

impl ParsedPost {
    /// The slug of the post's title.
    pub fn slug(&self) -> (r: String)
        ensures
            r@ == slug_of(self.metadata.title@),
    {
        slug(self.metadata.title.as_str())
    }

    /// The post's relative URL.
    pub fn url(&self) -> (r: String)
        ensures
            r@ == url_of(self.metadata.date, slug_of(self.metadata.title@)),
    {
        let s = self.slug();
        post_url(&self.metadata.date, s.as_str())
    }
}

} // verus!
