//! The post store: ingestion, lookup by day and slug, adjacency, listing and search.

use vstd::prelude::*;

use crate::date::{Day, PostDate};
use crate::markdown::{hoedown_html_of, render_html, Html};
use crate::models::{
    indexes, links_to, stores, summarizes, NewPost, Post as StoredPost, PostContent, PostLink,
    Summary,
};
use crate::post::{slug_of, url_of, ParsedPost};
use crate::summary::{create_summary, sanitized_of, summary_source_of};
use crate::text::{chars_of, contains, contains_chars, lower_of, to_lowercase};

verus! {

/// Why the store refused a batch of posts.
#[derive(Debug, Clone, Copy, PartialEq, Eq, Structural)]
pub enum StoreError {
    /// Two posts share a calendar day and a slug, or a URL.
    DuplicateKey,
}

/// Two new posts share a calendar day and a slug, or a URL.
pub open spec fn new_posts_clash(p: NewPost, q: NewPost) -> bool {
    (p.date.spec_day() == q.date.spec_day() && p.slug@ == q.slug@) || p.url@ == q.url@
}

/// Two stored posts share a calendar day and a slug, or a URL.
pub open spec fn stored_posts_clash(p: StoredPost, q: StoredPost) -> bool {
    (p.date.spec_day() == q.date.spec_day() && p.slug@ == q.slug@) || p.url@ == q.url@
}

/// Two of the posts share a calendar day and a slug, or a URL.
pub open spec fn has_key_clash(posts: Seq<NewPost>) -> bool {
    exists|a: int, b: int| 0 <= a < b < posts.len() && #[trigger] new_posts_clash(posts[a], posts[b])
}

/// Some stored post holds the entry at position `k` of the ingested batch.
pub open spec fn holds_batch_entry(posts: Seq<StoredPost>, k: int) -> bool {
    exists|j: int| 0 <= j < posts.len() && #[trigger] posts[j].id == k + 1
}

/// The posts of a site, most recent first, with their search index.
///
/// A store is built once, by `ingest` (or `load`), from the whole batch of posts, and is only
/// read afterwards: adding posts to an existing store is not supported; ingest the complete
/// batch again into a new store instead.
#[derive(Debug)]
pub struct PostStore {
    /// The stored posts, ordered by date, most recent first.
    pub posts: Vec<StoredPost>,
    /// The full-text index: one entry for each post, in the same order.
    pub index: Vec<PostContent>,
}

/// The posts are ordered by date, most recent first.
pub open spec fn newest_first(posts: Seq<StoredPost>) -> bool {
    forall|a: int, b: int|
        0 <= a < b < posts.len() ==> #[trigger] posts[a].date.minutes()
            >= #[trigger] posts[b].date.minutes()
}

/// No two posts share an identifier, a URL, or a calendar day and a slug.
pub open spec fn keys_unique(posts: Seq<StoredPost>) -> bool {
    forall|a: int, b: int|
        0 <= a < posts.len() && 0 <= b < posts.len() && a != b ==> {
            &&& #[trigger] posts[a].id != #[trigger] posts[b].id
            &&& !stored_posts_clash(posts[a], posts[b])
        }
}

impl PostStore {
    pub open spec fn wf(&self) -> bool {
        &&& newest_first(self.posts@)
        &&& keys_unique(self.posts@)
        &&& self.index@.len() == self.posts@.len()
        &&& forall|j: int| 0 <= j < self.posts@.len() ==> #[trigger] indexes(self.index@[j], self.posts@[j])
        &&& forall|j: int| 0 <= j < self.posts@.len() ==> #[trigger] self.posts@[j].date.wf()
    }
}

/// Whether two of the posts share a calendar day and a slug, or a URL.
fn find_key_clash(posts: &Vec<NewPost>) -> (r: bool)
    ensures
        r == has_key_clash(posts@),
{
    let n = posts.len();
    let mut a: usize = 0;
    while a < n
        invariant
            n == posts@.len(),
            a <= n,
            forall|x: int, y: int|
                0 <= x < a && x < y < n ==> !#[trigger] new_posts_clash(posts@[x], posts@[y]),
        decreases n - a,
    {
        let mut b: usize = a + 1;
        while b < n
            invariant
                n == posts@.len(),
                a < n,
                a + 1 <= b <= n,
                forall|x: int, y: int|
                    0 <= x < a && x < y < n ==> !#[trigger] new_posts_clash(posts@[x], posts@[y]),
                forall|y: int| a < y < b ==> !#[trigger] new_posts_clash(posts@[a as int], posts@[y]),
            decreases n - b,
        {
            if (posts[a].date.day() == posts[b].date.day() && posts[a].slug == posts[b].slug)
                || posts[a].url == posts[b].url {
                assert(new_posts_clash(posts@[a as int], posts@[b as int]));
                return true;
            }
            b = b + 1;
        }
        a = a + 1;
    }
    false
}

/// Builds the full-text search index: for each post, its identifier, title and Markdown source.
pub fn create_fts_index(posts: &Vec<StoredPost>) -> (r: Vec<PostContent>)
    ensures
        r@.len() == posts@.len(),
        forall|i: int| 0 <= i < posts@.len() ==> #[trigger] indexes(r@[i], posts@[i]),
{
    let mut index: Vec<PostContent> = Vec::new();
    let mut j: usize = 0;
    while j < posts.len()
        invariant
            j <= posts@.len(),
            index@.len() == j,
            forall|i: int| 0 <= i < j ==> #[trigger] indexes(index@[i], posts@[i]),
        decreases posts@.len() - j,
    {
        index.push(posts[j].to_content());
        j = j + 1;
    }
    index
}

/// Stores a batch of posts, giving the post at position `k` of the batch the identifier `k + 1`,
/// and builds their search index. Either every post is stored or, where two share a calendar
/// day and a slug, or a URL, none is.
pub fn ingest(new_posts: &Vec<NewPost>) -> (r: Result<PostStore, StoreError>)
    requires
        forall|k: int| 0 <= k < new_posts@.len() ==> #[trigger] new_posts@[k].date.wf(),
    ensures
        match r {
            Err(e) => e == StoreError::DuplicateKey && has_key_clash(new_posts@),
            Ok(store) => {
                &&& !has_key_clash(new_posts@)
                &&& store.wf()
                &&& store.posts@.len() == new_posts@.len()
                &&& forall|j: int|
                    0 <= j < store.posts@.len() ==> 1 <= #[trigger] store.posts@[j].id
                        <= new_posts@.len() && stores(
                        store.posts@[j],
                        new_posts@[store.posts@[j].id - 1],
                        store.posts@[j].id as int,
                    )
                &&& forall|k: int| 0 <= k < new_posts@.len() ==> #[trigger] holds_batch_entry(store.posts@, k)
            },
        },
{
    if find_key_clash(new_posts) {
        return Err(StoreError::DuplicateKey);
    }
    let n = new_posts.len();
    let mut posts: Vec<StoredPost> = Vec::new();
    // Where each batch entry stored so far now stands in `posts`.
    let ghost mut position: Seq<int> = Seq::empty();
    let mut k: usize = 0;
    while k < n
        invariant
            n == new_posts@.len(),
            k <= n,
            !has_key_clash(new_posts@),
            posts@.len() == k,
            newest_first(posts@),
            forall|j: int|
                0 <= j < posts@.len() ==> 1 <= #[trigger] posts@[j].id <= k && stores(
                    posts@[j],
                    new_posts@[posts@[j].id - 1],
                    posts@[j].id as int,
                ),
            forall|a: int, b: int|
                0 <= a < posts@.len() && 0 <= b < posts@.len() && a != b ==> #[trigger] posts@[a].id
                    != #[trigger] posts@[b].id,
            position.len() == k,
            forall|m: int|
                0 <= m < k ==> 0 <= #[trigger] position[m] < posts@.len() && posts@[position[m]].id
                    == m + 1,
        decreases n - k,
    {
        let row = StoredPost::from_new(&new_posts[k], k + 1);
        let m = row.date.minutes_exec();
        let mut pos: usize = 0;
        while pos < posts.len() && posts[pos].date.minutes_exec() >= m
            invariant
                pos <= posts@.len(),
                forall|a: int| 0 <= a < pos ==> #[trigger] posts@[a].date.minutes() >= m,
            decreases posts@.len() - pos,
        {
            pos = pos + 1;
        }
        let ghost old_posts = posts@;
        proof {
            old_posts.insert_ensures(pos as int, row);
        }
        posts.insert(pos, row);
        proof {
            // The new row sits after every post at least as recent and before every older one.
            let grown = posts@;
            assert forall|a: int, b: int|
                0 <= a < b < grown.len() implies #[trigger] grown[a].date.minutes()
                >= #[trigger] grown[b].date.minutes() by {
                if b < pos {
                } else if b == pos {
                } else if a < pos {
                    if pos < old_posts.len() {
                        assert(old_posts[pos as int].date.minutes() < m);
                        if b - 1 > pos {
                            assert(old_posts[pos as int].date.minutes() >= old_posts[b
                                - 1].date.minutes());
                        }
                    }
                } else if a == pos {
                    assert(old_posts[pos as int].date.minutes() < m);
                    if b - 1 > pos {
                        assert(old_posts[pos as int].date.minutes() >= old_posts[b
                            - 1].date.minutes());
                    }
                } else {
                    assert(old_posts[a - 1].date.minutes() >= old_posts[b - 1].date.minutes());
                }
            }
            // Rows at or after the insertion point move one place down.
            let old_position = position;
            position = Seq::new(
                (k + 1) as nat,
                |i: int|
                    if i == k {
                        pos as int
                    } else if old_position[i] >= pos {
                        old_position[i] + 1
                    } else {
                        old_position[i]
                    },
            );
        }
        k = k + 1;
    }
    let index = create_fts_index(&posts);
    let store = PostStore { posts, index };
    proof {
        assert forall|a: int, b: int|
            0 <= a < store.posts@.len() && 0 <= b < store.posts@.len() && a != b implies {
            &&& #[trigger] store.posts@[a].id != #[trigger] store.posts@[b].id
            &&& !stored_posts_clash(store.posts@[a], store.posts@[b])
        } by {
            let x = store.posts@[a].id - 1;
            let y = store.posts@[b].id - 1;
            if stored_posts_clash(store.posts@[a], store.posts@[b]) {
                if x < y {
                    assert(new_posts_clash(new_posts@[x], new_posts@[y]));
                } else {
                    assert(new_posts_clash(new_posts@[y], new_posts@[x]));
                }
            }
        }
        assert forall|j: int| 0 <= j < store.posts@.len() implies #[trigger] store.posts@[j].date.wf() by {
            assert(new_posts@[store.posts@[j].id - 1].date.wf());
        }
        assert forall|m: int| 0 <= m < new_posts@.len() implies #[trigger] holds_batch_entry(store.posts@, m) by {
            assert(store.posts@[position[m]].id == m + 1);
        }
    }
    Ok(store)
}

/// Post `j` is the latest one written strictly before the minute `at`.
pub open spec fn is_previous(posts: Seq<StoredPost>, at: int, j: int) -> bool {
    &&& 0 <= j < posts.len()
    &&& posts[j].date.minutes() < at
    &&& forall|i: int|
        0 <= i < posts.len() && #[trigger] posts[i].date.minutes() < at ==> posts[i].date.minutes()
            <= posts[j].date.minutes()
}

/// Post `j` is the earliest one written strictly after the minute `at`.
pub open spec fn is_next(posts: Seq<StoredPost>, at: int, j: int) -> bool {
    &&& 0 <= j < posts.len()
    &&& posts[j].date.minutes() > at
    &&& forall|i: int|
        0 <= i < posts.len() && #[trigger] posts[i].date.minutes() > at ==> posts[i].date.minutes()
            >= posts[j].date.minutes()
}

/// Some post was written strictly before the minute `at`.
pub open spec fn has_earlier(posts: Seq<StoredPost>, at: int) -> bool {
    exists|i: int| 0 <= i < posts.len() && #[trigger] posts[i].date.minutes() < at
}

/// Some post was written strictly after the minute `at`.
pub open spec fn has_later(posts: Seq<StoredPost>, at: int) -> bool {
    exists|i: int| 0 <= i < posts.len() && #[trigger] posts[i].date.minutes() > at
}

/// `prev` and `next` link to the posts around the minute `at`: the latest one before it and the
/// earliest one after it, each absent where there is none.
pub open spec fn are_neighbours(
    posts: Seq<StoredPost>,
    at: int,
    prev: Option<PostLink>,
    next: Option<PostLink>,
) -> bool {
    &&& (prev is None <==> !has_earlier(posts, at))
    &&& (prev matches Some(l) ==> exists|j: int| #[trigger] is_previous(posts, at, j) && links_to(l, posts[j]))
    &&& (next is None <==> !has_later(posts, at))
    &&& (next matches Some(l) ==> exists|j: int| #[trigger] is_next(posts, at, j) && links_to(l, posts[j]))
}

/// Post `j` is the one written on `day` under `slug`.
pub open spec fn is_keyed(posts: Seq<StoredPost>, day: Day, slug: Seq<char>, j: int) -> bool {
    0 <= j < posts.len() && posts[j].date.spec_day() == day && posts[j].slug@ == slug
}

/// A post with the links to its chronological neighbours.
#[derive(Debug)]
pub struct Post {
    /// The title of the post.
    pub title: String,
    /// The time that the post was written.
    pub date: PostDate,
    /// The post rendered as HTML.
    pub html: Html,
    /// The next post chronologically.
    pub next_post: Option<PostLink>,
    /// The previous post chronologically.
    pub prev_post: Option<PostLink>,
}

impl PostStore {
    /// The posts written just before and just after `at`. Where several share the nearest time,
    /// any one of them is given.
    pub fn adjacent(&self, at: &PostDate) -> (r: (Option<PostLink>, Option<PostLink>))
        ensures
            are_neighbours(self.posts@, at.minutes(), r.0, r.1),
    {
        let posts = &self.posts;
        let m = at.minutes_exec();
        let mut prev: Option<usize> = None;
        let mut next: Option<usize> = None;
        let mut i: usize = 0;
        while i < posts.len()
            invariant
                m == at.minutes(),
                i <= posts@.len(),
                prev matches None ==> forall|q: int|
                    0 <= q < i ==> #[trigger] posts@[q].date.minutes() >= m,
                prev matches Some(p) ==> p < i && posts@[p as int].date.minutes() < m && forall|
                    q: int,
                | 0 <= q < i && #[trigger] posts@[q].date.minutes() < m ==> posts@[q].date.minutes()
                    <= posts@[p as int].date.minutes(),
                next matches None ==> forall|q: int|
                    0 <= q < i ==> #[trigger] posts@[q].date.minutes() <= m,
                next matches Some(p) ==> p < i && posts@[p as int].date.minutes() > m && forall|
                    q: int,
                | 0 <= q < i && #[trigger] posts@[q].date.minutes() > m ==> posts@[q].date.minutes()
                    >= posts@[p as int].date.minutes(),
            decreases posts@.len() - i,
        {
            let mi = posts[i].date.minutes_exec();
            if mi < m {
                match prev {
                    None => {
                        prev = Some(i);
                    },
                    Some(p) => {
                        if mi > posts[p].date.minutes_exec() {
                            prev = Some(i);
                        }
                    },
                }
            }
            if mi > m {
                match next {
                    None => {
                        next = Some(i);
                    },
                    Some(p) => {
                        if mi < posts[p].date.minutes_exec() {
                            next = Some(i);
                        }
                    },
                }
            }
            i = i + 1;
        }
        let prev_link = match prev {
            None => None,
            Some(p) => {
                let l = posts[p].to_link();
                assert(is_previous(posts@, m as int, p as int));
                Some(l)
            },
        };
        let next_link = match next {
            None => None,
            Some(p) => {
                let l = posts[p].to_link();
                assert(is_next(posts@, m as int, p as int));
                Some(l)
            },
        };
        (prev_link, next_link)
    }

    /// The post written on `day` under `slug`, with links to its neighbours; `None` where there is
    /// no such post.
    pub fn get_post(&self, day: &Day, slug: &str) -> (r: Option<Post>)
        requires
            self.wf(),
        ensures
            r is None <==> !exists|j: int| is_keyed(self.posts@, *day, slug@, j),
            r matches Some(p) ==> exists|j: int|
                #[trigger] is_keyed(self.posts@, *day, slug@, j) && {
                    &&& p.title@ == self.posts@[j].title@
                    &&& p.date == self.posts@[j].date
                    &&& p.html@ == self.posts@[j].html@
                    &&& are_neighbours(
                        self.posts@,
                        self.posts@[j].date.minutes(),
                        p.prev_post,
                        p.next_post,
                    )
                },
    {
        let wanted = slug.to_owned();
        let mut i: usize = 0;
        while i < self.posts.len()
            invariant
                wanted@ == slug@,
                i <= self.posts@.len(),
                forall|q: int| 0 <= q < i ==> !#[trigger] is_keyed(self.posts@, *day, slug@, q),
            decreases self.posts@.len() - i,
        {
            if self.posts[i].date.day() == *day && self.posts[i].slug == wanted {
                let (prev_post, next_post) = self.adjacent(&self.posts[i].date);
                let p = Post {
                    title: self.posts[i].title.clone(),
                    date: self.posts[i].date,
                    html: self.posts[i].html.duplicate(),
                    next_post,
                    prev_post,
                };
                assert(is_keyed(self.posts@, *day, slug@, i as int));
                return Some(p);
            }
            i = i + 1;
        }
        None
    }

    /// The summaries of all posts, most recent first.
    pub fn get_summaries(&self) -> (r: Vec<Summary>)
        requires
            self.wf(),
        ensures
            r@.len() == self.posts@.len(),
            forall|j: int| 0 <= j < r@.len() ==> #[trigger] summarizes(r@[j], self.posts@[j]),
            forall|a: int, b: int|
                0 <= a < b < r@.len() ==> #[trigger] r@[a].date.minutes() >= #[trigger] r@[b].date.minutes(),
    {
        let posts = &self.posts;
        let mut r: Vec<Summary> = Vec::new();
        let mut i: usize = 0;
        while i < posts.len()
            invariant
                i <= posts@.len(),
                r@.len() == i,
                forall|j: int| 0 <= j < i ==> #[trigger] summarizes(r@[j], posts@[j]),
            decreases posts@.len() - i,
        {
            r.push(posts[i].to_summary());
            i = i + 1;
        }
        assert forall|a: int, b: int|
            0 <= a < b < r@.len() implies #[trigger] r@[a].date.minutes() >= #[trigger] r@[b].date.minutes() by {
            assert(summarizes(r@[a], posts@[a]));
            assert(summarizes(r@[b], posts@[b]));
            assert(posts@[a].date.minutes() >= posts@[b].date.minutes());
        }
        r
    }
}

/// The index entry `c` matches the query `q`: lower-cased, `q` occurs in its lower-cased title
/// or in its lower-cased content.
pub open spec fn entry_matches(c: PostContent, q: Seq<char>) -> bool {
    contains(lower_of(c.title@), lower_of(q)) || contains(lower_of(c.content@), lower_of(q))
}

/// The positions, in increasing order, of the first `n` index entries that match `q`.
pub open spec fn matching_positions(index: Seq<PostContent>, q: Seq<char>, n: int) -> Seq<int>
    decreases n,
{
    if n <= 0 {
        Seq::empty()
    } else if entry_matches(index[n - 1], q) {
        matching_positions(index, q, n - 1).push(n - 1)
    } else {
        matching_positions(index, q, n - 1)
    }
}

/// Every search result is a listed post that matches the query, each at most once and in the
/// listing's order; and every listed post that matches the query is among the results.
pub proof fn search_results_are_listed_matches(index: Seq<PostContent>, q: Seq<char>, n: int)
    requires
        0 <= n <= index.len(),
    ensures
        forall|k: int|
            0 <= k < matching_positions(index, q, n).len() ==> {
                &&& 0 <= #[trigger] matching_positions(index, q, n)[k] < n
                &&& entry_matches(index[matching_positions(index, q, n)[k]], q)
            },
        forall|a: int, b: int|
            0 <= a < b < matching_positions(index, q, n).len() ==> #[trigger] matching_positions(
                index,
                q,
                n,
            )[a] < #[trigger] matching_positions(index, q, n)[b],
        forall|j: int|
            0 <= j < n && #[trigger] entry_matches(index[j], q) ==> exists|k: int|
                0 <= k < matching_positions(index, q, n).len() && matching_positions(index, q, n)[k]
                    == j,
    decreases n,
{
    if n > 0 {
        search_results_are_listed_matches(index, q, n - 1);
        let prev = matching_positions(index, q, n - 1);
        if entry_matches(index[n - 1], q) {
            let cur = prev.push(n - 1);
            assert(matching_positions(index, q, n) == cur);
            assert forall|j: int| 0 <= j < n && #[trigger] entry_matches(index[j], q) implies exists|
                k: int,
            | 0 <= k < cur.len() && cur[k] == j by {
                if j == n - 1 {
                    assert(cur[prev.len() as int] == j);
                } else {
                    let k = choose|k: int| 0 <= k < prev.len() && prev[k] == j;
                    assert(cur[k] == j);
                }
            }
        } else {
            assert(matching_positions(index, q, n) == prev);
            assert forall|j: int| 0 <= j < n && #[trigger] entry_matches(index[j], q) implies exists|
                k: int,
            | 0 <= k < prev.len() && prev[k] == j by {
                assert(j < n - 1);
            }
        }
    }
}

impl PostStore {
    /// The summaries of the posts whose title or Markdown source contains `query`, letter case
    /// aside, most recent first.
    pub fn find_summaries(&self, query: &str) -> (r: Vec<Summary>)
        requires
            self.wf(),
        ensures
            r@.len() == matching_positions(self.index@, query@, self.index@.len() as int).len(),
            forall|k: int|
                0 <= k < r@.len() ==> #[trigger] summarizes(
                    r@[k],
                    self.posts@[matching_positions(self.index@, query@, self.index@.len() as int)[k]],
                ),
    {
        let lowered_query = to_lowercase(query);
        let q = chars_of(lowered_query.as_str());
        let mut r: Vec<Summary> = Vec::new();
        let mut i: usize = 0;
        proof {
            search_results_are_listed_matches(self.index@, query@, self.index@.len() as int);
        }
        while i < self.index.len()
            invariant
                self.wf(),
                q@ == lower_of(query@),
                i <= self.index@.len(),
                r@.len() == matching_positions(self.index@, query@, i as int).len(),
                forall|k: int|
                    0 <= k < r@.len() ==> #[trigger] summarizes(
                        r@[k],
                        self.posts@[matching_positions(self.index@, query@, i as int)[k]],
                    ),
            decreases self.index@.len() - i,
        {
            proof {
                search_results_are_listed_matches(self.index@, query@, i as int);
            }
            let entry = &self.index[i];
            let lowered_title = to_lowercase(entry.title.as_str());
            let lowered_content = to_lowercase(entry.content.as_str());
            let title = chars_of(lowered_title.as_str());
            let content = chars_of(lowered_content.as_str());
            let hit = contains_chars(&title, &q) || contains_chars(&content, &q);
            if hit {
                assert(indexes(self.index@[i as int], self.posts@[i as int]));
                r.push(self.posts[i].to_summary());
            }
            i = i + 1;
        }
        r
    }
}

/// `n` is the post `p` made ready to store: its HTML rendered from its Markdown, its slug and URL
/// derived from its title and date, and its preview cut from its HTML.
pub open spec fn is_enriched(n: NewPost, p: ParsedPost) -> bool {
    &&& n.title@ == p.metadata.title@
    &&& n.date == p.metadata.date
    &&& n.html@ == hoedown_html_of(p.content@)
    &&& n.slug@ == slug_of(p.metadata.title@)
    &&& n.url@ == url_of(p.metadata.date, slug_of(p.metadata.title@))
    &&& n.summary@ == sanitized_of(summary_source_of(n.html@, n.url@))
    &&& n.content@ == p.content@
}

/// Two parsed posts fall on the same calendar day with the same slug, or get the same URL.
pub open spec fn parsed_posts_clash(p: ParsedPost, q: ParsedPost) -> bool {
    let s = slug_of(p.metadata.title@);
    let t = slug_of(q.metadata.title@);
    (p.metadata.date.spec_day() == q.metadata.date.spec_day() && s == t) || url_of(
        p.metadata.date,
        s,
    ) == url_of(q.metadata.date, t)
}

/// Two of the parsed posts fall on the same calendar day with the same slug, or get the same
/// URL.
pub open spec fn has_parsed_key_clash(posts: Seq<ParsedPost>) -> bool {
    exists|a: int, b: int|
        0 <= a < b < posts.len() && #[trigger] parsed_posts_clash(posts[a], posts[b])
}

/// Renders a parsed post and derives its slug, URL and preview.
pub fn new_post(post: &ParsedPost) -> (r: NewPost)
    ensures
        is_enriched(r, *post),
{
    let html = render_html(post.content.as_str());
    let slug = post.slug();
    let url = post.url();
    let summary = create_summary(&html, url.as_str());
    NewPost {
        title: post.metadata.title.clone(),
        date: post.metadata.date,
        html,
        summary,
        url,
        slug,
        content: post.content.duplicate(),
    }
}

/// Renders every parsed post and stores them all, the post at position `k` under identifier
/// `k + 1`; nothing is stored where two posts share a calendar day and a slug, or a URL.
pub fn load(parsed: &Vec<ParsedPost>) -> (r: Result<PostStore, StoreError>)
    requires
        forall|k: int| 0 <= k < parsed@.len() ==> #[trigger] parsed@[k].metadata.date.wf(),
    ensures
        match r {
            Err(e) => e == StoreError::DuplicateKey && has_parsed_key_clash(parsed@),
            Ok(store) => {
                &&& !has_parsed_key_clash(parsed@)
                &&& store.wf()
                &&& store.posts@.len() == parsed@.len()
                &&& forall|j: int|
                    0 <= j < store.posts@.len() ==> 1 <= #[trigger] store.posts@[j].id
                        <= parsed@.len() && exists|n: NewPost|
                        #[trigger] is_enriched(n, parsed@[store.posts@[j].id - 1]) && stores(
                            store.posts@[j],
                            n,
                            store.posts@[j].id as int,
                        )
                &&& forall|k: int| 0 <= k < parsed@.len() ==> #[trigger] holds_batch_entry(store.posts@, k)
            },
        },
{
    let mut batch: Vec<NewPost> = Vec::new();
    let mut k: usize = 0;
    while k < parsed.len()
        invariant
            k <= parsed@.len(),
            batch@.len() == k,
            forall|i: int| 0 <= i < k ==> #[trigger] is_enriched(batch@[i], parsed@[i]),
            forall|i: int| 0 <= i < parsed@.len() ==> #[trigger] parsed@[i].metadata.date.wf(),
        decreases parsed@.len() - k,
    {
        batch.push(new_post(&parsed[k]));
        k = k + 1;
    }
    proof {
        if has_key_clash(batch@) {
            let (a, b) = choose|a: int, b: int|
                0 <= a < b < batch@.len() && #[trigger] new_posts_clash(batch@[a], batch@[b]);
            assert(is_enriched(batch@[a], parsed@[a]));
            assert(is_enriched(batch@[b], parsed@[b]));
            assert(parsed_posts_clash(parsed@[a], parsed@[b]));
        }
        if has_parsed_key_clash(parsed@) {
            let (a, b) = choose|a: int, b: int|
                0 <= a < b < parsed@.len() && #[trigger] parsed_posts_clash(parsed@[a], parsed@[b]);
            assert(is_enriched(batch@[a], parsed@[a]));
            assert(is_enriched(batch@[b], parsed@[b]));
            assert(new_posts_clash(batch@[a], batch@[b]));
        }
    }
    assert forall|i: int| 0 <= i < batch@.len() implies #[trigger] batch@[i].date.wf() by {
        assert(is_enriched(batch@[i], parsed@[i]));
    }
    let r = ingest(&batch);
    proof {
        if r is Ok {
            let store = r->Ok_0;
            assert forall|j: int| 0 <= j < store.posts@.len() implies 1 <= #[trigger] store.posts@[j].id
                <= parsed@.len() && exists|n: NewPost|
                #[trigger] is_enriched(n, parsed@[store.posts@[j].id - 1]) && stores(
                    store.posts@[j],
                    n,
                    store.posts@[j].id as int,
                ) by {
                let i = store.posts@[j].id - 1;
                assert(is_enriched(batch@[i], parsed@[i]));
            }
        }
    }
    r
}

/// For three posts written at times `d1 < d2 < d3`, the neighbours of `d2` are the posts of
/// `d1` (previous) and `d3` (next); `d1` has no previous post and `d2`'s as next; `d3` has
/// `d2`'s as previous and no next post.
pub proof fn adjacency_of_three(
    posts: Seq<StoredPost>,
    a: int,
    b: int,
    c: int,
    prev1: Option<PostLink>,
    next1: Option<PostLink>,
    prev2: Option<PostLink>,
    next2: Option<PostLink>,
    prev3: Option<PostLink>,
    next3: Option<PostLink>,
)
    requires
        posts.len() == 3,
        0 <= a < 3,
        0 <= b < 3,
        0 <= c < 3,
        a != b && b != c && a != c,
        posts[a].date.minutes() < posts[b].date.minutes() < posts[c].date.minutes(),
        are_neighbours(posts, posts[a].date.minutes(), prev1, next1),
        are_neighbours(posts, posts[b].date.minutes(), prev2, next2),
        are_neighbours(posts, posts[c].date.minutes(), prev3, next3),
    ensures
        prev1 is None,
        next1 matches Some(l) && links_to(l, posts[b]),
        prev2 matches Some(l) && links_to(l, posts[a]),
        next2 matches Some(l) && links_to(l, posts[c]),
        prev3 matches Some(l) && links_to(l, posts[b]),
        next3 is None,
{
    let ma = posts[a].date.minutes();
    let mb = posts[b].date.minutes();
    let mc = posts[c].date.minutes();
    assert(!has_earlier(posts, ma)) by {
        assert forall|i: int| 0 <= i < posts.len() implies !(#[trigger] posts[i].date.minutes()
            < ma) by {}
    }
    assert(!has_later(posts, mc)) by {
        assert forall|i: int| 0 <= i < posts.len() implies !(#[trigger] posts[i].date.minutes()
            > mc) by {}
    }
    assert(posts[b].date.minutes() > ma);
    assert(has_later(posts, ma));
    assert(posts[a].date.minutes() < mb);
    assert(has_earlier(posts, mb));
    assert(posts[c].date.minutes() > mb);
    assert(has_later(posts, mb));
    assert(posts[b].date.minutes() < mc);
    assert(has_earlier(posts, mc));
    let j1 = choose|j: int| #[trigger] is_next(posts, ma, j) && links_to(next1->0, posts[j]);
    assert(posts[b].date.minutes() > ma);
    assert(j1 == b);
    let j2 = choose|j: int| #[trigger] is_previous(posts, mb, j) && links_to(prev2->0, posts[j]);
    assert(j2 == a);
    let j3 = choose|j: int| #[trigger] is_next(posts, mb, j) && links_to(next2->0, posts[j]);
    assert(j3 == c);
    let j4 = choose|j: int| #[trigger] is_previous(posts, mc, j) && links_to(prev3->0, posts[j]);
    assert(posts[a].date.minutes() < mc);
    assert(j4 == b);
}

/// The number of post summaries that the front page shows.
pub const NUM_SUMMARIES: usize = 3;

impl PostStore {
    /// The summaries of the `count` most recent posts (of all of them where there are fewer).
    pub fn latest_summaries(&self, count: usize) -> (r: Vec<Summary>)
        requires
            self.wf(),
        ensures
            r@.len() == if count < self.posts@.len() { count as int } else { self.posts@.len() as int },
            forall|j: int| 0 <= j < r@.len() ==> #[trigger] summarizes(r@[j], self.posts@[j]),
    {
        let n: usize = if count < self.posts.len() { count } else { self.posts.len() };
        let mut r: Vec<Summary> = Vec::new();
        let mut i: usize = 0;
        while i < n
            invariant
                n <= self.posts@.len(),
                i <= n,
                r@.len() == i,
                forall|j: int| 0 <= j < i ==> #[trigger] summarizes(r@[j], self.posts@[j]),
            decreases n - i,
        {
            r.push(self.posts[i].to_summary());
            i = i + 1;
        }
        r
    }

    /// The blog's listing: every summary where the query is empty, else the search results.
    pub fn blog_listing(&self, query: &str) -> (r: Vec<Summary>)
        requires
            self.wf(),
        ensures
            query@.len() == 0 ==> r@.len() == self.posts@.len() && forall|j: int|
                0 <= j < r@.len() ==> #[trigger] summarizes(r@[j], self.posts@[j]),
            query@.len() > 0 ==> r@.len() == matching_positions(
                self.index@,
                query@,
                self.index@.len() as int,
            ).len() && forall|k: int|
                0 <= k < r@.len() ==> #[trigger] summarizes(
                    r@[k],
                    self.posts@[matching_positions(self.index@, query@, self.index@.len() as int)[k]],
                ),
    {
        if query.is_empty() {
            self.get_summaries()
        } else {
            self.find_summaries(query)
        }
    }
}

} // verus!
