//! The site's configuration: its pages and the link to the resume.

use vstd::prelude::*;

use crate::helpers::joined;
use crate::text::{chars_of, push_char, push_chars, push_str};

verus! {

/// The configuration of one page.
#[derive(Debug)]
pub struct Page {
    /// The human-readable title of the page.
    pub name: String,
    /// The name of the template that renders the page.
    pub template: String,
    /// The absolute path that the page is served at, such as `/about`.
    pub path: String,
}

/// A component that a path keeps: a `.` component after the root names the directory itself and
/// is dropped, as are the empty ones between repeated `/`.
pub open spec fn kept_component(c: Seq<char>) -> bool {
    c.len() > 0 && c != seq!['.']
}

/// `done` followed by the component `c` where that component is kept.
pub open spec fn with_component(done: Seq<Seq<char>>, c: Seq<char>) -> Seq<Seq<char>> {
    if kept_component(c) {
        done.push(c)
    } else {
        done
    }
}

/// Reading `path` from the left: the kept components that a `/` has closed, and the component
/// still open at the end.
pub open spec fn scan_components(path: Seq<char>) -> (Seq<Seq<char>>, Seq<char>)
    decreases path.len(),
{
    if path.len() == 0 {
        (Seq::empty(), Seq::empty())
    } else {
        let (done, open) = scan_components(path.drop_last());
        if path.last() == '/' {
            (with_component(done, open), Seq::empty())
        } else {
            (done, open.push(path.last()))
        }
    }
}

/// The components of a path after its root, as path components give them: separated by `/`,
/// without empty components and without `.` components.
pub open spec fn components_of(path: Seq<char>) -> Seq<Seq<char>> {
    with_component(scan_components(path).0, scan_components(path).1)
}

/// Where the HTML of the page served at `path` is written, relative to the output directory:
/// the path's components after the root, joined by `/`, then `index.html`.
pub open spec fn html_path_of(path: Seq<char>) -> Seq<char> {
    let parts = components_of(path);
    if parts.len() == 0 {
        "index.html"@
    } else {
        joined(parts, seq!['/']) + seq!['/'] + "index.html"@
    }
}

proof fn lemma_joined_push(done: Seq<Seq<char>>, c: Seq<char>, sep: Seq<char>)
    ensures
        joined(done.push(c), sep) == if done.len() == 0 {
            c
        } else {
            joined(done, sep) + sep + c
        },
{
    assert(done.push(c).drop_last() =~= done);
}

impl Page {
    /// A page; its path must be absolute.
    pub fn new(name: String, template: String, path: String) -> (r: Page)
        requires
            path@.len() > 0 && path@[0] == '/',
        ensures
            r.name@ == name@,
            r.template@ == template@,
            r.path@ == path@,
            r.wf(),
    {
        Page { name, template, path }
    }

    /// The path is absolute.
    pub open spec fn wf(&self) -> bool {
        self.path@.len() > 0 && self.path@[0] == '/'
    }

    /// The file that the page's rendered HTML is written to, relative to the output directory.
    pub fn html_path(&self) -> (r: String)
        requires
            self.wf(),
        ensures
            r@ == html_path_of(self.path@),
            r@.len() > 0 && r@[0] != '/',
    {
        let cs = chars_of(self.path.as_str());
        // The kept components closed so far, joined by `/`.
        let mut r = String::new();
        let ghost mut done: Seq<Seq<char>> = Seq::empty();
        // The component still open.
        let mut open: Vec<char> = Vec::new();
        let mut i: usize = 0;
        while i < cs.len()
            invariant
                cs@ == self.path@,
                i <= cs@.len(),
                scan_components(cs@.subrange(0, i as int)) == (done, open@),
                r@ == joined(done, seq!['/']),
                r@.len() > 0 ==> r@[0] != '/',
                done.len() > 0 ==> r@.len() > 0,
                forall|k: int| 0 <= k < open@.len() ==> open@[k] != '/',
            decreases cs@.len() - i,
        {
            let c = cs[i];
            assert(cs@.subrange(0, i + 1).drop_last() =~= cs@.subrange(0, i as int));
            if c == '/' {
                close_component(&mut r, &open, Ghost(done));
                proof {
                    done = with_component(done, open@);
                }
                open = Vec::new();
            } else {
                open.push(c);
            }
            i = i + 1;
        }
        assert(cs@.subrange(0, cs@.len() as int) =~= cs@);
        close_component(&mut r, &open, Ghost(done));
        proof {
            done = with_component(done, open@);
            reveal_strlit("index.html");
        }
        if !r.as_str().is_empty() {
            push_char(&mut r, '/');
        }
        push_str(&mut r, "index.html");
        r
    }
}

/// Appends the component `open` to the joined components `done` where it is kept.
fn close_component(r: &mut String, open: &Vec<char>, Ghost(done): Ghost<Seq<Seq<char>>>)
    requires
        old(r)@ == joined(done, seq!['/']),
        old(r)@.len() > 0 ==> old(r)@[0] != '/',
        done.len() > 0 ==> old(r)@.len() > 0,
        forall|k: int| 0 <= k < open@.len() ==> open@[k] != '/',
    ensures
        final(r)@ == joined(with_component(done, open@), seq!['/']),
        final(r)@.len() > 0 ==> final(r)@[0] != '/',
        with_component(done, open@).len() > 0 ==> final(r)@.len() > 0,
{
    let is_dot = open.len() == 1 && open[0] == '.';
    if open.len() > 0 && !is_dot {
        proof {
            lemma_joined_push(done, open@, seq!['/']);
        }
        assert(open@.len() == 1 ==> open@[0] != '.');
        if !r.as_str().is_empty() {
            push_char(r, '/');
        }
        push_chars(r, open);
        assert(r@ =~= joined(with_component(done, open@), seq!['/']));
    } else {
        assert(open@.len() == 1 ==> open@ =~= seq!['.']);
    }
}

/// The configuration of the site.
#[derive(Debug)]
pub struct Config {
    /// A link to a PDF copy of the resume.
    pub resume_link: String,
    /// The pages of the site.
    pub pages: Vec<Page>,
}

} // verus!
