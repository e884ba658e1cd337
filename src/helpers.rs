//! Logic behind the page templates' helpers.

use vstd::prelude::*;

use crate::text::push_str;

verus! {

/// The separator that `join` puts between items unless another is given.
pub const DEFAULT_SEPARATOR: &'static str = ", ";

/// The views of a list of strings.
pub open spec fn views(parts: Seq<String>) -> Seq<Seq<char>> {
    parts.map_values(|s: String| s@)
}

/// The items, in order, with `sep` between each two.
pub open spec fn joined(parts: Seq<Seq<char>>, sep: Seq<char>) -> Seq<char>
    decreases parts.len(),
{
    if parts.len() == 0 {
        Seq::empty()
    } else if parts.len() == 1 {
        parts[0]
    } else {
        joined(parts.drop_last(), sep) + sep + parts.last()
    }
}

/// Joins the items, in order, with `separator` between each two.
pub fn join(parts: &Vec<String>, separator: &str) -> (r: String)
    ensures
        r@ == joined(views(parts@), separator@),
{
    let mut r = String::new();
    let mut i: usize = 0;
    while i < parts.len()
        invariant
            i <= parts@.len(),
            r@ == joined(views(parts@).subrange(0, i as int), separator@),
        decreases parts@.len() - i,
    {
        let ghost before = views(parts@).subrange(0, i as int);
        if i > 0 {
            push_str(&mut r, separator);
        }
        push_str(&mut r, parts[i].as_str());
        proof {
            let after = views(parts@).subrange(0, i + 1);
            assert(after.drop_last() =~= before);
            if i == 0 {
                assert(joined(before, separator@) =~= Seq::<char>::empty());
                assert(r@ =~= joined(after, separator@));
            }
        }
        i = i + 1;
    }
    assert(views(parts@).subrange(0, parts@.len() as int) =~= views(parts@));
    r
}

} // verus!
