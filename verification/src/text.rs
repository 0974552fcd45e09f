//! Joining pieces of text, as the chat transcript and the argument list need.

use vstd::prelude::*;
use vstd::string::StringExecFns;

verus! {

/// The views of a vector of strings.
pub open spec fn string_views(v: Seq<String>) -> Seq<Seq<char>> {
    v.map_values(|x: String| x@)
}

/// The parts joined, with the separator between neighbours and nowhere else.
pub open spec fn join_spec(parts: Seq<Seq<char>>, sep: Seq<char>) -> Seq<char>
    decreases parts.len(),
{
    if parts.len() == 0 {
        Seq::empty()
    } else if parts.len() == 1 {
        parts[0]
    } else {
        join_spec(parts.drop_last(), sep) + sep + parts.last()
    }
}

/// Joins the strings from `start` on with the separator.
pub fn join_strings_from(parts: &Vec<String>, start: usize, sep: &str) -> (r: String)
    requires
        start <= parts@.len(),
    ensures
        r@ == join_spec(string_views(parts@).subrange(start as int, parts@.len() as int), sep@),
{
    let ghost all = string_views(parts@).subrange(start as int, parts@.len() as int);
    let mut r = String::new();
    let mut i: usize = start;
    proof {
        assert(all.subrange(0, 0) =~= Seq::<Seq<char>>::empty());
    }
    while i < parts.len()
        invariant
            start <= i <= parts@.len(),
            all == string_views(parts@).subrange(start as int, parts@.len() as int),
            r@ == join_spec(all.subrange(0, i - start), sep@),
        decreases parts@.len() - i,
    {
        let ghost prefix = all.subrange(0, i - start);
        let ghost next = all.subrange(0, i + 1 - start);
        proof {
            assert(next.drop_last() =~= prefix);
            assert(next.last() == parts@[i as int]@);
        }
        if i > start {
            r.append(sep);
        }
        r.append(parts[i].as_str());
        i = i + 1;
    }
    proof {
        assert(all.subrange(0, parts@.len() - start) =~= all);
    }
    r
}

/// Joins all the strings with the separator.
pub fn join_strings(parts: &Vec<String>, sep: &str) -> (r: String)
    ensures
        r@ == join_spec(string_views(parts@), sep@),
{
    let r = join_strings_from(parts, 0, sep);
    proof {
        assert(string_views(parts@).subrange(0, parts@.len() as int) =~= string_views(parts@));
    }
    r
}

} // verus!
