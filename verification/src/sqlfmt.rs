//! Joining string pieces with a separator, the way the generated SQL lists
//! columns and values, specified as a function on character sequences.

use vstd::prelude::*;
use vstd::string::StringExecFns;

verus! {

/// The views of a sequence of strings.
pub open spec fn views_of(items: Seq<String>) -> Seq<Seq<char>> {
    items.map_values(|s: String| s@)
}

/// The pieces joined in order, the separator between neighbours.
pub open spec fn joined(items: Seq<Seq<char>>, sep: Seq<char>) -> Seq<char>
    decreases items.len(),
{
    if items.len() == 0 {
        Seq::empty()
    } else if items.len() == 1 {
        items[0]
    } else {
        items[0] + sep + joined(items.drop_first(), sep)
    }
}

/// Appending one more piece extends the join by a separator and the piece,
/// unless the join was empty.
pub proof fn lemma_joined_push(items: Seq<Seq<char>>, sep: Seq<char>, x: Seq<char>)
    ensures
        joined(items.push(x), sep) == if items.len() == 0 {
            x
        } else {
            joined(items, sep) + sep + x
        },
    decreases items.len(),
{
    let pushed = items.push(x);
    if items.len() == 0 {
        assert(pushed.len() == 1);
        assert(pushed[0] == x);
    } else if items.len() == 1 {
        assert(pushed[0] == items[0]);
        assert(pushed.drop_first() =~= seq![x]);
        assert(joined(pushed.drop_first(), sep) == x);
    } else {
        lemma_joined_push(items.drop_first(), sep, x);
        assert(pushed.drop_first() =~= items.drop_first().push(x));
        assert(pushed[0] == items[0]);
        assert(items[0] + sep + (joined(items.drop_first(), sep) + sep + x) =~= (items[0] + sep
            + joined(items.drop_first(), sep)) + sep + x);
    }
}

/// Joins the strings with the separator between neighbours.
pub fn join_with(items: &Vec<String>, sep: &str) -> (s: String)
    ensures
        s@ == joined(views_of(items@), sep@),
{
    let mut s = String::new();
    let n = items.len();
    for i in 0..n
        invariant
            n == items@.len(),
            s@ == joined(views_of(items@).take(i as int), sep@),
    {
        if i > 0 {
            s.append(sep);
        }
        s.append(items[i].as_str());
        proof {
            let vs = views_of(items@);
            assert(vs.take(i as int).push(vs[i as int]) =~= vs.take(i + 1));
            lemma_joined_push(vs.take(i as int), sep@, vs[i as int]);
            assert(vs.take(i as int).len() == i);
        }
    }
    proof {
        assert(views_of(items@).take(n as int) =~= views_of(items@));
    }
    s
}

} // verus!
