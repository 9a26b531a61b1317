//! The literal text of geo values: `(x,y)` for a point and `[e1,e2,...]` for
//! a ring, a polygon or a multipolygon.
//!
//! A coordinate's decimal text is the float's canonical display form; it is
//! made by the caller and handed in as a string.
use vstd::prelude::*;
use vstd::string::StringExecFns;
use itertools::Itertools;

verus! {

/// `parts` with `sep` between each two neighbours; empty for no parts.
pub open spec fn joined(parts: Seq<Seq<char>>, sep: Seq<char>) -> Seq<char>
    decreases parts.len(),
{
    if parts.len() == 0 {
        Seq::empty()
    } else if parts.len() == 1 {
        parts[0]
    } else {
        parts[0] + sep + joined(parts.drop_first(), sep)
    }
}

/// The characters of each string, in order.
pub open spec fn texts_of(items: Seq<String>) -> Seq<Seq<char>> {
    items.map_values(|s: String| s@)
}

/// The literal of a point whose coordinates read `x` and `y`.
pub open spec fn point_literal(x: Seq<char>, y: Seq<char>) -> Seq<char> {
    seq!['('] + x + seq![','] + y + seq![')']
}

/// The literal of a sequence whose elements read `items`.
pub open spec fn list_literal(items: Seq<Seq<char>>) -> Seq<char> {
    seq!['['] + joined(items, seq![',']) + seq![']']
}

/// Relies on itertools::Itertools::join: the empty string for no items, else
/// the first item's text followed, for each later item, by `sep` and its text.
#[verifier::external_body]
fn join_texts(items: &Vec<String>, sep: &str) -> (r: String)
    ensures
        r@ == joined(texts_of(items@), sep@),
{
    items.iter().join(sep)
}

/// Renders a point from its coordinates' decimal texts: `(x,y)`.
pub fn render_point(x: &str, y: &str) -> (r: String)
    ensures
        r@ == point_literal(x@, y@),
{
    proof {
        reveal_strlit("(");
        reveal_strlit(",");
        reveal_strlit(")");
    }
    let mut s = String::from_str("(");
    s.append(x);
    s.append(",");
    s.append(y);
    s.append(")");
    s
}

/// Renders a ring, a polygon or a multipolygon from its elements' literals:
/// `[e1,e2,...]`, and `[]` when there is no element.
pub fn render_list(items: &Vec<String>) -> (r: String)
    ensures
        r@ == list_literal(texts_of(items@)),
        items@.len() == 0 ==> r@ == seq!['[', ']'],
{
    proof {
        reveal_strlit("[");
        reveal_strlit(",");
        reveal_strlit("]");
    }
    let body = join_texts(items, ",");
    let mut s = String::from_str("[");
    s.append(body.as_str());
    s.append("]");
    proof {
        assert("["@ =~= seq!['[']);
        assert(","@ =~= seq![',']);
        assert(body@ == joined(texts_of(items@), seq![',']));
        assert(s@ =~= list_literal(texts_of(items@)));
        if items@.len() == 0 {
            assert(texts_of(items@).len() == 0);
            assert(s@ =~= seq!['[', ']']);
        }
    }
    s
}

} // verus!
