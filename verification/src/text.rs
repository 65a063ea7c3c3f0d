//! Values written out as text.
use vstd::prelude::*;
use vstd::string::{to_string_from_display_ensures, StringExecFns};

verus! {

/// `s` is what displaying `v` gives.
pub open spec fn shows<T: std::fmt::Display>(v: T, s: Seq<char>) -> bool {
    exists|t: String| to_string_from_display_ensures::<T>(&v, t) && t@ == s
}

/// The parts in order, with a comma and a space between neighbours.
pub open spec fn joined(parts: Seq<Seq<char>>) -> Seq<char>
    decreases parts.len(),
{
    if parts.len() == 0 {
        Seq::empty()
    } else if parts.len() == 1 {
        parts[0]
    } else {
        joined(parts.drop_last()) + ", "@ + parts.last()
    }
}

/// Part `i` is what displaying value `i` gives, for each of the values.
pub open spec fn each_shown<T: std::fmt::Display>(vs: Seq<T>, parts: Seq<Seq<char>>) -> bool {
    &&& parts.len() == vs.len()
    &&& forall|i: int| 0 <= i < vs.len() ==> shows(vs[i], #[trigger] parts[i])
}

/// `s` lists the values as they display, separated by a comma and a space.
pub open spec fn lists<T: std::fmt::Display>(vs: Seq<T>, s: Seq<char>) -> bool {
    exists|parts: Seq<Seq<char>>| each_shown(vs, parts) && s == joined(parts)
}

/// `s` is `name`, then the listed values in round brackets.
pub open spec fn names_list<T: std::fmt::Display>(name: Seq<char>, vs: Seq<T>, s: Seq<char>)
    -> bool {
    exists|inner: Seq<char>| lists(vs, inner) && s == name + "("@ + inner + ")"@
}

/// Appends what displaying `v` gives to `s`.
pub fn push_shown<T: std::fmt::Display>(s: &mut String, v: &T)
    ensures
        exists|shown: Seq<char>| shows(*v, shown) && final(s)@ == old(s)@ + shown,
{
    let t = v.to_string();
    s.append(t.as_str());
    assert(shows(*v, t@));
}

/// Appends the values as they display, separated by a comma and a space.
pub fn push_list<T: std::fmt::Display>(s: &mut String, vs: &[T])
    ensures
        exists|inner: Seq<char>| lists(vs@, inner) && final(s)@ == old(s)@ + inner,
{
    let ghost mut parts: Seq<Seq<char>> = Seq::empty();
    let mut i: usize = 0;
    while i < vs.len()
        invariant
            i <= vs.len(),
            each_shown(vs@.take(i as int), parts),
            s@ == old(s)@ + joined(parts),
        decreases vs.len() - i,
    {
        if i > 0 {
            s.append(", ");
        }
        let t = vs[i].to_string();
        s.append(t.as_str());
        proof {
            let next = parts.push(t@);
            assert(next.drop_last() =~= parts);
            assert(shows(vs@[i as int], t@));
            assert(vs@.take(i + 1) =~= vs@.take(i as int).push(vs@[i as int]));
            assert(s@ =~= old(s)@ + joined(next));
            parts = next;
        }
        i = i + 1;
    }
    proof {
        assert(vs@.take(i as int) =~= vs@);
        assert(lists(vs@, joined(parts)));
    }
}

/// The text `name(v0, v1, ...)` of the named list of values.
pub fn named_list<T: std::fmt::Display>(name: &str, vs: &[T]) -> (r: String)
    ensures
        names_list(name@, vs@, r@),
{
    let mut s = String::from_str(name);
    s.append("(");
    let ghost before = s@;
    push_list(&mut s, vs);
    let ghost inner = choose|inner: Seq<char>| lists(vs@, inner) && s@ == before + inner;
    s.append(")");
    assert(s@ =~= name@ + "("@ + inner + ")"@);
    s
}

} // verus!
