//! Small executable string utilities that the rest of the library builds on.
use vstd::prelude::*;
use vstd::string::*;

verus! {

/// Relies on std's `String::push`: appends exactly one character at the end.
#[verifier::external_body]
pub fn push_char(s: &mut String, c: char)
    ensures
        final(s)@ == old(s)@.push(c),
{
    s.push(c);
}

/// Character-by-character equality of two string slices.
pub fn str_eq(a: &str, b: &str) -> (r: bool)
    ensures
        r == (a@ == b@),
{
    let alen: usize = a.unicode_len();
    let blen: usize = b.unicode_len();
    if alen != blen {
        return false;
    }
    let mut i: usize = 0;
    while i < alen
        invariant
            i <= alen,
            alen == a@.len(),
            blen == b@.len(),
            alen == blen,
            forall|j: int| 0 <= j < i ==> a@[j] == b@[j],
        decreases alen - i,
    {
        if a.get_char(i) != b.get_char(i) {
            return false;
        }
        i = i + 1;
    }
    proof {
        assert(a@ =~= b@);
    }
    true
}

/// Whether `c` occurs in `s`.
pub open spec fn spec_contains_char(s: Seq<char>, c: char) -> bool {
    exists|i: int| 0 <= i < s.len() && s[i] == c
}

/// The comma-joined form of a list of strings, as the filter lists are
/// stored in the metadata store's export row.
pub open spec fn spec_join_comma(elems: Seq<Seq<char>>) -> Seq<char>
    decreases elems.len(),
{
    if elems.len() == 0 {
        Seq::empty()
    } else if elems.len() == 1 {
        elems[0]
    } else {
        spec_join_comma(elems.drop_last()) + seq![','] + elems[elems.len() - 1]
    }
}

pub fn join_comma(elems: &Vec<String>) -> (r: String)
    ensures
        r@ == spec_join_comma(elems.deep_view()),
{
    let mut r = String::new();
    let mut i: usize = 0;
    while i < elems.len()
        invariant
            i <= elems.len(),
            r@ == spec_join_comma(elems.deep_view().take(i as int)),
        decreases elems.len() - i,
    {
        if i > 0 {
            push_char(&mut r, ',');
        }
        r.append(elems[i].as_str());
        proof {
            let dv = elems.deep_view();
            assert(dv.take(i + 1).drop_last() =~= dv.take(i as int));
            assert(dv.take(i + 1)[i as int] == dv[i as int]);
        }
        i = i + 1;
    }
    proof {
        assert(elems.deep_view().take(elems.len() as int) =~= elems.deep_view());
    }
    r
}

} // verus!
