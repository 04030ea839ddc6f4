//! Derivation of destination identifiers from source collection and field
//! names: snake-casing, dot replacement, and the defensive prefix strip
//! that turns a dotted leaf path into a destination column name.
use vstd::prelude::*;
use vstd::string::*;
use vstd::utf8::is_ascii_chars;

use crate::text::{push_char, spec_contains_char};

verus! {

/// ASCII uppercase letter.
pub open spec fn spec_is_ascii_upper(c: char) -> bool {
    'A' <= c && c <= 'Z'
}

/// The ASCII lowercase counterpart of an ASCII uppercase letter; any other
/// character is left as it is.
pub open spec fn spec_ascii_lower(c: char) -> char {
    if spec_is_ascii_upper(c) {
        (((c as u32) + 32) as u8) as char
    } else {
        c
    }
}

/// What snake-casing emits for one character.
pub open spec fn spec_snake_char(c: char) -> Seq<char> {
    if spec_is_ascii_upper(c) {
        seq!['_', spec_ascii_lower(c)]
    } else {
        seq![c]
    }
}

/// Snake-cased form of a string: each ASCII uppercase letter becomes an
/// underscore followed by its lowercase form; other characters are kept.
pub open spec fn spec_snake_case(s: Seq<char>) -> Seq<char>
    decreases s.len(),
{
    if s.len() == 0 {
        Seq::empty()
    } else {
        spec_snake_case(s.drop_last()) + spec_snake_char(s.last())
    }
}

/// Relies on case_converter::camel_to_snake: for a string of ASCII
/// characters it turns each uppercase letter into an underscore followed
/// by the letter's lowercase form and keeps every other character.
#[verifier::external_body]
pub fn to_snake_case(s: &str) -> (r: String)
    ensures
        is_ascii_chars(s@) ==> r@ == spec_snake_case(s@),
{
    case_converter::camel_to_snake(s)
}

/// The string with every '.' replaced by '_'.
pub open spec fn spec_replace_dots(s: Seq<char>) -> Seq<char> {
    Seq::new(
        s.len(),
        |i: int|
            if s[i] == '.' {
                '_'
            } else {
                s[i]
            },
    )
}

pub fn replace_dots(s: &str) -> (r: String)
    ensures
        r@ == spec_replace_dots(s@),
{
    let n: usize = s.unicode_len();
    let mut r = String::new();
    let mut i: usize = 0;
    while i < n
        invariant
            i <= n,
            n == s@.len(),
            r@ =~= spec_replace_dots(s@).take(i as int),
        decreases n - i,
    {
        let c = s.get_char(i);
        if c == '.' {
            push_char(&mut r, '_');
        } else {
            push_char(&mut r, c);
        }
        proof {
            assert(r@ =~= spec_replace_dots(s@).take(i + 1));
        }
        i = i + 1;
    }
    proof {
        assert(spec_replace_dots(s@).take(s@.len() as int) =~= spec_replace_dots(s@));
    }
    r
}

/// Index of the first '.' in `s`, or `s.len()` when there is none.
pub open spec fn spec_first_dot(s: Seq<char>) -> int
    decreases s.len(),
{
    if s.len() == 0 {
        0
    } else if s[0] == '.' {
        0
    } else {
        1 + spec_first_dot(s.drop_first())
    }
}

pub proof fn lemma_first_dot_bounds(s: Seq<char>)
    ensures
        0 <= spec_first_dot(s) <= s.len(),
        forall|i: int| 0 <= i < spec_first_dot(s) ==> s[i] != '.',
        spec_first_dot(s) < s.len() ==> s[spec_first_dot(s)] == '.',
    decreases s.len(),
{
    if s.len() > 0 && s[0] != '.' {
        lemma_first_dot_bounds(s.drop_first());
        assert forall|i: int| 0 <= i < spec_first_dot(s) implies s[i] != '.' by {
            if i > 0 {
                assert(s.drop_first()[i - 1] == s[i]);
            }
        }
        if spec_first_dot(s) < s.len() {
            assert(s.drop_first()[spec_first_dot(s) - 1] == s[spec_first_dot(s)]);
        }
    }
}

/// Whether `path` starts with `coll` followed by a '.'.
pub open spec fn spec_has_coll_prefix(path: Seq<char>, coll: Seq<char>) -> bool {
    &&& path.len() >= coll.len() + 1
    &&& path.take(coll.len() as int + 1) == coll.push('.')
}

/// The field part of a leaf path: what remains after stripping the
/// collection prefix, or, defensively, after the first '.' when the path
/// does not carry the expected prefix; a path with no '.' stands for
/// itself.
pub open spec fn spec_field_part(path: Seq<char>, coll: Seq<char>) -> Seq<char> {
    if spec_has_coll_prefix(path, coll) {
        path.skip(coll.len() as int + 1)
    } else if spec_first_dot(path) < path.len() {
        path.skip(spec_first_dot(path) + 1)
    } else {
        path
    }
}

/// The destination column name derived from a collection name and a dotted
/// leaf path: the field part with dots replaced, snake-cased.
pub open spec fn spec_destination_field_name(coll: Seq<char>, path: Seq<char>) -> Seq<char> {
    spec_snake_case(spec_replace_dots(spec_field_part(path, coll)))
}

/// Derives the destination column name for one leaf path of a collection.
pub fn destination_field_name(collection: &str, path: &str) -> (r: String)
    ensures
        is_ascii_chars(path@) ==> r@ == spec_destination_field_name(collection@, path@),
{
    let clen: usize = collection.unicode_len();
    let plen: usize = path.unicode_len();
    let mut has_prefix: bool = false;
    if plen >= clen && plen - clen >= 1 {
        has_prefix = true;
        let mut i: usize = 0;
        while i < clen && has_prefix
            invariant
                i <= clen,
                clen == collection@.len(),
                plen == path@.len(),
                plen >= clen + 1,
                has_prefix ==> forall|j: int| 0 <= j < i ==> path@[j] == collection@[j],
                !has_prefix ==> !spec_has_coll_prefix(path@, collection@),
            decreases clen - i,
        {
            if path.get_char(i) != collection.get_char(i) {
                proof {
                    assert(path@.take(clen as int + 1)[i as int] == path@[i as int]);
                    assert(collection@.push('.')[i as int] == collection@[i as int]);
                }
                has_prefix = false;
            }
            i = i + 1;
        }
        if has_prefix {
            if path.get_char(clen) != '.' {
                proof {
                    assert(path@.take(clen as int + 1)[clen as int] == path@[clen as int]);
                    assert(collection@.push('.')[clen as int] == '.');
                }
                has_prefix = false;
            } else {
                proof {
                    assert(path@.take(clen as int + 1) =~= collection@.push('.'));
                }
            }
        }
    }
    proof {
        assert(has_prefix == spec_has_coll_prefix(path@, collection@));
    }
    let rest: &str = if has_prefix {
        let stripped = path.substring_char(clen + 1, plen);
        proof {
            assert(stripped@ =~= path@.skip(collection@.len() as int + 1));
        }
        stripped
    } else {
        let mut d: usize = 0;
        while d < plen && path.get_char(d) != '.'
            invariant
                d <= plen,
                plen == path@.len(),
                forall|j: int| 0 <= j < d ==> path@[j] != '.',
            decreases plen - d,
        {
            d = d + 1;
        }
        proof {
            lemma_first_dot_bounds(path@);
            assert(spec_first_dot(path@) == d) by {
                if spec_first_dot(path@) < d {
                    assert(path@[spec_first_dot(path@)] == '.');
                }
                if d < spec_first_dot(path@) {
                    assert(path@[d as int] == '.');
                }
            }
        }
        if d < plen {
            let tail = path.substring_char(d + 1, plen);
            proof {
                assert(tail@ =~= path@.skip(spec_first_dot(path@) + 1));
            }
            tail
        } else {
            path
        }
    };
    proof {
        assert(rest@ == spec_field_part(path@, collection@));
    }
    let replaced = replace_dots(rest);
    let r = to_snake_case(replaced.as_str());
    proof {
        if is_ascii_chars(path@) {
            assert(is_ascii_chars(rest@));
            assert(is_ascii_chars(replaced@)) by {
                assert(forall|i: int|
                    0 <= i < replaced@.len() ==> '\0' <= #[trigger] replaced@[i] <= '\u{7f}');
            }
        }
    }
    r
}

/// Snake-casing the field part never yields a '.': dot replacement removes
/// every dot, and snake-casing introduces only underscores and lowercase
/// letters.
pub proof fn lemma_snake_no_dot(s: Seq<char>)
    requires
        !spec_contains_char(s, '.'),
    ensures
        !spec_contains_char(spec_snake_case(s), '.'),
    decreases s.len(),
{
    if s.len() > 0 {
        assert(!spec_contains_char(s.drop_last(), '.')) by {
            assert(forall|i: int| 0 <= i < s.len() - 1 ==> s.drop_last()[i] == s[i]);
        }
        lemma_snake_no_dot(s.drop_last());
        assert(s.last() != '.');
        assert(spec_ascii_lower(s.last()) != '.') by {
            if spec_is_ascii_upper(s.last()) {
                assert('a' <= spec_ascii_lower(s.last()) <= 'z');
            }
        }
        assert(forall|i: int|
            0 <= i < spec_snake_case(s).len() ==> spec_snake_case(s)[i] != '.');
    }
}

pub proof fn lemma_replace_dots_no_dot(s: Seq<char>)
    ensures
        !spec_contains_char(spec_replace_dots(s), '.'),
{
}

/// The destination column name never contains a '.'.
pub proof fn lemma_destination_field_name_no_dot(coll: Seq<char>, path: Seq<char>)
    ensures
        !spec_contains_char(spec_destination_field_name(coll, path), '.'),
{
    lemma_replace_dots_no_dot(spec_field_part(path, coll));
    lemma_snake_no_dot(spec_replace_dots(spec_field_part(path, coll)));
}

/// Snake-casing leaves a string without ASCII uppercase letters unchanged.
pub proof fn lemma_snake_identity_on_lower(s: Seq<char>)
    requires
        forall|i: int| 0 <= i < s.len() ==> !spec_is_ascii_upper(#[trigger] s[i]),
    ensures
        spec_snake_case(s) == s,
    decreases s.len(),
{
    if s.len() == 0 {
        assert(spec_snake_case(s) =~= s);
    } else {
        assert(forall|i: int|
            0 <= i < s.len() - 1 ==> !spec_is_ascii_upper(#[trigger] s.drop_last()[i]));
        lemma_snake_identity_on_lower(s.drop_last());
        assert(!spec_is_ascii_upper(s.last()));
        assert(spec_snake_case(s) =~= s);
    }
}

/// The output of snake-casing holds no ASCII uppercase letter.
pub proof fn lemma_snake_output_lower(s: Seq<char>)
    ensures
        forall|i: int|
            0 <= i < spec_snake_case(s).len() ==> !spec_is_ascii_upper(
                #[trigger] spec_snake_case(s)[i],
            ),
    decreases s.len(),
{
    if s.len() > 0 {
        lemma_snake_output_lower(s.drop_last());
        let a = spec_snake_case(s.drop_last());
        let b = spec_snake_char(s.last());
        assert(!spec_is_ascii_upper('_'));
        assert(!spec_is_ascii_upper(spec_ascii_lower(s.last()))) by {
            if spec_is_ascii_upper(s.last()) {
                assert('a' <= spec_ascii_lower(s.last()) <= 'z');
            }
        }
        assert forall|i: int|
            0 <= i < spec_snake_case(s).len() implies !spec_is_ascii_upper(
            #[trigger] spec_snake_case(s)[i]) by {
            assert(spec_snake_case(s) == a + b);
            if i < a.len() {
                assert(spec_snake_case(s)[i] == a[i]);
            } else {
                assert(spec_snake_case(s)[i] == b[i - a.len()]);
            }
        }
    }
}

/// Snake-casing is idempotent.
pub proof fn lemma_snake_idempotent(s: Seq<char>)
    ensures
        spec_snake_case(spec_snake_case(s)) == spec_snake_case(s),
{
    lemma_snake_output_lower(s);
    lemma_snake_identity_on_lower(spec_snake_case(s));
}

/// Naming is idempotent: deriving a destination name from its own output,
/// re-prefixed with the collection, gives the output back.
pub proof fn lemma_destination_field_name_idempotent(coll: Seq<char>, path: Seq<char>)
    ensures
        spec_destination_field_name(
            coll,
            coll + seq!['.'] + spec_destination_field_name(coll, path),
        ) == spec_destination_field_name(coll, path),
{
    let name = spec_destination_field_name(coll, path);
    let path2 = coll + seq!['.'] + name;
    assert(spec_has_coll_prefix(path2, coll)) by {
        assert(path2.take(coll.len() as int + 1) =~= coll.push('.'));
    }
    assert(spec_field_part(path2, coll) =~= name);
    lemma_destination_field_name_no_dot(coll, path);
    assert(spec_replace_dots(name) =~= name) by {
        assert(forall|i: int| 0 <= i < name.len() ==> name[i] != '.');
    }
    lemma_snake_idempotent(spec_replace_dots(spec_field_part(path, coll)));
}

} // verus!
