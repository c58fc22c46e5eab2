//! Names and paths as text.

use vstd::prelude::*;

verus! {

/// The characters with Unicode's White_Space property.
pub open spec fn is_white_space(c: char) -> bool {
    let u = c as u32;
    ||| 0x9 <= u <= 0xd
    ||| u == 0x20
    ||| u == 0x85
    ||| u == 0xa0
    ||| u == 0x1680
    ||| 0x2000 <= u <= 0x200a
    ||| u == 0x2028
    ||| u == 0x2029
    ||| u == 0x202f
    ||| u == 0x205f
    ||| u == 0x3000
}

/// A name is blank when nothing is left of it once white space is trimmed.
pub open spec fn is_blank_name(s: Seq<char>) -> bool {
    forall|i: int| 0 <= i < s.len() ==> #[trigger] is_white_space(s[i])
}

/// Relies on char::is_whitespace: true exactly for the characters with the
/// White_Space property.
#[verifier::external_body]
fn char_is_white_space(c: char) -> (r: bool)
    ensures
        r == is_white_space(c),
{
    c.is_whitespace()
}

/// Whether `name` is empty or made of white space alone, so that trimming it
/// leaves nothing.
pub fn is_blank(name: &str) -> (r: bool)
    ensures
        r == is_blank_name(name@),
{
    let n = name.unicode_len();
    let mut i: usize = 0;
    while i < n
        invariant
            n == name@.len(),
            i <= n,
            forall|j: int| 0 <= j < i ==> #[trigger] is_white_space(name@[j]),
        decreases n - i,
    {
        let c = name.get_char(i);
        if !char_is_white_space(c) {
            return false;
        }
        i = i + 1;
    }
    true
}

/// The path separator.
pub open spec fn separator() -> char {
    '/'
}

/// `segment` appended to `base`, with one separator between them unless
/// `base` is empty or already ends with one.
pub open spec fn path_join(base: Seq<char>, segment: Seq<char>) -> Seq<char> {
    if base.len() == 0 || base.last() == separator() {
        base + segment
    } else {
        base.push(separator()) + segment
    }
}

/// The index of the last separator in `p`, or -1 when it has none.
pub open spec fn last_separator(p: Seq<char>) -> int
    decreases p.len(),
{
    if p.len() == 0 {
        -1
    } else if p.last() == separator() {
        p.len() - 1
    } else {
        last_separator(p.drop_last())
    }
}

/// The directory that holds `p`: the text before its last separator, the root
/// when that separator comes first, and nothing when `p` has no separator.
pub open spec fn path_parent(p: Seq<char>) -> Seq<char> {
    let k = last_separator(p);
    if k < 0 {
        Seq::empty()
    } else if k == 0 {
        seq![separator()]
    } else {
        p.subrange(0, k)
    }
}

/// Joins `segment` onto `base`.
pub fn join_path(base: &str, segment: &str) -> (r: String)
    ensures
        r@ == path_join(base@, segment@),
{
    let n = base.unicode_len();
    let mut r = String::from_str(base);
    if n > 0 && base.get_char(n - 1) != '/' {
        r.append("/");
        proof {
            reveal_strlit("/");
        }
    }
    r.append(segment);
    r
}

/// The directory that holds `p`.
pub fn parent_path(p: &str) -> (r: String)
    ensures
        r@ == path_parent(p@),
{
    let n = p.unicode_len();
    let mut i: usize = n;
    assert(p@.subrange(0, n as int) =~= p@);
    while i > 0 && p.get_char(i - 1) != '/'
        invariant
            n == p@.len(),
            i <= n,
            last_separator(p@) == last_separator(p@.subrange(0, i as int)),
        decreases i,
    {
        assert(p@.subrange(0, i as int).drop_last() =~= p@.subrange(0, i - 1));
        i = i - 1;
    }
    if i == 0 {
        assert(p@.subrange(0, 0) =~= Seq::<char>::empty());
        String::new()
    } else {
        assert(p@.subrange(0, i as int).last() == '/');
        if i == 1 {
            proof {
                reveal_strlit("/");
            }
            assert("/"@ =~= seq![separator()]);
            String::from_str("/")
        } else {
            String::from_str(p.substring_char(0, i - 1))
        }
    }
}

/// The texts of a list of strings.
pub open spec fn texts(v: Seq<String>) -> Seq<Seq<char>> {
    v.map_values(|s: String| s@)
}

/// A copy of a list of strings.
pub fn copy_strings(v: &Vec<String>) -> (r: Vec<String>)
    ensures
        texts(r@) == texts(v@),
{
    let mut r: Vec<String> = Vec::new();
    let mut i: usize = 0;
    while i < v.len()
        invariant
            i <= v@.len(),
            r@.len() == i,
            forall|j: int| 0 <= j < i ==> #[trigger] r@[j]@ == v@[j]@,
        decreases v@.len() - i,
    {
        let s = v[i].clone();
        r.push(s);
        i = i + 1;
    }
    assert(texts(r@) =~= texts(v@));
    r
}

} // verus!
