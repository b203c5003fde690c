//! Character-level text helpers used by the resolution and reply logic.
use vstd::prelude::*;
use vstd::std_specs::iter::IteratorSpec;
use vstd::string::StringExecFns;

verus! {

broadcast use vstd::string::group_string_axioms;

/// `pat` occurs in `s` starting at position `i`.
pub open spec fn occurs_at(s: Seq<char>, pat: Seq<char>, i: int) -> bool {
    0 <= i && i + pat.len() <= s.len() && s.subrange(i, i + pat.len()) == pat
}

/// `pat` occurs somewhere in `s` (the empty pattern occurs in every text).
pub open spec fn contains(s: Seq<char>, pat: Seq<char>) -> bool {
    exists|i: int| occurs_at(s, pat, i)
}

/// `s` begins with `pat`.
pub open spec fn starts_with(s: Seq<char>, pat: Seq<char>) -> bool {
    occurs_at(s, pat, 0)
}

/// The lower-case form of a text, as the standard library's `str::to_lowercase`
/// computes it.
pub uninterp spec fn lowercase(s: Seq<char>) -> Seq<char>;

/// Calls `str::to_lowercase`. The contract only names its result: the result
/// is `lowercase` of the argument; the Unicode case tables are not restated.
#[verifier::external_body]
pub(crate) fn to_lowercase(s: &str) -> (r: String)
    ensures
        r@ == lowercase(s@),
{
    s.to_lowercase()
}

/// Calls `String::push`, which appends one character.
#[verifier::external_body]
pub(crate) fn push_char(s: &mut String, c: char)
    ensures
        final(s)@ == old(s)@.push(c),
{
    s.push(c);
}

/// The text made of the characters `v[from..to]`.
pub fn string_from_chars(v: &Vec<char>, from: usize, to: usize) -> (r: String)
    requires
        from <= to <= v@.len(),
    ensures
        r@ == v@.subrange(from as int, to as int),
{
    let mut r = String::new();
    let mut k = from;
    while k < to
        invariant
            from <= k <= to <= v@.len(),
            r@ == v@.subrange(from as int, k as int),
        decreases to - k,
    {
        push_char(&mut r, v[k]);
        assert(v@.subrange(from as int, k + 1) =~= v@.subrange(from as int, k as int).push(v@[k as int]));
        k = k + 1;
    }
    r
}

/// Position `i` of `s` holds `c`, and no earlier position does.
pub open spec fn is_first_index(s: Seq<char>, c: char, i: int) -> bool {
    &&& 0 <= i < s.len()
    &&& s[i] == c
    &&& forall|j: int| 0 <= j < i ==> s[j] != c
}

/// The first position of `c` in `s`, if it occurs.
pub open spec fn first_index(s: Seq<char>, c: char) -> Option<int> {
    if exists|i: int| is_first_index(s, c, i) {
        Some(choose|i: int| is_first_index(s, c, i))
    } else {
        None
    }
}

/// The first position of `c` in `v` at or after `start`, if any.
pub fn find_char_from(v: &Vec<char>, c: char, start: usize) -> (r: Option<usize>)
    requires
        start <= v@.len(),
    ensures
        match r {
            Some(i) => start <= i < v@.len() && v@[i as int] == c && forall|j: int|
                start <= j < i ==> v@[j] != c,
            None => forall|j: int| start <= j < v@.len() ==> v@[j] != c,
        },
{
    let mut i = start;
    while i < v.len()
        invariant
            start <= i <= v@.len(),
            forall|j: int| start <= j < i ==> v@[j] != c,
        decreases v@.len() - i,
    {
        if v[i] == c {
            return Some(i);
        }
        i = i + 1;
    }
    None
}

/// `first_index` agrees with a position found by a search from the start.
pub proof fn lemma_first_index(s: Seq<char>, c: char, found: Option<usize>)
    requires
        match found {
            Some(i) => 0 <= i < s.len() && s[i as int] == c && forall|j: int|
                0 <= j < i ==> s[j] != c,
            None => forall|j: int| 0 <= j < s.len() ==> s[j] != c,
        },
    ensures
        match found {
            Some(i) => first_index(s, c) == Some(i as int),
            None => first_index(s, c) is None,
        },
{
    match found {
        Some(i) => {
            assert(is_first_index(s, c, i as int));
            let k = choose|k: int| is_first_index(s, c, k);
            if k < i {
                assert(s[k] != c);
            }
            if i < k {
                assert(s[i as int] != c);
            }
        },
        None => {
            if exists|k: int| is_first_index(s, c, k) {
                let k = choose|k: int| is_first_index(s, c, k);
                assert(s[k] == c);
            }
        },
    }
}

/// A window title addresses a label when, both lower-cased, the title equals
/// the label or contains it.
pub open spec fn title_matches(title: Seq<char>, label: Seq<char>) -> bool {
    lowercase(title) == lowercase(label) || contains(lowercase(title), lowercase(label))
}

/// The characters of `s`, in order.
pub fn chars_of(s: &str) -> (v: Vec<char>)
    ensures
        v@ == s@,
{
    let mut it = s.chars();
    let mut v: Vec<char> = Vec::new();
    loop
        invariant
            v@ + it.remaining() == s@,
            it.decrease() is Some,
        ensures
            v@ == s@,
        decreases it.decrease()->0,
    {
        match it.next() {
            Some(c) => {
                v.push(c);
            },
            None => {
                break ;
            },
        }
    }
    v
}

/// Whether `pat` occurs in `s` at position `i`.
fn occurs_at_exec(s: &Vec<char>, pat: &Vec<char>, i: usize) -> (r: bool)
    requires
        i + pat@.len() <= s@.len(),
    ensures
        r == occurs_at(s@, pat@, i as int),
{
    let n = s.len();
    let mut k: usize = 0;
    while k < pat.len()
        invariant
            k <= pat@.len(),
            n == s@.len(),
            i + pat@.len() <= n,
            forall|m: int| 0 <= m < k ==> s@[i + m] == pat@[m],
        decreases pat@.len() - k,
    {
        if s[i + k] != pat[k] {
            assert(s@.subrange(i as int, i + pat@.len())[k as int] != pat@[k as int]);
            return false;
        }
        k = k + 1;
    }
    assert(s@.subrange(i as int, i + pat@.len()) =~= pat@);
    true
}

/// Whether two character sequences are equal.
pub fn chars_equal(a: &Vec<char>, b: &Vec<char>) -> (r: bool)
    ensures
        r == (a@ == b@),
{
    if a.len() != b.len() {
        return false;
    }
    let r = occurs_at_exec(a, b, 0);
    proof {
        if r {
            assert(a@.subrange(0, b@.len() as int) =~= a@);
        } else {
            if a@ == b@ {
                assert(a@.subrange(0, b@.len() as int) =~= a@);
            }
        }
    }
    r
}

/// Whether two texts are equal.
pub fn str_equal(a: &str, b: &str) -> (r: bool)
    ensures
        r == (a@ == b@),
{
    let va = chars_of(a);
    let vb = chars_of(b);
    chars_equal(&va, &vb)
}

/// Whether `pat` occurs in `s`.
pub fn chars_contain(s: &Vec<char>, pat: &Vec<char>) -> (r: bool)
    ensures
        r == contains(s@, pat@),
{
    if pat.len() > s.len() {
        return false;
    }
    let last = s.len() - pat.len();
    let mut i: usize = 0;
    loop
        invariant
            last == s@.len() - pat@.len(),
            pat@.len() <= s@.len(),
            i <= last,
            forall|j: int| 0 <= j < i ==> !occurs_at(s@, pat@, j),
        decreases last - i,
    {
        if occurs_at_exec(s, pat, i) {
            return true;
        }
        if i == last {
            return false;
        }
        i = i + 1;
    }
}

/// Whether `pat` occurs in `s`.
pub fn str_contains(s: &str, pat: &str) -> (r: bool)
    ensures
        r == contains(s@, pat@),
{
    let vs = chars_of(s);
    let vp = chars_of(pat);
    chars_contain(&vs, &vp)
}

/// Whether `s` begins with `pat`.
pub fn str_starts_with(s: &str, pat: &str) -> (r: bool)
    ensures
        r == starts_with(s@, pat@),
{
    let vs = chars_of(s);
    let vp = chars_of(pat);
    if vp.len() > vs.len() {
        return false;
    }
    occurs_at_exec(&vs, &vp, 0)
}

/// Whether a window title addresses a label whose lower-case form is
/// `label_lower`.
pub fn title_addresses(title: &str, label_lower: &str) -> (r: bool)
    ensures
        r == (lowercase(title@) == label_lower@ || contains(lowercase(title@), label_lower@)),
{
    let title_lower = to_lowercase(title);
    let t = chars_of(title_lower.as_str());
    let l = chars_of(label_lower);
    chars_equal(&t, &l) || chars_contain(&t, &l)
}

/// Every text contains itself.
pub proof fn lemma_contains_self(s: Seq<char>)
    ensures
        contains(s, s),
{
    assert(s.subrange(0, s.len() as int) =~= s);
    assert(occurs_at(s, s, 0));
}

} // verus!
