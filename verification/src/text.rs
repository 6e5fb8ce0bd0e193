//! Character-level string building shared by the formatting code.
use vstd::prelude::*;
use vstd::string::*;

verus! {

/// `String::push` appends one character, as std documents.
pub assume_specification[ String::push ](s: &mut String, ch: char)
    ensures
        final(s)@ == old(s)@.push(ch),
;

/// The characters of `s`, in order.
pub fn chars_of(s: &str) -> (r: Vec<char>)
    ensures
        r@ == s@,
{
    let mut out: Vec<char> = Vec::new();
    for c in it: s.chars()
        invariant
            out@ == it.seq().take(it.index() as int),
    {
        out.push(c);
    }
    out
}


/// Whether `a` and `b` hold the same characters.
pub fn same_text(a: &str, b: &str) -> (r: bool)
    ensures
        r == (a@ == b@),
{
    let x = chars_of(a);
    let y = chars_of(b);
    if x.len() != y.len() {
        return false;
    }
    let mut i: usize = 0;
    while i < x.len()
        invariant
            i <= x@.len() == y@.len(),
            x@ == a@,
            y@ == b@,
            forall|j: int| 0 <= j < i ==> x@[j] == y@[j],
        decreases x@.len() - i,
    {
        if x[i] != y[i] {
            return false;
        }
        i = i + 1;
    }
    assert(a@ =~= b@);
    true
}


/// Whether `s` begins with `prefix`.
pub open spec fn spec_has_prefix(s: Seq<char>, prefix: Seq<char>) -> bool {
    prefix.len() <= s.len() && s.take(prefix.len() as int) == prefix
}

/// Whether `s` ends with `suffix`.
pub open spec fn spec_has_suffix(s: Seq<char>, suffix: Seq<char>) -> bool {
    suffix.len() <= s.len() && s.skip(s.len() - suffix.len()) == suffix
}

/// Whether `s` begins with `prefix`.
pub fn has_prefix(s: &[char], prefix: &[char]) -> (r: bool)
    ensures
        r == spec_has_prefix(s@, prefix@),
{
    if prefix.len() > s.len() {
        return false;
    }
    let mut i: usize = 0;
    while i < prefix.len()
        invariant
            i <= prefix@.len() <= s@.len(),
            forall|j: int| 0 <= j < i ==> s@[j] == prefix@[j],
        decreases prefix@.len() - i,
    {
        if s[i] != prefix[i] {
            assert(s@.take(prefix@.len() as int)[i as int] != prefix@[i as int]);
            return false;
        }
        i = i + 1;
    }
    assert(s@.take(prefix@.len() as int) =~= prefix@);
    true
}

/// Whether `s` ends with `suffix`.
pub fn has_suffix(s: &[char], suffix: &[char]) -> (r: bool)
    ensures
        r == spec_has_suffix(s@, suffix@),
{
    if suffix.len() > s.len() {
        return false;
    }
    let n = s.len();
    let start = n - suffix.len();
    let mut i: usize = 0;
    while i < suffix.len()
        invariant
            i <= suffix@.len() <= s@.len(),
            start == s@.len() - suffix@.len(),
            start + suffix@.len() == s@.len(),
            s@.len() == n,
            forall|j: int| 0 <= j < i ==> s@[start + j] == suffix@[j],
        decreases suffix@.len() - i,
    {
        if s[start + i] != suffix[i] {
            assert(s@.skip(start as int)[i as int] != suffix@[i as int]);
            return false;
        }
        i = i + 1;
    }
    assert(s@.skip(start as int) =~= suffix@);
    true
}


/// The decimal digit character for `d` (0..10).
pub open spec fn digit_char(d: nat) -> char {
    (48 + d) as char
}

/// `n` in decimal, without separators.
pub open spec fn spec_decimal(n: nat) -> Seq<char>
    decreases n,
{
    if n < 10 {
        seq![digit_char(n)]
    } else {
        spec_decimal(n / 10).push(digit_char(n % 10))
    }
}

fn digit(d: u64) -> (c: char)
    requires
        d < 10,
    ensures
        c == digit_char(d as nat),
{
    ((48 + d) as u8) as char
}

/// `n` in decimal, without separators.
pub fn decimal(n: u64) -> (r: String)
    ensures
        r@ == spec_decimal(n as nat),
    decreases n,
{
    if n < 10 {
        let mut s = String::new();
        s.push(digit(n));
        s
    } else {
        let mut s = decimal(n / 10);
        s.push(digit(n % 10));
        s
    }
}


/// The lowercase form of a string, as `str::to_lowercase` maps it
/// (Unicode lowercase mapping, character by character, with its special
/// cases).
pub uninterp spec fn lowercase(s: Seq<char>) -> Seq<char>;

/// Lowercases `s` with `str::to_lowercase`. Claimed: the result is
/// `lowercase` of `s`, which depends on the characters of `s` alone.
#[verifier::external_body]
pub(crate) fn to_lowercase(s: &str) -> (r: String)
    ensures
        r@ == lowercase(s@),
{
    s.to_lowercase()
}

/// `needle` occurs in `hay` as a contiguous run.
pub open spec fn spec_contains(hay: Seq<char>, needle: Seq<char>) -> bool {
    exists|k: int| 0 <= k && k + needle.len() <= hay.len() && #[trigger] hay.subrange(k, k + needle.len()) == needle
}

/// Whether `needle` occurs in `hay`.
pub fn contains_text(hay: &Vec<char>, needle: &Vec<char>) -> (r: bool)
    ensures
        r == spec_contains(hay@, needle@),
{
    if needle.len() > hay.len() {
        return false;
    }
    if needle.len() == 0 {
        assert(hay@.subrange(0int, 0int + needle@.len()) =~= needle@);
        return true;
    }
    let n = hay.len();
    let last = n - needle.len();
    let mut k: usize = 0;
    while k <= last
        invariant
            last + needle@.len() == hay@.len(),
            n == hay@.len(),
            needle@.len() >= 1,
            k <= last + 1,
            forall|p: int| 0 <= p < k ==> #[trigger] hay@.subrange(p, p + needle@.len()) != needle@,
        decreases last + 1 - k,
    {
        let mut i: usize = 0;
        let mut same = true;
        while i < needle.len()
            invariant
                i <= needle@.len(),
                k <= last,
                last + needle@.len() == hay@.len(),
                n == hay@.len(),
                same == forall|q: int| 0 <= q < i ==> hay@[k + q] == needle@[q],
            decreases needle@.len() - i,
        {
            if hay[k + i] != needle[i] {
                same = false;
            }
            i = i + 1;
        }
        if same {
            assert(hay@.subrange(k as int, k + needle@.len()) =~= needle@);
            return true;
        }
        proof {
            let j = choose|q: int| 0 <= q < needle@.len() && hay@[k + q] != needle@[q];
            assert(hay@.subrange(k as int, k + needle@.len())[j] != needle@[j]);
        }
        k = k + 1;
    }
    proof {
        assert forall|p: int| 0 <= p && p + needle@.len() <= hay@.len() implies #[trigger] hay@.subrange(p, p + needle@.len()) != needle@ by {
            assert(p < k);
        }
    }
    false
}

} // verus!
