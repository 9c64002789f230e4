//! Text helpers that the rest of the library is built on.
//!
//! Everything here speaks of strings by their view, a sequence of characters.

use vstd::prelude::*;

verus! {

/// `str::eq` of the standard library: two string slices are equal exactly when
/// they hold the same characters.
pub assume_specification[ <str as PartialEq>::eq ](a: &str, b: &str) -> (r: bool)
    ensures
        r == (a@ == b@),
;

/// `String::push` of the standard library: the character is appended to the end of the
/// text, and nothing else of the text changes.
pub assume_specification[ String::push ](text: &mut String, ch: char)
    ensures
        final(text)@ == old(text)@.push(ch),
;

/// The lowercase form of a text, as `str::to_lowercase` of the standard library gives it
/// (the Unicode lowercase mapping, which may change the number of characters).
pub uninterp spec fn lowercase(s: Seq<char>) -> Seq<char>;

/// `str::to_lowercase` of the standard library. The contract only names the result:
/// it says that the mapping depends on the characters alone.
#[verifier::external_body]
pub(crate) fn to_lowercase(s: &str) -> (r: String)
    ensures
        r@ == lowercase(s@),
{
    s.to_lowercase()
}

/// The uppercase form of a text, as `str::to_uppercase` of the standard library gives it
/// (the Unicode uppercase mapping, which may change the number of characters).
pub uninterp spec fn uppercase(s: Seq<char>) -> Seq<char>;

/// `str::to_uppercase` of the standard library. The contract only names the result:
/// it says that the mapping depends on the characters alone.
#[verifier::external_body]
pub(crate) fn to_uppercase(s: &str) -> (r: String)
    ensures
        r@ == uppercase(s@),
{
    s.to_uppercase()
}

/// How many characters of `s` lie up to and including the last `c`; zero if `c` does not occur.
pub open spec fn last_cut(s: Seq<char>, c: char) -> nat
    decreases s.len(),
{
    if s.len() == 0 {
        0
    } else if s.last() == c {
        s.len()
    } else {
        last_cut(s.drop_last(), c)
    }
}

/// What follows the last `c` in `s`; the whole of `s` if `c` does not occur.
pub open spec fn after_last(s: Seq<char>, c: char) -> Seq<char> {
    s.skip(last_cut(s, c) as int)
}

/// `needle` stands in `hay` at position `at`.
pub open spec fn occurs_at(needle: Seq<char>, hay: Seq<char>, at: int) -> bool {
    &&& 0 <= at
    &&& at + needle.len() <= hay.len()
    &&& hay.subrange(at, at + needle.len()) == needle
}

/// `needle` stands somewhere in `hay`. The empty text occurs in every text.
pub open spec fn occurs_in(needle: Seq<char>, hay: Seq<char>) -> bool {
    exists|at: int| occurs_at(needle, hay, at)
}

/// `s` begins with `prefix`.
pub open spec fn has_prefix(s: Seq<char>, prefix: Seq<char>) -> bool {
    prefix.len() <= s.len() && s.take(prefix.len() as int) == prefix
}

/// The last cut lies inside the text, just behind an occurrence of `c` if it is not zero,
/// and no `c` follows it.
pub proof fn lemma_last_cut(s: Seq<char>, c: char)
    ensures
        last_cut(s, c) <= s.len(),
        last_cut(s, c) > 0 ==> s[last_cut(s, c) - 1] == c,
        forall|j: int| last_cut(s, c) <= j < s.len() ==> s[j] != c,
        !s.contains(c) <==> last_cut(s, c) == 0,
    decreases s.len(),
{
    if s.len() == 0 {
    } else if s.last() == c {
        assert(s[s.len() - 1] == c);
    } else {
        let t = s.drop_last();
        lemma_last_cut(t, c);
        assert forall|j: int| last_cut(s, c) <= j < s.len() implies s[j] != c by {
            if j < t.len() {
                assert(t[j] == s[j]);
            }
        }
        if last_cut(t, c) > 0 {
            assert(t[last_cut(t, c) - 1] == s[last_cut(t, c) - 1]);
        } else {
            assert forall|j: int| 0 <= j < s.len() implies s[j] != c by {}
        }
    }
}

/// The characters of a string slice, in order.
pub fn chars_of(s: &str) -> (v: Vec<char>)
    ensures
        v@ == s@,
{
    let n = s.unicode_len();
    let mut v: Vec<char> = Vec::new();
    let mut i: usize = 0;
    while i < n
        invariant
            n == s@.len(),
            i <= n,
            v@ == s@.take(i as int),
        decreases n - i,
    {
        v.push(s.get_char(i));
        i += 1;
        assert(v@ =~= s@.take(i as int));
    }
    assert(s@.take(n as int) =~= s@);
    v
}

/// The part of `s` behind its last `c`, or all of `s` where `c` does not occur.
pub fn text_after_last(s: &str, c: char) -> (r: String)
    ensures
        r@ == after_last(s@, c),
{
    let chars = chars_of(s);
    let n = chars.len();
    let mut cut: usize = n;
    while cut > 0 && chars[cut - 1] != c
        invariant
            n == chars@.len(),
            cut <= n,
            forall|j: int| cut <= j < n ==> chars@[j] != c,
        decreases cut,
    {
        cut -= 1;
    }
    proof {
        lemma_cut_found(chars@, c, cut as int);
    }
    String::from_str(s.substring_char(cut, n))
}

/// A position with a `c` just before it and none behind it is the last cut;
/// so is zero where `c` does not occur at all.
proof fn lemma_cut_found(s: Seq<char>, c: char, cut: int)
    requires
        0 <= cut <= s.len(),
        cut > 0 ==> s[cut - 1] == c,
        forall|j: int| cut <= j < s.len() ==> s[j] != c,
    ensures
        last_cut(s, c) == cut,
        after_last(s, c) == s.subrange(cut, s.len() as int),
    decreases s.len(),
{
    if s.len() == 0 {
    } else if s.last() == c {
    } else {
        lemma_cut_found(s.drop_last(), c, cut);
    }
}

/// Whether `needle` occurs somewhere in `hay`.
pub fn text_contains(hay: &str, needle: &str) -> (r: bool)
    ensures
        r == occurs_in(needle@, hay@),
{
    let h = chars_of(hay);
    let n = chars_of(needle);
    let hl = h.len();
    let nl = n.len();
    if nl > hl {
        assert(!occurs_in(needle@, hay@));
        return false;
    }
    let last = hl - nl;
    let mut at: usize = 0;
    while at <= last
        invariant
            h@ == hay@,
            n@ == needle@,
            hl == h@.len(),
            nl == n@.len(),
            last == hl - nl,
            at <= last + 1,
            forall|k: int| 0 <= k < at ==> !occurs_at(n@, h@, k),
        decreases last + 1 - at,
    {
        let mut k: usize = 0;
        while k < nl && h[at + k] == n[k]
            invariant
                hl == h@.len(),
                nl == n@.len(),
                at <= last,
                last == hl - nl,
                k <= nl,
                forall|j: int| 0 <= j < k ==> h@[at + j] == n@[j],
            decreases nl - k,
        {
            k += 1;
        }
        if k == nl {
            assert(h@.subrange(at as int, at + n@.len()) =~= n@);
            assert(occurs_at(n@, h@, at as int));
            return true;
        }
        assert(!occurs_at(n@, h@, at as int)) by {
            if occurs_at(n@, h@, at as int) {
                assert(h@.subrange(at as int, at + n@.len())[k as int] == n@[k as int]);
            }
        }
        at += 1;
    }
    false
}

/// Whether `c` occurs in `s`.
pub fn text_has_char(s: &str, c: char) -> (r: bool)
    ensures
        r == s@.contains(c),
{
    let chars = chars_of(s);
    let mut i: usize = 0;
    while i < chars.len()
        invariant
            i <= chars.len(),
            chars@ == s@,
            forall|j: int| 0 <= j < i ==> chars@[j] != c,
        decreases chars.len() - i,
    {
        if chars[i] == c {
            assert(s@[i as int] == c);
            return true;
        }
        i += 1;
    }
    false
}

/// Whether `s` begins with `prefix`.
pub fn text_starts_with(s: &str, prefix: &str) -> (r: bool)
    ensures
        r == has_prefix(s@, prefix@),
{
    let n = prefix.unicode_len();
    if n > s.unicode_len() {
        return false;
    }
    s.substring_char(0, n).eq(prefix)
}

/// `s` without the `c`s at its end.
pub open spec fn trim_end(s: Seq<char>, c: char) -> Seq<char>
    decreases s.len(),
{
    if s.len() > 0 && s.last() == c {
        trim_end(s.drop_last(), c)
    } else {
        s
    }
}

/// `s` ends with `suffix`.
pub open spec fn has_suffix(s: Seq<char>, suffix: Seq<char>) -> bool {
    suffix.len() <= s.len() && s.skip(s.len() - suffix.len()) == suffix
}

/// `s` without the copies of `suffix` at its end. An empty suffix takes nothing away.
pub open spec fn trim_end_text(s: Seq<char>, suffix: Seq<char>) -> Seq<char>
    decreases s.len(),
{
    if suffix.len() > 0 && has_suffix(s, suffix) {
        trim_end_text(s.take(s.len() - suffix.len()), suffix)
    } else {
        s
    }
}

/// What stands before the last `c` in `s`; nothing where `c` does not occur.
pub open spec fn before_last(s: Seq<char>, c: char) -> Seq<char> {
    if last_cut(s, c) > 0 {
        s.take(last_cut(s, c) - 1)
    } else {
        Seq::empty()
    }
}

/// How many characters of `s` stand before the first `c`; all of them where `c` does not
/// occur.
pub open spec fn first_cut(s: Seq<char>, c: char) -> nat
    decreases s.len(),
{
    if s.len() == 0 || s[0] == c {
        0
    } else {
        1 + first_cut(s.drop_first(), c)
    }
}

/// The first cut lies inside the text or at its end, no `c` stands before it, and a `c`
/// stands at it unless it is the end.
pub proof fn lemma_first_cut(s: Seq<char>, c: char)
    ensures
        first_cut(s, c) <= s.len(),
        forall|j: int| 0 <= j < first_cut(s, c) ==> s[j] != c,
        first_cut(s, c) < s.len() ==> s[first_cut(s, c) as int] == c,
        s.contains(c) <==> first_cut(s, c) < s.len(),
    decreases s.len(),
{
    if s.len() == 0 {
    } else if s[0] == c {
    } else {
        let t = s.drop_first();
        lemma_first_cut(t, c);
        assert forall|j: int| 0 <= j < first_cut(s, c) implies s[j] != c by {
            if j > 0 {
                assert(t[j - 1] == s[j]);
            }
        }
        if first_cut(s, c) < s.len() {
            assert(t[first_cut(t, c) as int] == s[first_cut(s, c) as int]);
        }
        if s.contains(c) {
            let i = choose|i: int| 0 <= i < s.len() && s[i] == c;
            assert(t[i - 1] == c);
        }
    }
}

/// A position with no `c` before it and a `c` at it is the first cut; so is the end where
/// `c` does not occur at all.
proof fn lemma_first_cut_found(s: Seq<char>, c: char, cut: int)
    requires
        0 <= cut <= s.len(),
        forall|j: int| 0 <= j < cut ==> s[j] != c,
        cut < s.len() ==> s[cut] == c,
    ensures
        first_cut(s, c) == cut,
    decreases s.len(),
{
    if s.len() == 0 || s[0] == c {
    } else {
        let t = s.drop_first();
        assert forall|j: int| 0 <= j < cut - 1 implies t[j] != c by {
            assert(t[j] == s[j + 1]);
        }
        lemma_first_cut_found(t, c, cut - 1);
    }
}

/// `s` without the `c`s at its end.
pub fn text_trim_end(s: &str, c: char) -> (r: String)
    ensures
        r@ == trim_end(s@, c),
{
    let chars = chars_of(s);
    let mut end: usize = chars.len();
    assert(chars@.take(chars@.len() as int) =~= chars@);
    while end > 0 && chars[end - 1] == c
        invariant
            end <= chars@.len(),
            trim_end(chars@, c) == trim_end(chars@.take(end as int), c),
        decreases end,
    {
        let ghost whole = chars@.take(end as int);
        assert(whole.last() == c);
        assert(whole.drop_last() =~= chars@.take(end - 1));
        end -= 1;
    }
    proof {
        let rest = chars@.take(end as int);
        if end > 0 {
            assert(rest.last() != c);
        }
        assert(rest =~= s@.subrange(0, end as int));
    }
    assert(chars@.take(chars@.len() as int) =~= chars@);
    String::from_str(s.substring_char(0, end))
}

/// Whether `chars`, cut at `end`, ends with `suffix`.
fn ends_with_at(chars: &Vec<char>, end: usize, suffix: &Vec<char>) -> (r: bool)
    requires
        end <= chars@.len(),
    ensures
        r == has_suffix(chars@.take(end as int), suffix@),
{
    let n = suffix.len();
    if n > end {
        return false;
    }
    let start = end - n;
    let ghost s = chars@.take(end as int);
    let mut k: usize = 0;
    while k < n
        invariant
            k <= n,
            n == suffix@.len(),
            start + n == end,
            end <= chars@.len(),
            s == chars@.take(end as int),
            forall|j: int| 0 <= j < k ==> chars@[start + j] == suffix@[j],
        decreases n - k,
    {
        if chars[start + k] != suffix[k] {
            assert(s.skip(s.len() - suffix@.len())[k as int] != suffix@[k as int]);
            return false;
        }
        k += 1;
    }
    assert(s.skip(s.len() - suffix@.len()) =~= suffix@);
    true
}

/// `s` without the copies of `suffix` at its end.
pub fn text_trim_end_text(s: &str, suffix: &str) -> (r: String)
    ensures
        r@ == trim_end_text(s@, suffix@),
{
    let chars = chars_of(s);
    let tail = chars_of(suffix);
    let mut end: usize = chars.len();
    assert(chars@.take(end as int) =~= chars@);
    if tail.len() == 0 {
        return String::from_str(s);
    }
    while ends_with_at(&chars, end, &tail)
        invariant
            end <= chars@.len(),
            tail@.len() > 0,
            trim_end_text(chars@, tail@) == trim_end_text(chars@.take(end as int), tail@),
        decreases end,
    {
        let ghost whole = chars@.take(end as int);
        assert(whole.take(whole.len() - tail@.len()) =~= chars@.take(end - tail@.len()));
        end -= tail.len();
    }
    assert(chars@.take(end as int) =~= s@.subrange(0, end as int));
    String::from_str(s.substring_char(0, end))
}

/// What stands before the last `c` in `s` and what follows it; nothing where `c` does not
/// occur.
pub fn text_split_last(s: &str, c: char) -> (r: Option<(String, String)>)
    ensures
        match r {
            Some((before, after)) => s@.contains(c) && before@ == before_last(s@, c) && after@
                == after_last(s@, c),
            None => !s@.contains(c),
        },
{
    let chars = chars_of(s);
    let n = chars.len();
    let mut cut: usize = n;
    while cut > 0 && chars[cut - 1] != c
        invariant
            n == chars@.len(),
            cut <= n,
            forall|j: int| cut <= j < n ==> chars@[j] != c,
        decreases cut,
    {
        cut -= 1;
    }
    proof {
        lemma_cut_found(chars@, c, cut as int);
        lemma_last_cut(chars@, c);
    }
    if cut == 0 {
        None
    } else {
        let before = String::from_str(s.substring_char(0, cut - 1));
        let after = String::from_str(s.substring_char(cut, n));
        assert(before@ =~= before_last(s@, c));
        Some((before, after))
    }
}

/// What stands before the first `c` in `s` and what follows it; nothing where `c` does not
/// occur.
pub fn text_split_first(s: &str, c: char) -> (r: Option<(String, String)>)
    ensures
        match r {
            Some((before, after)) => s@.contains(c) && before@ == s@.take(first_cut(s@, c) as int)
                && after@ == s@.skip(first_cut(s@, c) as int + 1),
            None => !s@.contains(c),
        },
{
    let chars = chars_of(s);
    let n = chars.len();
    let mut cut: usize = 0;
    while cut < n && chars[cut] != c
        invariant
            n == chars@.len(),
            cut <= n,
            forall|j: int| 0 <= j < cut ==> chars@[j] != c,
        decreases n - cut,
    {
        cut += 1;
    }
    proof {
        lemma_first_cut_found(chars@, c, cut as int);
        lemma_first_cut(chars@, c);
    }
    if cut == n {
        None
    } else {
        let before = String::from_str(s.substring_char(0, cut));
        let after = String::from_str(s.substring_char(cut + 1, n));
        assert(before@ =~= s@.take(cut as int));
        assert(after@ =~= s@.skip(cut + 1));
        Some((before, after))
    }
}

/// The character of a decimal digit.
pub open spec fn digit(d: nat) -> char {
    if d == 0 {
        '0'
    } else if d == 1 {
        '1'
    } else if d == 2 {
        '2'
    } else if d == 3 {
        '3'
    } else if d == 4 {
        '4'
    } else if d == 5 {
        '5'
    } else if d == 6 {
        '6'
    } else if d == 7 {
        '7'
    } else if d == 8 {
        '8'
    } else {
        '9'
    }
}

/// The decimal digits of a number, the most significant first, without leading zeros.
pub open spec fn decimal(n: nat) -> Seq<char>
    decreases n,
{
    if n < 10 {
        seq![digit(n)]
    } else {
        decimal(n / 10).push(digit(n % 10))
    }
}

/// The text of one decimal digit.
fn digit_text(d: u64) -> (r: &'static str)
    requires
        d < 10,
    ensures
        r@ == seq![digit(d as nat)],
{
    proof {
        reveal_strlit("0");
        reveal_strlit("1");
        reveal_strlit("2");
        reveal_strlit("3");
        reveal_strlit("4");
        reveal_strlit("5");
        reveal_strlit("6");
        reveal_strlit("7");
        reveal_strlit("8");
        reveal_strlit("9");
    }
    let r = if d == 0 {
        "0"
    } else if d == 1 {
        "1"
    } else if d == 2 {
        "2"
    } else if d == 3 {
        "3"
    } else if d == 4 {
        "4"
    } else if d == 5 {
        "5"
    } else if d == 6 {
        "6"
    } else if d == 7 {
        "7"
    } else if d == 8 {
        "8"
    } else {
        "9"
    };
    assert(r@ =~= seq![digit(d as nat)]);
    r
}

/// The number in decimal digits.
pub fn decimal_text(n: u64) -> (r: String)
    ensures
        r@ == decimal(n as nat),
    decreases n,
{
    if n < 10 {
        String::from_str(digit_text(n))
    } else {
        let lead = decimal_text(n / 10);
        let ghost before = lead@;
        let r = lead.concat(digit_text(n % 10));
        assert(r@ =~= before.push(digit((n % 10) as nat)));
        r
    }
}

} // verus!
