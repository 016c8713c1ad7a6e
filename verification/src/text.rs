//! Small verified operations on strings, stated over their character
//! sequences.

use vstd::prelude::*;
use vstd::string::*;

verus! {

/// View of an optional text.
pub open spec fn text_view(text: Option<&str>) -> Option<Seq<char>> {
    match text {
        Some(t) => Some(t@),
        None => None,
    }
}

/// `s` without every leading repetition of `pat`; `s` itself where `pat` is
/// empty.
pub open spec fn without_leading(s: Seq<char>, pat: Seq<char>) -> Seq<char>
    decreases s.len(),
{
    if pat.len() > 0 && pat.is_prefix_of(s) {
        without_leading(s.skip(pat.len() as int), pat)
    } else {
        s
    }
}

/// The characters of `s`, in order.
pub fn chars_of(s: &str) -> (r: Vec<char>)
    ensures
        r@ == s@,
{
    let mut out: Vec<char> = Vec::new();
    for c in it: s.chars()
        invariant
            it.seq() == s@,
            out@ == s@.take(it.index() as int),
    {
        out.push(c);
    }
    assert(out@ == s@);
    out
}

/// Whether `pat` stands in `s` at position `at`.
pub open spec fn occurs_at(s: Seq<char>, pat: Seq<char>, at: int) -> bool {
    0 <= at && at + pat.len() <= s.len() && s.subrange(at, at + pat.len()) == pat
}

/// Tests whether `pat` stands in `s` at position `at`.
pub fn matches_at(s: &Vec<char>, pat: &Vec<char>, at: usize) -> (r: bool)
    ensures
        r == occurs_at(s@, pat@, at as int),
{
    if at > s.len() || pat.len() > s.len() - at {
        return false;
    }
    let mut k: usize = 0;
    while k < pat.len()
        invariant
            at + pat.len() <= s.len(),
            k <= pat.len(),
            forall|j: int| 0 <= j < k ==> s@[at + j] == pat@[j],
        decreases pat.len() - k,
    {
        if s[at + k] != pat[k] {
            assert(s@.subrange(at as int, at + pat.len())[k as int] != pat@[k as int]);
            return false;
        }
        k += 1;
    }
    assert(s@.subrange(at as int, at + pat.len()) =~= pat@);
    true
}

/// `s` without every leading repetition of `pat`.
pub fn strip_leading(s: &str, pat: &str) -> (r: String)
    ensures
        r@ == without_leading(s@, pat@),
{
    let sc = chars_of(s);
    let pc = chars_of(pat);
    let n = sc.len();
    let mut i: usize = 0;
    assert(s@.skip(0) =~= s@);
    if pc.len() > 0 {
        while matches_at(&sc, &pc, i)
            invariant
                sc@ == s@,
                pc@ == pat@,
                pc.len() > 0,
                n == sc.len(),
                i <= n,
                without_leading(s@, pat@) == without_leading(s@.skip(i as int), pat@),
            decreases n - i,
        {
            proof {
                let rest = s@.skip(i as int);
                assert(rest.subrange(0, pat@.len() as int) =~= s@.subrange(
                    i as int,
                    i + pat@.len(),
                ));
                assert(pat@.is_prefix_of(rest));
                assert(rest.skip(pat@.len() as int) =~= s@.skip(i + pat@.len()));
            }
            i += pc.len();
        }
        proof {
            let rest = s@.skip(i as int);
            if pat@.is_prefix_of(rest) {
                assert(rest.subrange(0, pat@.len() as int) =~= s@.subrange(
                    i as int,
                    i + pat@.len(),
                ));
                assert(false);
            }
        }
    }
    proof {
        assert(s@.skip(i as int) =~= s@.subrange(i as int, n as int));
    }
    s.substring_char(i, n).to_owned()
}

/// Whether `pat` stands somewhere in `s`.
pub open spec fn has_substring(s: Seq<char>, pat: Seq<char>) -> bool {
    exists|at: int| occurs_at(s, pat, at)
}

/// Tests whether `pat` stands somewhere in `s`.
pub fn contains(s: &str, pat: &str) -> (r: bool)
    ensures
        r == has_substring(s@, pat@),
{
    let sc = chars_of(s);
    let pc = chars_of(pat);
    if pc.len() > sc.len() {
        assert forall|at: int| !occurs_at(s@, pat@, at) by {}
        return false;
    }
    let last = sc.len() - pc.len();
    let mut i: usize = 0;
    while i < last
        invariant
            sc@ == s@,
            pc@ == pat@,
            last == sc.len() - pc.len(),
            i <= last,
            forall|at: int| 0 <= at < i ==> !occurs_at(s@, pat@, at),
        decreases last - i,
    {
        if matches_at(&sc, &pc, i) {
            return true;
        }
        i += 1;
    }
    let found = matches_at(&sc, &pc, last);
    if !found {
        assert forall|at: int| !occurs_at(s@, pat@, at) by {}
    }
    found
}

/// The lower-case form of a text, as `str::to_lowercase` gives it.
pub uninterp spec fn lowercase(s: Seq<char>) -> Seq<char>;

/// Calls std's `str::to_lowercase`. The contract only names the result: it
/// is the lower-case form of the argument, a function of its characters.
#[verifier::external_body]
pub(crate) fn to_lowercase(s: &str) -> (r: String)
    ensures
        r@ == lowercase(s@),
{
    s.to_lowercase()
}

/// The character of a decimal digit.
pub open spec fn digit_char(d: int) -> char {
    if d == 0 {
        '0'
    } else if d == 1 {
        '1'
    } else if d == 2 {
        '2'
    } else if d == 3 {
        '3'
    } else if d == 4 {
        '4'
    } else if d == 5 {
        '5'
    } else if d == 6 {
        '6'
    } else if d == 7 {
        '7'
    } else if d == 8 {
        '8'
    } else {
        '9'
    }
}

/// The decimal numeral of a number, without leading zeros.
pub open spec fn decimal(n: nat) -> Seq<char>
    decreases n,
{
    if n < 10 {
        seq![digit_char(n as int)]
    } else {
        decimal(n / 10).push(digit_char((n % 10) as int))
    }
}

fn digit_str(d: u64) -> (r: &'static str)
    requires
        d < 10,
    ensures
        r@ == seq![digit_char(d as int)],
{
    proof {
        reveal_strlit("0");
        reveal_strlit("1");
        reveal_strlit("2");
        reveal_strlit("3");
        reveal_strlit("4");
        reveal_strlit("5");
        reveal_strlit("6");
        reveal_strlit("7");
        reveal_strlit("8");
        reveal_strlit("9");
    }
    let r = if d == 0 {
        "0"
    } else if d == 1 {
        "1"
    } else if d == 2 {
        "2"
    } else if d == 3 {
        "3"
    } else if d == 4 {
        "4"
    } else if d == 5 {
        "5"
    } else if d == 6 {
        "6"
    } else if d == 7 {
        "7"
    } else if d == 8 {
        "8"
    } else {
        "9"
    };
    assert(r@ =~= seq![digit_char(d as int)]);
    r
}

/// The decimal numeral of `n`.
pub fn to_decimal(n: u64) -> (r: String)
    ensures
        r@ == decimal(n as nat),
    decreases n,
{
    if n < 10 {
        digit_str(n).to_owned()
    } else {
        let mut r = to_decimal(n / 10);
        let ghost front = r@;
        r.append(digit_str(n % 10));
        assert(r@ =~= front.push(digit_char((n % 10) as int)));
        r
    }
}

/// Position of the first `sep` in `s`; the length of `s` where there is
/// none.
pub open spec fn index_of(s: Seq<char>, sep: char) -> int
    decreases s.len(),
{
    if s.len() == 0 {
        0
    } else if s[0] == sep {
        0
    } else {
        1 + index_of(s.skip(1), sep)
    }
}

/// The part of `s` before its first `sep`; all of `s` where there is
/// none.
pub open spec fn first_segment(s: Seq<char>, sep: char) -> Seq<char> {
    s.take(index_of(s, sep))
}

/// The pieces of `s` between its separators, in order. A text without a
/// separator is one piece; an empty text is one empty piece.
pub open spec fn split(s: Seq<char>, sep: char) -> Seq<Seq<char>>
    decreases s.len(),
{
    let at = index_of(s, sep);
    if at < 0 || at >= s.len() {
        seq![s]
    } else {
        seq![s.take(at)] + split(s.skip(at + 1), sep)
    }
}

/// `index_of` stays within the text, and no separator stands before it.
pub proof fn lemma_index_of(s: Seq<char>, sep: char)
    ensures
        0 <= index_of(s, sep) <= s.len(),
        index_of(s, sep) < s.len() ==> s[index_of(s, sep)] == sep,
        forall|i: int| 0 <= i < index_of(s, sep) ==> s[i] != sep,
    decreases s.len(),
{
    if s.len() > 0 && s[0] != sep {
        lemma_index_of(s.skip(1), sep);
        assert forall|i: int| 0 <= i < index_of(s, sep) implies s[i] != sep by {
            if i > 0 {
                assert(s.skip(1)[i - 1] == s[i]);
            }
        }
    }
}

/// A text has at least one piece, and its first piece is what stands
/// before its first separator.
pub proof fn lemma_split_first(s: Seq<char>, sep: char)
    ensures
        split(s, sep).len() >= 1,
        split(s, sep)[0] == first_segment(s, sep),
{
    lemma_index_of(s, sep);
    let at = index_of(s, sep);
    if at >= s.len() {
        assert(s.take(at) =~= s);
    }
}

/// Position of the first `sep` in `s` at or after `from`.
fn find_from(s: &Vec<char>, from: usize, sep: char) -> (at: usize)
    requires
        from <= s.len(),
    ensures
        from <= at <= s.len(),
        at - from == index_of(s@.skip(from as int), sep),
{
    let mut at = from;
    while at < s.len() && s[at] != sep
        invariant
            from <= at <= s.len(),
            index_of(s@.skip(from as int), sep) == (at - from) + index_of(s@.skip(at as int), sep),
        decreases s.len() - at,
    {
        proof {
            let rest = s@.skip(at as int);
            assert(rest[0] == s@[at as int]);
            assert(rest.skip(1) =~= s@.skip(at + 1));
        }
        at += 1;
    }
    proof {
        let rest = s@.skip(at as int);
        if at < s.len() {
            assert(rest[0] == s@[at as int]);
        }
    }
    at
}

/// The pieces of `s` between its separators, in order.
pub fn split_on(s: &str, sep: char) -> (pieces: Vec<String>)
    ensures
        pieces.deep_view() == split(s@, sep),
{
    let chars = chars_of(s);
    let n = chars.len();
    let mut pieces: Vec<String> = Vec::new();
    let mut from: usize = 0;
    assert(s@.skip(0) =~= s@);
    assert(pieces.deep_view() =~= Seq::empty());
    loop
        invariant
            chars@ == s@,
            n == chars.len(),
            from <= n,
            split(s@, sep) == pieces.deep_view() + split(s@.skip(from as int), sep),
        decreases n - from,
    {
        let at = find_from(&chars, from, sep);
        let piece = s.substring_char(from, at).to_owned();
        let ghost rest = s@.skip(from as int);
        let ghost before = pieces.deep_view();
        proof {
            assert(piece@ =~= rest.take(at - from));
        }
        pieces.push(piece);
        proof {
            assert(pieces.deep_view() =~= before.push(piece@));
        }
        if at >= n {
            proof {
                assert(rest.take(at - from) =~= rest);
                assert(pieces.deep_view() =~= before + seq![rest]);
            }
            return pieces;
        }
        proof {
            assert(rest.skip(at - from + 1) =~= s@.skip(at + 1));
            assert(before + (seq![rest.take(at - from)] + split(s@.skip(at + 1), sep))
                =~= before.push(piece@) + split(s@.skip(at + 1), sep));
        }
        from = at + 1;
    }
}

/// Whether a character is white space, as `char::is_whitespace` says.
pub uninterp spec fn is_whitespace(c: char) -> bool;

/// Calls std's `char::is_whitespace`. The contract only names the answer,
/// which is the Unicode property `White_Space` of the character.
#[verifier::external_body]
pub(crate) fn char_is_whitespace(c: char) -> (r: bool)
    ensures
        r == is_whitespace(c),
{
    c.is_whitespace()
}

/// `s` without its leading white space.
pub open spec fn trimmed_start(s: Seq<char>) -> Seq<char>
    decreases s.len(),
{
    if s.len() > 0 && is_whitespace(s[0]) {
        trimmed_start(s.skip(1))
    } else {
        s
    }
}

/// `s` without its trailing white space.
pub open spec fn trimmed_end(s: Seq<char>) -> Seq<char>
    decreases s.len(),
{
    if s.len() > 0 && is_whitespace(s.last()) {
        trimmed_end(s.drop_last())
    } else {
        s
    }
}

/// `s` without its leading and trailing white space.
pub open spec fn trimmed(s: Seq<char>) -> Seq<char> {
    trimmed_end(trimmed_start(s))
}

/// `s` without its leading and trailing white space.
pub fn trim(s: &str) -> (r: String)
    ensures
        r@ == trimmed(s@),
{
    let chars = chars_of(s);
    let n = chars.len();
    let mut start: usize = 0;
    assert(s@.skip(0) =~= s@);
    while start < n && char_is_whitespace(chars[start])
        invariant
            chars@ == s@,
            n == chars.len(),
            start <= n,
            trimmed_start(s@) == trimmed_start(s@.skip(start as int)),
        decreases n - start,
    {
        proof {
            let rest = s@.skip(start as int);
            assert(rest[0] == s@[start as int]);
            assert(rest.skip(1) =~= s@.skip(start + 1));
        }
        start += 1;
    }
    proof {
        let rest = s@.skip(start as int);
        if start < n {
            assert(rest[0] == s@[start as int]);
        }
        assert(trimmed_start(s@) == rest);
        assert(rest =~= s@.subrange(start as int, n as int));
    }
    let mut end: usize = n;
    while end > start && char_is_whitespace(chars[end - 1])
        invariant
            chars@ == s@,
            n == chars.len(),
            start <= end <= n,
            trimmed(s@) == trimmed_end(s@.subrange(start as int, end as int)),
        decreases end - start,
    {
        proof {
            let part = s@.subrange(start as int, end as int);
            assert(part.last() == s@[end - 1]);
            assert(part.drop_last() =~= s@.subrange(start as int, end - 1));
        }
        end -= 1;
    }
    proof {
        let part = s@.subrange(start as int, end as int);
        if end > start {
            assert(part.last() == s@[end - 1]);
        }
    }
    s.substring_char(start, end).to_owned()
}

/// Tests whether `s` begins with `prefix`.
pub fn starts_with(s: &str, prefix: &str) -> (r: bool)
    ensures
        r == prefix@.is_prefix_of(s@),
{
    let sc = chars_of(s);
    let pc = chars_of(prefix);
    let r = matches_at(&sc, &pc, 0);
    proof {
        if prefix@.len() <= s@.len() {
            assert(s@.subrange(0, prefix@.len() as int) =~= s@.take(prefix@.len() as int));
        }
        if r {
            assert(prefix@ =~= s@.subrange(0, prefix@.len() as int));
        }
    }
    r
}

} // verus!
