//! Character-level helpers over strings: substring search, prefixes, and
//! decimal formatting and parsing.

use vstd::prelude::*;
use vstd::string::*;

verus! {

/// `needle` stands in `hay` at position `i`.
pub open spec fn occurs_at(hay: Seq<char>, needle: Seq<char>, i: int) -> bool {
    0 <= i && i + needle.len() <= hay.len() && hay.subrange(i, i + needle.len()) == needle
}

/// `needle` stands somewhere in `hay`.
pub open spec fn has_substring(hay: Seq<char>, needle: Seq<char>) -> bool {
    exists|i: int| #[trigger] occurs_at(hay, needle, i)
}

/// `s` begins with `p`.
pub open spec fn has_prefix(s: Seq<char>, p: Seq<char>) -> bool {
    occurs_at(s, p, 0)
}

fn matches_at(hay: &str, needle: &str, i: usize) -> (r: bool)
    requires
        i + needle@.len() <= hay@.len(),
    ensures
        r == occurs_at(hay@, needle@, i as int),
{
    let h = hay.unicode_len();
    let n = needle.unicode_len();
    let mut k: usize = 0;
    while k < n
        invariant
            n == needle@.len(),
            h == hay@.len(),
            i + n <= h,
            k <= n,
            forall|t: int| 0 <= t < k ==> hay@[i + t] == needle@[t],
        decreases n - k,
    {
        if hay.get_char(i + k) != needle.get_char(k) {
            assert(hay@.subrange(i as int, i + n)[k as int] != needle@[k as int]);
            return false;
        }
        k += 1;
    }
    assert(hay@.subrange(i as int, i + n) =~= needle@);
    true
}

/// Whether `needle` occurs in `hay`, comparing characters exactly.
pub fn contains(hay: &str, needle: &str) -> (r: bool)
    ensures
        r == has_substring(hay@, needle@),
{
    let h = hay.unicode_len();
    let n = needle.unicode_len();
    if n > h {
        assert(forall|j: int| !#[trigger] occurs_at(hay@, needle@, j));
        return false;
    }
    if n == 0 {
        assert(hay@.subrange(0, 0) =~= needle@);
        assert(occurs_at(hay@, needle@, 0));
        return true;
    }
    let mut i: usize = 0;
    while i <= h - n
        invariant
            h == hay@.len(),
            n == needle@.len(),
            0 < n <= h,
            i <= h - n + 1,
            forall|j: int| 0 <= j < i ==> !#[trigger] occurs_at(hay@, needle@, j),
        decreases h - n + 1 - i,
    {
        if matches_at(hay, needle, i) {
            return true;
        }
        i += 1;
    }
    assert(forall|j: int| !#[trigger] occurs_at(hay@, needle@, j));
    false
}

/// Whether `s` begins with `p`.
pub fn starts_with(s: &str, p: &str) -> (r: bool)
    ensures
        r == has_prefix(s@, p@),
{
    if p.unicode_len() > s.unicode_len() {
        return false;
    }
    matches_at(s, p, 0)
}

/// Whether `a` and `b` hold the same characters.
pub fn str_eq(a: &str, b: &str) -> (r: bool)
    ensures
        r == (a@ == b@),
{
    if a.unicode_len() != b.unicode_len() {
        return false;
    }
    assert(a@.subrange(0, b@.len() as int) =~= a@);
    matches_at(a, b, 0)
}

/// `i` is the first position at or after `from` where `needle` stands in `hay`.
pub open spec fn first_occurrence_from(hay: Seq<char>, needle: Seq<char>, from: int, i: int) -> bool {
    from <= i && occurs_at(hay, needle, i) && forall|j: int|
        from <= j < i ==> !#[trigger] occurs_at(hay, needle, j)
}

/// The first position at or after `from` where `needle` stands in `hay`.
pub fn find_from(hay: &str, needle: &str, from: usize) -> (r: Option<usize>)
    ensures
        r matches Some(i) ==> first_occurrence_from(hay@, needle@, from as int, i as int),
        r is None ==> forall|j: int| from <= j ==> !#[trigger] occurs_at(hay@, needle@, j),
{
    let h = hay.unicode_len();
    let n = needle.unicode_len();
    if n > h || from > h - n {
        assert(forall|j: int| from <= j ==> !#[trigger] occurs_at(hay@, needle@, j));
        return None;
    }
    if n == 0 {
        assert(hay@.subrange(from as int, from as int) =~= needle@);
        return Some(from);
    }
    let mut i: usize = from;
    while i <= h - n
        invariant
            h == hay@.len(),
            n == needle@.len(),
            0 < n <= h,
            from <= i <= h - n + 1,
            forall|j: int| from <= j < i ==> !#[trigger] occurs_at(hay@, needle@, j),
        decreases h - n + 1 - i,
    {
        if matches_at(hay, needle, i) {
            return Some(i);
        }
        i += 1;
    }
    assert(forall|j: int| from <= j ==> !#[trigger] occurs_at(hay@, needle@, j));
    None
}

/// `<name>`.
pub open spec fn open_tag(name: Seq<char>) -> Seq<char> {
    seq!['<'] + name + seq!['>']
}

/// `doc` holds an element `<name>`.
pub open spec fn has_element(doc: Seq<char>, name: Seq<char>) -> bool {
    exists|i: int| #[trigger] occurs_at(doc, open_tag(name), i)
}

/// The text that starts at `start` runs up to `e`: the first `<` from
/// `start` on, or the end of `doc`.
pub open spec fn text_stops_at(doc: Seq<char>, start: int, e: int) -> bool {
    &&& start <= e <= doc.len()
    &&& (e == doc.len() || doc[e] == '<')
    &&& forall|k: int| start <= k < e ==> #[trigger] doc[k] != '<'
}

/// Where the text of the first `<name>` element of `doc` begins.
pub open spec fn element_start(doc: Seq<char>, name: Seq<char>) -> int {
    (choose|i: int| first_occurrence_from(doc, open_tag(name), 0, i)) + open_tag(name).len()
}

/// The text of the first `<name>` element of `doc`: what follows its opening
/// tag up to the next `<`.
pub open spec fn element_text_of(doc: Seq<char>, name: Seq<char>) -> Seq<char> {
    let s = element_start(doc, name);
    doc.subrange(s, choose|e: int| text_stops_at(doc, s, e))
}

proof fn lemma_first_occurrence_unique(hay: Seq<char>, needle: Seq<char>, from: int, i: int, j: int)
    requires
        first_occurrence_from(hay, needle, from, i),
        first_occurrence_from(hay, needle, from, j),
    ensures
        i == j,
{
    if i < j {
        assert(!occurs_at(hay, needle, i));
    } else if j < i {
        assert(!occurs_at(hay, needle, j));
    }
}

proof fn lemma_text_stop_unique(doc: Seq<char>, start: int, e: int, f: int)
    requires
        text_stops_at(doc, start, e),
        text_stops_at(doc, start, f),
    ensures
        e == f,
{
    if e < f {
        assert(doc[e] != '<');
    } else if f < e {
        assert(doc[f] != '<');
    }
}

/// The text of the first `<name>` element of `doc`, if there is one.
///
/// This is a token scan, not a markup parse: the opening tag must be written
/// exactly `<name>` (no spaces or attributes), the text runs to the next
/// `<`, and character entities such as `&amp;` are kept as written.
pub fn element_text(doc: &str, name: &str) -> (r: Option<String>)
    ensures
        r is Some <==> has_element(doc@, name@),
        r matches Some(v) ==> v@ == element_text_of(doc@, name@),
{
    proof {
        reveal_strlit("<");
        reveal_strlit(">");
    }
    let tag = String::from_str("<").concat(name).concat(">");
    assert(tag@ =~= open_tag(name@));
    match find_from(doc, tag.as_str(), 0) {
        None => {
            assert(!has_element(doc@, name@));
            None
        },
        Some(i) => {
            let ghost t = open_tag(name@);
            assert(occurs_at(doc@, t, i as int));
            let n = doc.unicode_len();
            let start = i + tag.unicode_len();
            let mut e = start;
            loop
                invariant
                    n == doc@.len(),
                    start <= e <= n,
                    forall|k: int| start <= k < e ==> #[trigger] doc@[k] != '<',
                ensures
                    start <= e <= n,
                    e == n || doc@[e as int] == '<',
                    forall|k: int| start <= k < e ==> #[trigger] doc@[k] != '<',
                decreases n - e,
            {
                if e == n {
                    break;
                }
                if doc.get_char(e) == '<' {
                    break;
                }
                e += 1;
            }
            proof {
                let c = choose|c: int| first_occurrence_from(doc@, t, 0, c);
                lemma_first_occurrence_unique(doc@, t, 0, i as int, c);
                let f = choose|f: int| text_stops_at(doc@, start as int, f);
                assert(text_stops_at(doc@, start as int, e as int));
                lemma_text_stop_unique(doc@, start as int, e as int, f);
            }
            Some(String::from_str(doc.substring_char(start, e)))
        },
    }
}

/// The character of a decimal digit.
pub open spec fn digit_char(d: int) -> char {
    if d == 0 {
        '0'
    } else if d == 1 {
        '1'
    } else if d == 2 {
        '2'
    } else if d == 3 {
        '3'
    } else if d == 4 {
        '4'
    } else if d == 5 {
        '5'
    } else if d == 6 {
        '6'
    } else if d == 7 {
        '7'
    } else if d == 8 {
        '8'
    } else {
        '9'
    }
}

/// The decimal notation of `n`, without leading zeros.
pub open spec fn decimal(n: nat) -> Seq<char>
    decreases n,
{
    if n < 10 {
        seq![digit_char(n as int)]
    } else {
        decimal(n / 10).push(digit_char((n % 10) as int))
    }
}

/// The decimal notation of `n`, with a leading `-` when it is negative.
pub open spec fn signed_decimal(n: int) -> Seq<char> {
    if n < 0 {
        seq!['-'] + decimal((-n) as nat)
    } else {
        decimal(n as nat)
    }
}

pub open spec fn is_digit(c: char) -> bool {
    '0' <= c && c <= '9'
}

pub open spec fn all_digits(s: Seq<char>) -> bool {
    forall|i: int| 0 <= i < s.len() ==> is_digit(#[trigger] s[i])
}

pub open spec fn digit_value(c: char) -> int {
    c as int - '0' as int
}

/// The number that a string of decimal digits writes.
pub open spec fn digits_value(s: Seq<char>) -> int
    decreases s.len(),
{
    if s.len() == 0 {
        0
    } else {
        10 * digits_value(s.drop_last()) + digit_value(s.last())
    }
}

pub(crate) fn digit_str(d: u128) -> (r: &'static str)
    requires
        d < 10,
    ensures
        r@ == seq![digit_char(d as int)],
{
    if d == 0 {
        proof { reveal_strlit("0"); }
        assert("0"@ =~= seq!['0']);
        "0"
    } else if d == 1 {
        proof { reveal_strlit("1"); }
        assert("1"@ =~= seq!['1']);
        "1"
    } else if d == 2 {
        proof { reveal_strlit("2"); }
        assert("2"@ =~= seq!['2']);
        "2"
    } else if d == 3 {
        proof { reveal_strlit("3"); }
        assert("3"@ =~= seq!['3']);
        "3"
    } else if d == 4 {
        proof { reveal_strlit("4"); }
        assert("4"@ =~= seq!['4']);
        "4"
    } else if d == 5 {
        proof { reveal_strlit("5"); }
        assert("5"@ =~= seq!['5']);
        "5"
    } else if d == 6 {
        proof { reveal_strlit("6"); }
        assert("6"@ =~= seq!['6']);
        "6"
    } else if d == 7 {
        proof { reveal_strlit("7"); }
        assert("7"@ =~= seq!['7']);
        "7"
    } else if d == 8 {
        proof { reveal_strlit("8"); }
        assert("8"@ =~= seq!['8']);
        "8"
    } else {
        proof { reveal_strlit("9"); }
        assert("9"@ =~= seq!['9']);
        "9"
    }
}

/// Appends the decimal notation of `n` to `out`.
pub fn write_decimal(n: u128, out: &mut String)
    ensures
        final(out)@ == old(out)@ + decimal(n as nat),
    decreases n,
{
    if n >= 10 {
        write_decimal(n / 10, out);
    }
    out.append(digit_str(n % 10));
    assert(final(out)@ =~= old(out)@ + decimal(n as nat));
}

/// The decimal notation of `n`.
pub fn decimal_string(n: u128) -> (r: String)
    ensures
        r@ == decimal(n as nat),
{
    let mut out = String::new();
    write_decimal(n, &mut out);
    assert(out@ =~= decimal(n as nat));
    out
}

/// The decimal notation of `n`, signed.
pub fn signed_decimal_string(n: i128) -> (r: String)
    ensures
        r@ == signed_decimal(n as int),
{
    if n < 0 {
        let magnitude: u128 = ((-(n + 1)) as u128) + 1;
        let mut out = String::new();
        proof { reveal_strlit("-"); }
        out.append("-");
        write_decimal(magnitude, &mut out);
        assert(out@ =~= signed_decimal(n as int));
        out
    } else {
        decimal_string(n as u128)
    }
}

proof fn lemma_digits_value_nonneg(s: Seq<char>)
    requires
        all_digits(s),
    ensures
        digits_value(s) >= 0,
    decreases s.len(),
{
    if s.len() > 0 {
        assert(is_digit(s[s.len() - 1]));
        lemma_digits_value_nonneg(s.drop_last());
    }
}

proof fn lemma_digits_value_prefix(s: Seq<char>, k: int)
    requires
        all_digits(s),
        0 <= k <= s.len(),
    ensures
        digits_value(s.subrange(0, k)) <= digits_value(s),
    decreases s.len(),
{
    if k < s.len() {
        let t = s.drop_last();
        assert(t.subrange(0, k) =~= s.subrange(0, k));
        lemma_digits_value_prefix(t, k);
        lemma_digits_value_nonneg(t);
        assert(is_digit(s[s.len() - 1]));
    } else {
        assert(s.subrange(0, k) =~= s);
    }
}

/// Reads a string of decimal digits as a non-negative `i64`: `None` when the
/// string is empty, holds another character, or writes a number above
/// `i64::MAX`.
pub fn parse_decimal(s: &str) -> (r: Option<i64>)
    ensures
        r matches Some(v) <==> (s@.len() > 0 && all_digits(s@) && digits_value(s@)
            <= i64::MAX),
        r matches Some(v) ==> v == digits_value(s@),
{
    let n = s.unicode_len();
    if n == 0 {
        return None;
    }
    let mut acc: u128 = 0;
    let mut i: usize = 0;
    while i < n
        invariant
            n == s@.len(),
            i <= n,
            all_digits(s@.subrange(0, i as int)),
            acc == digits_value(s@.subrange(0, i as int)),
            acc <= i64::MAX,
        decreases n - i,
    {
        let c = s.get_char(i);
        if c < '0' || c > '9' {
            return None;
        }
        let d = (c as u32 - '0' as u32) as u128;
        let next = acc * 10 + d;
        let ghost pre = s@.subrange(0, i + 1);
        assert(pre.drop_last() =~= s@.subrange(0, i as int));
        assert(all_digits(pre));
        if next > 9223372036854775807 {
            proof {
                if all_digits(s@) {
                    lemma_digits_value_prefix(s@, i + 1);
                }
            }
            return None;
        }
        acc = next;
        i += 1;
    }
    assert(s@.subrange(0, n as int) =~= s@);
    Some(acc as i64)
}

} // verus!
