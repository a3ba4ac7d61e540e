//! Character-sequence utilities shared by the classifiers and policies.
//!
//! Strings are handled as sequences of `char`; every search and comparison here
//! is stated over those sequences.
use vstd::prelude::*;

verus! {

/// Unicode `White_Space` property (the definition used by `char::is_whitespace`).
pub open spec fn is_ws(c: char) -> bool {
    let v = c as u32;
    (0x09 <= v && v <= 0x0D) || v == 0x20 || v == 0x85 || v == 0xA0 || v == 0x1680
        || (0x2000 <= v && v <= 0x200A) || v == 0x2028 || v == 0x2029 || v == 0x202F
        || v == 0x205F || v == 0x3000
}

/// `needle` occurs as a contiguous block of `hay`.
pub open spec fn seq_contains(hay: Seq<char>, needle: Seq<char>) -> bool {
    exists|i: int| 0 <= i <= hay.len() - needle.len() && #[trigger] hay.subrange(i, i + needle.len()) == needle
}

/// `hay` begins with `p`.
pub open spec fn has_prefix(hay: Seq<char>, p: Seq<char>) -> bool {
    p.len() <= hay.len() && hay.subrange(0, p.len() as int) == p
}

/// `hay` ends with `p`.
pub open spec fn has_suffix(hay: Seq<char>, p: Seq<char>) -> bool {
    p.len() <= hay.len() && hay.subrange(hay.len() - p.len(), hay.len() as int) == p
}

/// `c` occurs in `s`.
pub open spec fn has_char(s: Seq<char>, c: char) -> bool {
    exists|i: int| 0 <= i < s.len() && s[i] == c
}

/// `s` with leading whitespace removed.
pub open spec fn trim_start(s: Seq<char>) -> Seq<char>
    decreases s.len(),
{
    if s.len() > 0 && is_ws(s[0]) {
        trim_start(s.drop_first())
    } else {
        s
    }
}

/// `s` with trailing whitespace removed.
pub open spec fn trim_end(s: Seq<char>) -> Seq<char>
    decreases s.len(),
{
    if s.len() > 0 && is_ws(s.last()) {
        trim_end(s.drop_last())
    } else {
        s
    }
}

/// `s` with leading and trailing whitespace removed.
pub open spec fn trim(s: Seq<char>) -> Seq<char> {
    trim_end(trim_start(s))
}

/// Number of maximal runs of non-whitespace characters (the words of `s`).
pub open spec fn word_count(s: Seq<char>) -> nat
    decreases s.len(),
{
    if s.len() == 0 {
        0
    } else {
        word_count(s.drop_last()) + if !is_ws(s.last()) && (s.len() == 1 || is_ws(s[s.len() - 2])) {
            1nat
        } else {
            0nat
        }
    }
}

/// Number of bytes in the UTF-8 encoding of `c`.
pub open spec fn char_utf8_len(c: char) -> nat {
    let v = c as u32;
    if v < 0x80 {
        1
    } else if v < 0x800 {
        2
    } else if v < 0x10000 {
        3
    } else {
        4
    }
}

/// Number of bytes in the UTF-8 encoding of `s`.
pub open spec fn utf8_len(s: Seq<char>) -> nat
    decreases s.len(),
{
    if s.len() == 0 {
        0
    } else {
        utf8_len(s.drop_last()) + char_utf8_len(s.last())
    }
}

/// Number of occurrences of `c` in `s`.
pub open spec fn count_char(s: Seq<char>, c: char) -> nat
    decreases s.len(),
{
    if s.len() == 0 {
        0
    } else {
        count_char(s.drop_last(), c) + if s.last() == c {
            1nat
        } else {
            0nat
        }
    }
}

/// ASCII lower-casing of one character.
pub open spec fn ascii_lower_char(c: char) -> char {
    if 'A' <= c && c <= 'Z' {
        ((c as u32) + 32) as char
    } else {
        c
    }
}

/// The views of a list of string slices.
pub open spec fn strs_view(v: Seq<&str>) -> Seq<Seq<char>> {
    v.map_values(|p: &str| p@)
}

/// Some pattern of `pats` occurs in `hay`.
pub open spec fn contains_any(hay: Seq<char>, pats: Seq<Seq<char>>) -> bool {
    exists|k: int| 0 <= k < pats.len() && seq_contains(hay, #[trigger] pats[k])
}

/// Number of patterns of `pats` that occur in `hay`.
pub open spec fn count_contained(hay: Seq<char>, pats: Seq<Seq<char>>) -> nat
    decreases pats.len(),
{
    if pats.len() == 0 {
        0
    } else {
        count_contained(hay, pats.drop_last()) + if seq_contains(hay, pats.last()) {
            1nat
        } else {
            0nat
        }
    }
}

/// Lower-case mapping of a string, as `str::to_lowercase` computes it.
pub uninterp spec fn lowercase(s: Seq<char>) -> Seq<char>;

/// Calls `str::to_lowercase`. The contract names the result `lowercase(s@)`;
/// for ASCII input it is also the character-wise ASCII lower-casing, as the
/// Unicode case tables give for that range. Nothing else about non-ASCII input
/// is stated.
#[verifier::external_body]
pub(crate) fn to_lowercase(s: &str) -> (res: String)
    ensures
        res@ == lowercase(s@),
        (forall|i: int| 0 <= i < s@.len() ==> (s@[i] as u32) < 0x80) ==> res@ == s@.map_values(
            |c: char| ascii_lower_char(c),
        ),
{
    s.to_lowercase()
}

/// Upper-case mapping of a string, as `str::to_uppercase` computes it.
pub uninterp spec fn uppercase(s: Seq<char>) -> Seq<char>;

/// Calls `str::to_uppercase`. The contract names the result `uppercase(s@)`;
/// nothing more about the Unicode case tables is stated.
#[verifier::external_body]
pub(crate) fn to_uppercase(s: &str) -> (res: String)
    ensures
        res@ == uppercase(s@),
{
    s.to_uppercase()
}

/// Whether a character is alphabetic or numeric in Unicode, as
/// `char::is_alphanumeric` decides.
pub uninterp spec fn unicode_alphanumeric(c: char) -> bool;

/// Calls `char::is_alphanumeric`. The contract names the result; for ASCII
/// characters it is true exactly for letters and digits, as the Unicode
/// tables give for that range.
#[verifier::external_body]
pub(crate) fn is_alphanumeric(c: char) -> (b: bool)
    ensures
        b == unicode_alphanumeric(c),
        (c as u32) < 0x80 ==> (b <==> (('a' <= c && c <= 'z') || ('A' <= c && c <= 'Z') || ('0' <= c && c <= '9'))),
{
    c.is_alphanumeric()
}

/// Calls `String::push`: appends one character.
#[verifier::external_body]
pub(crate) fn push_char(s: &mut String, c: char)
    ensures
        final(s)@ == old(s)@.push(c),
{
    s.push(c);
}

/// Whether `c` is a Unicode whitespace character.
pub fn is_whitespace(c: char) -> (b: bool)
    ensures
        b == is_ws(c),
{
    let v = c as u32;
    (0x09 <= v && v <= 0x0D) || v == 0x20 || v == 0x85 || v == 0xA0 || v == 0x1680 || (0x2000
        <= v && v <= 0x200A) || v == 0x2028 || v == 0x2029 || v == 0x202F || v == 0x205F || v
        == 0x3000
}

/// The characters of a string slice.
pub fn chars_of(s: &str) -> (v: Vec<char>)
    ensures
        v@ == s@,
{
    let mut v: Vec<char> = Vec::new();
    for c in it: s.chars()
        invariant
            v@ == it.seq().take(it.index() as int),
            it.seq() == s@,
    {
        v.push(c);
    }
    v
}

/// A `String` holding exactly the characters of `v`.
pub fn string_of(v: &[char]) -> (s: String)
    ensures
        s@ == v@,
{
    let mut s = String::new();
    let mut i: usize = 0;
    while i < v.len()
        invariant
            i <= v@.len(),
            s@ == v@.take(i as int),
        decreases v@.len() - i,
    {
        push_char(&mut s, v[i]);
        i += 1;
        assert(s@ =~= v@.take(i as int));
    }
    assert(v@.take(v@.len() as int) =~= v@);
    s
}

/// The lower-cased characters of `s`.
pub fn lower_chars(s: &str) -> (v: Vec<char>)
    ensures
        v@ == lowercase(s@),
{
    let l = to_lowercase(s);
    chars_of(l.as_str())
}

/// Character-sequence equality.
pub fn eq_chars(a: &[char], b: &[char]) -> (r: bool)
    ensures
        r == (a@ == b@),
{
    if a.len() != b.len() {
        return false;
    }
    let mut i: usize = 0;
    while i < a.len()
        invariant
            a@.len() == b@.len(),
            i <= a@.len(),
            forall|j: int| 0 <= j < i ==> a@[j] == b@[j],
        decreases a@.len() - i,
    {
        if a[i] != b[i] {
            return false;
        }
        i += 1;
    }
    assert(a@ =~= b@);
    true
}

/// Whether `hay[start..start + needle.len()]` equals `needle`.
fn matches_at(hay: &[char], needle: &[char], start: usize) -> (r: bool)
    requires
        start + needle@.len() <= hay@.len(),
    ensures
        r == (hay@.subrange(start as int, start + needle@.len()) == needle@),
{
    let mut j: usize = 0;
    while j < needle.len()
        invariant
            start + needle@.len() <= hay@.len(),
            hay@.len() == hay.len(),
            j <= needle@.len(),
            forall|k: int| 0 <= k < j ==> hay@[start + k] == needle@[k],
        decreases needle@.len() - j,
    {
        if hay[start + j] != needle[j] {
            assert(hay@.subrange(start as int, start + needle@.len())[j as int] != needle@[j as int]);
            return false;
        }
        j += 1;
    }
    assert(hay@.subrange(start as int, start + needle@.len()) =~= needle@);
    true
}

/// Substring search.
pub fn contains(hay: &[char], needle: &[char]) -> (r: bool)
    ensures
        r == seq_contains(hay@, needle@),
{
    if needle.len() > hay.len() {
        return false;
    }
    if needle.len() == 0 {
        assert(hay@.subrange(0int, 0int + needle@.len()) =~= needle@);
        return true;
    }
    let last = hay.len() - needle.len();
    let mut i: usize = 0;
    while i <= last
        invariant
            last == hay@.len() - needle@.len(),
            needle@.len() <= hay@.len(),
            needle@.len() > 0,
            hay@.len() == hay.len(),
            i <= last + 1,
            forall|k: int| 0 <= k < i ==> #[trigger] hay@.subrange(k, k + needle@.len()) != needle@,
        decreases last + 1 - i,
    {
        if matches_at(hay, needle, i) {
            return true;
        }
        i += 1;
    }
    false
}

/// Substring search for a string-slice pattern.
pub fn contains_str(hay: &[char], needle: &str) -> (r: bool)
    ensures
        r == seq_contains(hay@, needle@),
{
    let n = chars_of(needle);
    contains(hay, n.as_slice())
}

/// Whether the character `c` occurs in `s`.
pub fn contains_char(s: &[char], c: char) -> (r: bool)
    ensures
        r == has_char(s@, c),
{
    let mut i: usize = 0;
    while i < s.len()
        invariant
            i <= s@.len(),
            forall|j: int| 0 <= j < i ==> s@[j] != c,
        decreases s@.len() - i,
    {
        if s[i] == c {
            return true;
        }
        i += 1;
    }
    false
}

/// Prefix test.
pub fn starts_with(hay: &[char], p: &[char]) -> (r: bool)
    ensures
        r == has_prefix(hay@, p@),
{
    if p.len() > hay.len() {
        return false;
    }
    matches_at(hay, p, 0)
}

/// Prefix test for a string-slice pattern.
pub fn starts_with_str(hay: &[char], p: &str) -> (r: bool)
    ensures
        r == has_prefix(hay@, p@),
{
    let pc = chars_of(p);
    starts_with(hay, pc.as_slice())
}

/// Suffix test.
pub fn ends_with(hay: &[char], p: &[char]) -> (r: bool)
    ensures
        r == has_suffix(hay@, p@),
{
    if p.len() > hay.len() {
        return false;
    }
    matches_at(hay, p, hay.len() - p.len())
}

/// Suffix test for a string-slice pattern.
pub fn ends_with_str(hay: &[char], p: &str) -> (r: bool)
    ensures
        r == has_suffix(hay@, p@),
{
    let pc = chars_of(p);
    ends_with(hay, pc.as_slice())
}

/// Some pattern of `pats` occurs in `hay`.
pub fn contains_any_of(hay: &[char], pats: &[&str]) -> (r: bool)
    ensures
        r == contains_any(hay@, strs_view(pats@)),
{
    let mut k: usize = 0;
    while k < pats.len()
        invariant
            k <= pats@.len(),
            forall|j: int| 0 <= j < k ==> !seq_contains(hay@, #[trigger] strs_view(pats@)[j]),
        decreases pats@.len() - k,
    {
        if contains_str(hay, pats[k]) {
            assert(strs_view(pats@)[k as int] == pats@[k as int]@);
            return true;
        }
        k += 1;
    }
    false
}

/// Number of patterns of `pats` that occur in `hay`.
pub fn count_any_of(hay: &[char], pats: &[&str]) -> (n: usize)
    ensures
        n == count_contained(hay@, strs_view(pats@)),
        n <= pats@.len(),
{
    let mut k: usize = 0;
    let mut n: usize = 0;
    while k < pats.len()
        invariant
            k <= pats@.len(),
            n <= k,
            n == count_contained(hay@, strs_view(pats@).take(k as int)),
        decreases pats@.len() - k,
    {
        assert(strs_view(pats@).take(k + 1).drop_last() =~= strs_view(pats@).take(k as int));
        if contains_str(hay, pats[k]) {
            n += 1;
        }
        k += 1;
    }
    assert(strs_view(pats@).take(pats@.len() as int) =~= strs_view(pats@));
    n
}

/// Leading and trailing whitespace removed.
pub fn trim_chars(s: &[char]) -> (r: Vec<char>)
    ensures
        r@ == trim(s@),
{
    let mut start: usize = 0;
    assert(s@.subrange(0, s@.len() as int) =~= s@);
    while start < s.len() && is_whitespace(s[start])
        invariant
            start <= s@.len(),
            trim_start(s@) == trim_start(s@.subrange(start as int, s@.len() as int)),
        decreases s@.len() - start,
    {
        assert(s@.subrange(start as int, s@.len() as int).drop_first() =~= s@.subrange(
            start + 1,
            s@.len() as int,
        ));
        start += 1;
    }
    let ghost mid = s@.subrange(start as int, s@.len() as int);
    assert(trim_start(s@) == mid);
    let mut end: usize = s.len();
    while end > start && is_whitespace(s[end - 1])
        invariant
            start <= end <= s@.len(),
            trim_end(mid) == trim_end(s@.subrange(start as int, end as int)),
            mid == s@.subrange(start as int, s@.len() as int),
        decreases end - start,
    {
        assert(s@.subrange(start as int, end as int).drop_last() =~= s@.subrange(
            start as int,
            end - 1,
        ));
        end -= 1;
    }
    let mut r: Vec<char> = Vec::new();
    let mut i: usize = start;
    while i < end
        invariant
            start <= i <= end <= s@.len(),
            r@ == s@.subrange(start as int, i as int),
        decreases end - i,
    {
        r.push(s[i]);
        i += 1;
        assert(r@ =~= s@.subrange(start as int, i as int));
    }
    r
}

/// Number of whitespace-separated words of `s`.
pub fn count_words(s: &[char]) -> (n: usize)
    ensures
        n == word_count(s@),
{
    let mut n: usize = 0;
    let mut i: usize = 0;
    while i < s.len()
        invariant
            i <= s@.len(),
            n == word_count(s@.take(i as int)),
            n <= i,
        decreases s@.len() - i,
    {
        let starts = !is_whitespace(s[i]) && (i == 0 || is_whitespace(s[i - 1]));
        assert(s@.take(i + 1).drop_last() =~= s@.take(i as int));
        if starts {
            n += 1;
        }
        i += 1;
    }
    assert(s@.take(s@.len() as int) =~= s@);
    n
}

/// Number of occurrences of `c` in `s`.
pub fn count_char_in(s: &[char], c: char) -> (n: usize)
    ensures
        n == count_char(s@, c),
{
    let mut n: usize = 0;
    let mut i: usize = 0;
    while i < s.len()
        invariant
            i <= s@.len(),
            n == count_char(s@.take(i as int), c),
            n <= i,
        decreases s@.len() - i,
    {
        assert(s@.take(i + 1).drop_last() =~= s@.take(i as int));
        if s[i] == c {
            n += 1;
        }
        i += 1;
    }
    assert(s@.take(s@.len() as int) =~= s@);
    n
}

/// Number of bytes in the UTF-8 encoding of `s`.
pub fn utf8_len_of(s: &[char]) -> (n: u128)
    ensures
        n == utf8_len(s@),
{
    let mut n: u128 = 0;
    let mut i: usize = 0;
    while i < s.len()
        invariant
            i <= s@.len(),
            n == utf8_len(s@.take(i as int)),
            n <= 4 * i,
        decreases s@.len() - i,
    {
        assert(s@.take(i + 1).drop_last() =~= s@.take(i as int));
        let v = s[i] as u32;
        let w: u128 = if v < 0x80 {
            1
        } else if v < 0x800 {
            2
        } else if v < 0x10000 {
            3
        } else {
            4
        };
        n += w;
        i += 1;
    }
    assert(s@.take(s@.len() as int) =~= s@);
    n
}

/// Decimal digits of `n` (no sign, no leading zeros; `"0"` for zero).
pub open spec fn decimal(n: nat) -> Seq<char>
    decreases n,
{
    if n < 10 {
        seq![digit_char(n)]
    } else {
        decimal(n / 10).push(digit_char(n % 10))
    }
}

/// The ASCII digit for `d < 10`.
pub open spec fn digit_char(d: nat) -> char {
    ((d + 48) as u32) as char
}

/// Decimal rendering of an unsigned integer.
pub fn u64_to_decimal(n: u64) -> (s: Vec<char>)
    ensures
        s@ == decimal(n as nat),
    decreases n,
{
    if n < 10 {
        let c = ((n as u32) + 48) as u8 as char;
        let mut v: Vec<char> = Vec::new();
        v.push(c);
        assert(c == digit_char(n as nat));
        assert(v@ =~= seq![digit_char(n as nat)]);
        v
    } else {
        let mut v = u64_to_decimal(n / 10);
        let d = n % 10;
        let c = ((d as u32) + 48) as u8 as char;
        assert(c == digit_char((n % 10) as nat));
        v.push(c);
        v
    }
}

/// Append the characters of `b` to `a`.
pub fn append_chars(a: &mut Vec<char>, b: &[char])
    ensures
        final(a)@ == old(a)@ + b@,
{
    let mut i: usize = 0;
    while i < b.len()
        invariant
            i <= b@.len(),
            a@ == old(a)@ + b@.take(i as int),
        decreases b@.len() - i,
    {
        a.push(b[i]);
        i += 1;
        assert(a@ =~= old(a)@ + b@.take(i as int));
    }
    assert(b@.take(b@.len() as int) =~= b@);
}

/// Append the characters of a string slice to `a`.
pub fn append_str(a: &mut Vec<char>, b: &str)
    ensures
        final(a)@ == old(a)@ + b@,
{
    let bc = chars_of(b);
    append_chars(a, bc.as_slice());
}

/// The views of a list of strings.
pub open spec fn strings_view(v: Seq<String>) -> Seq<Seq<char>> {
    v.map_values(|x: String| x@)
}

/// String-slice equality by characters.
pub fn str_eq(a: &str, b: &str) -> (r: bool)
    ensures
        r == (a@ == b@),
{
    let ac = chars_of(a);
    let bc = chars_of(b);
    eq_chars(ac.as_slice(), bc.as_slice())
}

/// Whether some element of `v` equals `s`.
pub fn vec_has_str(v: &Vec<String>, s: &str) -> (r: bool)
    ensures
        r == strings_view(v@).contains(s@),
{
    let mut i: usize = 0;
    while i < v.len()
        invariant
            i <= v@.len(),
            forall|j: int| 0 <= j < i ==> v@[j]@ != s@,
        decreases v@.len() - i,
    {
        if str_eq(v[i].as_str(), s) {
            assert(strings_view(v@)[i as int] == s@);
            return true;
        }
        i += 1;
    }
    assert forall|j: int| 0 <= j < strings_view(v@).len() implies strings_view(v@)[j] != s@ by {
        assert(strings_view(v@)[j] == v@[j]@);
    }
    false
}

/// A copy of `s[from..to]`.
pub fn sub_chars(s: &[char], from: usize, to: usize) -> (r: Vec<char>)
    requires
        from <= to <= s@.len(),
    ensures
        r@ == s@.subrange(from as int, to as int),
{
    let mut r: Vec<char> = Vec::new();
    let mut i: usize = from;
    while i < to
        invariant
            from <= i <= to <= s@.len(),
            r@ == s@.subrange(from as int, i as int),
        decreases to - i,
    {
        r.push(s[i]);
        i += 1;
        assert(r@ =~= s@.subrange(from as int, i as int));
    }
    r
}

/// The strings of `v` joined with `sep` between them.
pub open spec fn joined(v: Seq<Seq<char>>, sep: Seq<char>) -> Seq<char>
    decreases v.len(),
{
    if v.len() == 0 {
        Seq::empty()
    } else if v.len() == 1 {
        v[0]
    } else {
        joined(v.drop_last(), sep) + sep + v.last()
    }
}

/// Append the strings of `v` to `out`, with `sep` between them.
pub fn append_joined(out: &mut Vec<char>, v: &[String], sep: &str)
    ensures
        final(out)@ == old(out)@ + joined(strings_view(v@), sep@),
{
    let ghost start = out@;
    let mut i: usize = 0;
    while i < v.len()
        invariant
            i <= v@.len(),
            out@ == start + joined(strings_view(v@.take(i as int)), sep@),
        decreases v@.len() - i,
    {
        let ghost before = out@;
        if i > 0 {
            append_str(out, sep);
        }
        append_str(out, v[i].as_str());
        proof {
            let t = strings_view(v@.take(i + 1));
            assert(t.drop_last() =~= strings_view(v@.take(i as int)));
            assert(t.last() == v@[i as int]@);
            if i == 0 {
                assert(t =~= seq![v@[0]@]);
            }
        }
        i += 1;
    }
    assert(v@.take(v@.len() as int) =~= v@);
}

/// Index of the first occurrence of `pat` in `t`.
pub open spec fn find_first(t: Seq<char>, pat: Seq<char>) -> Option<nat>
    decreases t.len(),
{
    if t.len() < pat.len() {
        None
    } else if t.subrange(0, pat.len() as int) == pat {
        Some(0nat)
    } else if t.len() == 0 {
        None
    } else {
        match find_first(t.drop_first(), pat) {
            Some(i) => Some(i + 1),
            None => None,
        }
    }
}

/// `o` moved `by` places on.
pub open spec fn shifted(o: Option<nat>, by: nat) -> Option<nat> {
    match o {
        Some(i) => Some(i + by),
        None => None,
    }
}

/// Index of the first occurrence of `pat` in `hay`.
pub fn find_in(hay: &[char], pat: &[char]) -> (r: Option<usize>)
    ensures
        r is None ==> find_first(hay@, pat@) is None,
        r matches Some(i) ==> find_first(hay@, pat@) == Some(i as nat) && i + pat@.len() <= hay@.len(),
{
    if pat.len() == 0 {
        assert(hay@.subrange(0, 0) =~= pat@);
        return Some(0);
    }
    let mut i: usize = 0;
    assert(hay@.skip(0) =~= hay@);
    while i < hay.len() && pat.len() <= hay.len() - i
        invariant
            i <= hay@.len(),
            find_first(hay@, pat@) == shifted(find_first(hay@.skip(i as int), pat@), i as nat),
        decreases hay@.len() - i,
    {
        if matches_at(hay, pat, i) {
            assert(hay@.skip(i as int).subrange(0, pat@.len() as int) =~= hay@.subrange(i as int, i + pat@.len()));
            return Some(i);
        }
        assert(hay@.skip(i as int).subrange(0, pat@.len() as int) =~= hay@.subrange(i as int, i + pat@.len()));
        assert(hay@.skip(i as int).drop_first() =~= hay@.skip(i + 1));
        i += 1;
    }
    assert(hay@.skip(i as int).len() < pat@.len());
    None
}

/// `t` with every non-overlapping occurrence of `pat`, from the left,
/// replaced by `rep`.
pub open spec fn replace_all(t: Seq<char>, pat: Seq<char>, rep: Seq<char>) -> Seq<char>
    decreases t.len(),
{
    if pat.len() == 0 || t.len() < pat.len() {
        t
    } else if t.subrange(0, pat.len() as int) == pat {
        rep + replace_all(t.skip(pat.len() as int), pat, rep)
    } else {
        seq![t[0]] + replace_all(t.drop_first(), pat, rep)
    }
}

/// Replace every occurrence of `pat` in `t` by `rep` (as `str::replace`).
pub fn replace_all_in(t: &[char], pat: &[char], rep: &[char]) -> (r: Vec<char>)
    requires
        pat@.len() > 0,
    ensures
        r@ == replace_all(t@, pat@, rep@),
{
    let mut out: Vec<char> = Vec::new();
    let mut i: usize = 0;
    assert(t@.skip(0) =~= t@);
    while i < t.len()
        invariant
            i <= t@.len(),
            pat@.len() > 0,
            replace_all(t@, pat@, rep@) == out@ + replace_all(t@.skip(i as int), pat@, rep@),
        decreases t@.len() - i,
    {
        let ghost rest = t@.skip(i as int);
        let ghost out_old = out@;
        if pat.len() <= t.len() - i && matches_at(t, pat, i) {
            assert(rest.subrange(0, pat@.len() as int) =~= t@.subrange(i as int, i + pat@.len()));
            assert(rest.skip(pat@.len() as int) =~= t@.skip(i + pat@.len()));
            append_chars(&mut out, rep);
            i += pat.len();
            assert(replace_all(rest, pat@, rep@) == rep@ + replace_all(t@.skip(i as int), pat@, rep@));
            assert(out_old + (rep@ + replace_all(t@.skip(i as int), pat@, rep@)) =~= out@ + replace_all(t@.skip(i as int), pat@, rep@));
        } else {
            if pat.len() <= t.len() - i {
                assert(rest.subrange(0, pat@.len() as int) =~= t@.subrange(i as int, i + pat@.len()));
                assert(rest.drop_first() =~= t@.skip(i + 1));
                assert(rest[0] == t@[i as int]);
            } else {
                assert(replace_all(rest, pat@, rep@) == rest);
                assert(rest.drop_first() =~= t@.skip(i + 1));
                assert(replace_all(rest.drop_first(), pat@, rep@) == rest.drop_first());
                assert(rest =~= seq![t@[i as int]] + rest.drop_first());
            }
            out.push(t[i]);
            i += 1;
            assert(replace_all(rest, pat@, rep@) == seq![t@[i - 1]] + replace_all(t@.skip(i as int), pat@, rep@));
            assert(out_old + (seq![t@[i - 1]] + replace_all(t@.skip(i as int), pat@, rep@)) =~= out@ + replace_all(t@.skip(i as int), pat@, rep@));
        }
    }
    assert(t@.skip(t@.len() as int) =~= Seq::<char>::empty());
    out
}

} // verus!
