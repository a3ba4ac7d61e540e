//! Five-field cron expressions in UTC (minute, hour, day of month, month,
//! day of week), and whether one is due at a given minute.
use vstd::prelude::*;
use crate::clock::{all_digits, is_digit};
use crate::layer2::{find_first_char, first_index, lemma_first_index_bound};
use crate::text::sub_chars;

verus! {

/// A minute of UTC time, split into the fields a cron expression tests.
#[derive(Debug, Clone, Copy, PartialEq, Eq, Structural)]
pub struct CronTime {
    /// 0 to 59.
    pub minute: u8,
    /// 0 to 23.
    pub hour: u8,
    /// Day of the month, 1 to 31.
    pub day: u8,
    /// 1 to 12.
    pub month: u8,
    /// Day of the week, 0 (Sunday) to 6.
    pub weekday: u8,
}

/// Ten to the power `n`.
pub open spec fn pow10(n: nat) -> nat
    decreases n,
{
    if n == 0 {
        1
    } else {
        10 * pow10((n - 1) as nat)
    }
}

/// The decimal value of a string of digits.
pub open spec fn digits_value(s: Seq<char>) -> nat
    decreases s.len(),
{
    if s.len() == 0 {
        0
    } else {
        digits_value(s.drop_last()) * 10 + ((s.last() as int) - ('0' as int)) as nat
    }
}

/// A number in a cron field: one to nine decimal digits.
pub open spec fn num_of(s: Seq<char>) -> Option<nat> {
    if 1 <= s.len() <= 9 && all_digits(s) {
        Some(digits_value(s))
    } else {
        None
    }
}

proof fn lemma_digits_bound(s: Seq<char>)
    requires
        all_digits(s),
    ensures
        digits_value(s) < pow10(s.len()),
    decreases s.len(),
{
    if s.len() > 0 {
        assert(all_digits(s.drop_last())) by {
            assert forall|i: int| 0 <= i < s.drop_last().len() implies is_digit(#[trigger] s.drop_last()[i]) by {
                assert(s.drop_last()[i] == s[i]);
            }
        }
        lemma_digits_bound(s.drop_last());
        assert(is_digit(s[s.len() - 1]));
    }
}

proof fn lemma_pow10_mono(a: nat, b: nat)
    requires
        a <= b,
    ensures
        pow10(a) <= pow10(b),
    decreases b,
{
    if a < b {
        lemma_pow10_mono(a, (b - 1) as nat);
    }
}

/// The number a cron field part holds (see `num_of`).
fn num_in(s: &[char]) -> (r: Option<u64>)
    ensures
        r matches Some(v) ==> num_of(s@) == Some(v as nat),
        r is None ==> num_of(s@) is None,
{
    if s.len() == 0 || s.len() > 9 {
        return None;
    }
    let mut v: u64 = 0;
    let mut i: usize = 0;
    proof {
        reveal_with_fuel(pow10, 10);
        assert(pow10(9) == 1000000000);
    }
    while i < s.len()
        invariant
            i <= s@.len() <= 9,
            all_digits(s@.take(i as int)),
            v as nat == digits_value(s@.take(i as int)),
            v < pow10(i as nat),
            pow10(9) == 1000000000,
        decreases s@.len() - i,
    {
        let c = s[i];
        if !('0' <= c && c <= '9') {
            proof {
                assert(!is_digit(s@[i as int]));
            }
            return None;
        }
        proof {
            lemma_pow10_mono(i as nat, 8);
            assert(s@.take(i + 1).drop_last() =~= s@.take(i as int));
            assert(s@.take(i + 1).last() == c);
        }
        let d: u64 = ((c as u32) - 48) as u64;
        v = v * 10 + d;
        i += 1;
        proof {
            assert(all_digits(s@.take(i as int))) by {
                assert forall|k: int| 0 <= k < s@.take(i as int).len() implies is_digit(#[trigger] s@.take(i as int)[k]) by {
                    if k < i - 1 {
                        assert(s@.take(i as int)[k] == s@.take(i - 1)[k]);
                    }
                }
            }
        }
    }
    proof {
        assert(s@.take(s@.len() as int) =~= s@);
    }
    Some(v)
}

/// The values a range part stands for, as `(first, last)`: `*` for the
/// field's whole range `lo..=hi`, `a-b`, or a single number `a` (which,
/// before a step, runs to the end of the field).
pub open spec fn range_of(base: Seq<char>, lo: nat, hi: nat, stepped: bool) -> Option<(nat, nat)> {
    if base == seq!['*'] {
        Some((lo, hi))
    } else {
        match first_index(base, '-') {
            Some(i) => match (num_of(base.take(i)), num_of(base.skip(i + 1))) {
                (Some(a), Some(b)) => Some((a, b)),
                _ => None,
            },
            None => match num_of(base) {
                Some(a) => Some((a, if stepped { hi } else { a })),
                None => None,
            },
        }
    }
}

/// One item of a comma list matches `v`: a range part, optionally followed
/// by `/step` with a positive step counted from the range's first value.
pub open spec fn item_matches(item: Seq<char>, v: nat, lo: nat, hi: nat) -> bool {
    match first_index(item, '/') {
        None => match range_of(item, lo, hi, false) {
            Some((a, b)) => a <= v <= b,
            None => false,
        },
        Some(i) => match (range_of(item.take(i), lo, hi, true), num_of(item.skip(i + 1))) {
            (Some((a, b)), Some(st)) => st > 0 && a <= v <= b && (v - a) % (st as int) == 0,
            _ => false,
        },
    }
}

/// A field (a comma list of items) matches `v` when one of its items does.
pub open spec fn field_matches(f: Seq<char>, v: nat, lo: nat, hi: nat) -> bool
    decreases f.len(),
{
    match first_index(f, ',') {
        None => item_matches(f, v, lo, hi),
        Some(i) => {
            proof {
                lemma_first_index_bound(f, ',');
            }
            item_matches(f.take(i), v, lo, hi) || field_matches(f.skip(i + 1), v, lo, hi)
        },
    }
}

fn range_in(base: &[char], lo: u64, hi: u64, stepped: bool) -> (r: Option<(u64, u64)>)
    ensures
        r matches Some((a, b)) ==> range_of(base@, lo as nat, hi as nat, stepped) == Some((a as nat, b as nat)),
        r is None ==> range_of(base@, lo as nat, hi as nat, stepped) is None,
{
    if base.len() == 1 && base[0] == '*' {
        assert(base@ =~= seq!['*']);
        return Some((lo, hi));
    }
    assert(base@ != seq!['*']);
    match find_first_char(base, '-') {
        Some(i) => {
            let left = sub_chars(base, 0, i);
            let right = sub_chars(base, i + 1, base.len());
            assert(left@ =~= base@.take(i as int));
            assert(right@ =~= base@.skip(i + 1));
            match (num_in(left.as_slice()), num_in(right.as_slice())) {
                (Some(a), Some(b)) => Some((a, b)),
                _ => None,
            }
        },
        None => match num_in(base) {
            Some(a) => Some((a, if stepped { hi } else { a })),
            None => None,
        },
    }
}

fn item_in(item: &[char], v: u64, lo: u64, hi: u64) -> (r: bool)
    ensures
        r == item_matches(item@, v as nat, lo as nat, hi as nat),
{
    match find_first_char(item, '/') {
        None => match range_in(item, lo, hi, false) {
            Some((a, b)) => a <= v && v <= b,
            None => false,
        },
        Some(i) => {
            let n = item.len();
            assert(i < n);
            let base = sub_chars(item, 0, i);
            let step = sub_chars(item, i + 1, n);
            assert(base@ =~= item@.take(i as int));
            assert(step@ =~= item@.skip(i + 1));
            match (range_in(base.as_slice(), lo, hi, true), num_in(step.as_slice())) {
                (Some((a, b)), Some(st)) => st > 0 && a <= v && v <= b && (v - a) % st == 0,
                _ => false,
            }
        },
    }
}

fn field_in(f: &[char], v: u64, lo: u64, hi: u64) -> (r: bool)
    ensures
        r == field_matches(f@, v as nat, lo as nat, hi as nat),
    decreases f@.len(),
{
    match find_first_char(f, ',') {
        None => item_in(f, v, lo, hi),
        Some(i) => {
            let n = f.len();
            assert(i < n);
            let item = sub_chars(f, 0, i);
            let rest = sub_chars(f, i + 1, n);
            assert(item@ =~= f@.take(i as int));
            assert(rest@ =~= f@.skip(i + 1));
            if item_in(item.as_slice(), v, lo, hi) {
                true
            } else {
                field_in(rest.as_slice(), v, lo, hi)
            }
        },
    }
}

/// The space-separated words of `s`, empty ones dropped.
pub open spec fn words(s: Seq<char>) -> Seq<Seq<char>>
    decreases s.len(),
{
    match first_index(s, ' ') {
        None => if s.len() == 0 {
            Seq::empty()
        } else {
            seq![s]
        },
        Some(i) => {
            proof {
                lemma_first_index_bound(s, ' ');
            }
            if i == 0 {
                words(s.skip(1))
            } else {
                seq![s.take(i)] + words(s.skip(i + 1))
            }
        },
    }
}

/// The field is unrestricted: it starts with `*`.
pub open spec fn starts_star(f: Seq<char>) -> bool {
    f.len() > 0 && f[0] == '*'
}

/// The cron expression `expr` is due at the minute `t`: it has five fields
/// (minute 0-59, hour 0-23, day of month 1-31, month 1-12, day of week 0-7
/// with both 0 and 7 for Sunday), minute, hour and month match, and the day
/// matches: both day fields when either is unrestricted, else either one.
/// A malformed expression is never due.
pub open spec fn cron_matches(expr: Seq<char>, t: CronTime) -> bool {
    let w = words(expr);
    let dom = field_matches(w[2], t.day as nat, 1, 31);
    let dow = field_matches(w[4], t.weekday as nat, 0, 7) || (t.weekday == 0 && field_matches(w[4], 7, 0, 7));
    &&& w.len() == 5
    &&& field_matches(w[0], t.minute as nat, 0, 59)
    &&& field_matches(w[1], t.hour as nat, 0, 23)
    &&& field_matches(w[3], t.month as nat, 1, 12)
    &&& if starts_star(w[2]) || starts_star(w[4]) {
        dom && dow
    } else {
        dom || dow
    }
}

fn words_in(s: &[char]) -> (r: Vec<Vec<char>>)
    ensures
        r@.len() == words(s@).len(),
        forall|k: int| 0 <= k < r@.len() ==> (#[trigger] r@[k])@ == words(s@)[k],
    decreases s@.len(),
{
    match find_first_char(s, ' ') {
        None => {
            let mut r: Vec<Vec<char>> = Vec::new();
            if s.len() > 0 {
                let all = sub_chars(s, 0, s.len());
                assert(all@ =~= s@);
                r.push(all);
            }
            r
        },
        Some(i) => {
            let n = s.len();
            assert(i < n);
            let rest_chars = sub_chars(s, i + 1, n);
            assert(rest_chars@ =~= s@.skip(i + 1));
            if i == 0 {
                words_in(rest_chars.as_slice())
            } else {
                let first = sub_chars(s, 0, i);
                assert(first@ =~= s@.take(i as int));
                let mut rest = words_in(rest_chars.as_slice());
                let ghost old_rest = rest@;
                rest.insert(0, first);
                proof {
                    let w = words(s@);
                    assert(w == seq![s@.take(i as int)] + words(s@.skip(i + 1)));
                    assert forall|k: int| 0 <= k < rest@.len() implies (#[trigger] rest@[k])@ == w[k] by {
                        if k > 0 {
                            assert(rest@[k] == old_rest[k - 1]);
                        }
                    }
                }
                rest
            }
        },
    }
}

fn starts_star_in(f: &Vec<char>) -> (r: bool)
    ensures
        r == starts_star(f@),
{
    f.len() > 0 && f[0] == '*'
}

/// Whether the cron expression is due at the minute `t` (see
/// `cron_matches`).
pub fn cron_due(expr: &str, t: CronTime) -> (r: bool)
    ensures
        r == cron_matches(expr@, t),
{
    let cs = crate::text::chars_of(expr);
    let w = words_in(cs.as_slice());
    if w.len() != 5 {
        return false;
    }
    let dom = field_in(w[2].as_slice(), t.day as u64, 1, 31);
    let dow = field_in(w[4].as_slice(), t.weekday as u64, 0, 7)
        || (t.weekday == 0 && field_in(w[4].as_slice(), 7, 0, 7));
    let day_ok = if starts_star_in(&w[2]) || starts_star_in(&w[4]) {
        dom && dow
    } else {
        dom || dow
    };
    field_in(w[0].as_slice(), t.minute as u64, 0, 59) && field_in(w[1].as_slice(), t.hour as u64, 0, 23)
        && field_in(w[3].as_slice(), t.month as u64, 1, 12) && day_ok
}

} // verus!
