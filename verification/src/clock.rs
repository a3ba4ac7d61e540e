//! Identifiers and timestamps that come from outside the library's logic.
use vstd::prelude::*;

verus! {

/// A decimal digit.
pub open spec fn is_digit(c: char) -> bool {
    '0' <= c && c <= '9'
}

/// A lower-case hexadecimal digit.
pub open spec fn is_lower_hex(c: char) -> bool {
    is_digit(c) || ('a' <= c && c <= 'f')
}

/// Every character is a decimal digit.
pub open spec fn all_digits(s: Seq<char>) -> bool {
    forall|i: int| 0 <= i < s.len() ==> is_digit(#[trigger] s[i])
}

/// The hyphenated lower-case form of a UUID: 8-4-4-4-12 hexadecimal digits.
pub open spec fn is_hyphenated_uuid(s: Seq<char>) -> bool {
    &&& s.len() == 36
    &&& forall|i: int| 0 <= i < 36 ==> (if i == 8 || i == 13 || i == 18 || i == 23 {
        #[trigger] s[i] == '-'
    } else {
        is_lower_hex(s[i])
    })
}

/// The year part of a timestamp: four digits, or `+` and five or more.
pub open spec fn year_text(t: Seq<char>) -> bool {
    (t.len() == 4 && all_digits(t)) || (t.len() >= 6 && t[0] == '+' && all_digits(t.skip(1)))
}

/// `s` is `Y-MM-DDTHH:MM:SS`, then a fraction of `f - 1` digits after a dot
/// (none when `f` is 0), then `+00:00`, with a year part `Y` of `y`
/// characters.
pub open spec fn rfc3339_parts(s: Seq<char>, y: int, f: int) -> bool {
    &&& s.len() == y + 15 + f + 6
    &&& year_text(s.take(y))
    &&& s[y] == '-' && all_digits(s.subrange(y + 1, y + 3))
    &&& s[y + 3] == '-' && all_digits(s.subrange(y + 4, y + 6))
    &&& s[y + 6] == 'T' && all_digits(s.subrange(y + 7, y + 9))
    &&& s[y + 9] == ':' && all_digits(s.subrange(y + 10, y + 12))
    &&& s[y + 12] == ':' && all_digits(s.subrange(y + 13, y + 15))
    &&& (f == 0 || ((f == 4 || f == 7 || f == 10) && s[y + 15] == '.' && all_digits(s.subrange(y + 16, y + 15 + f))))
    &&& s.skip(y + 15 + f) == seq!['+', '0', '0', ':', '0', '0']
}

/// An RFC 3339 timestamp in UTC as chrono writes it with `to_rfc3339`:
/// date, `T`, time to the second, an optional fraction of 3, 6 or 9 digits,
/// and the offset `+00:00`.
pub open spec fn is_rfc3339_utc(s: Seq<char>) -> bool {
    exists|y: int, f: int| #[trigger] rfc3339_parts(s, y, f)
}

/// Calls `uuid::Uuid::new_v4()` and renders it with `Display`, which the
/// crate writes as the lower-case hyphenated form (8-4-4-4-12 hexadecimal
/// digits). The value is random; only its shape is stated.
#[verifier::external_body]
pub(crate) fn new_uuid_v4() -> (id: String)
    ensures
        is_hyphenated_uuid(id@),
{
    uuid::Uuid::new_v4().to_string()
}

/// The RFC 3339 text chrono gives for the instant `ms` milliseconds after
/// the Unix epoch, or `None` past chrono's range of dates.
pub uninterp spec fn rfc3339_at(ms: u64) -> Option<Seq<char>>;

/// Builds the instant with `chrono::DateTime::from_timestamp_millis` and
/// renders it with `to_rfc3339`, which writes the date and time in UTC
/// with an automatic fraction (none, or 3, 6 or 9 digits) and the offset
/// `+00:00`; `None` when chrono has no such instant (or `ms` does not fit
/// in an `i64`). The text is named `rfc3339_at`; from the epoch on, the
/// year has four digits, or a `+` and more past 9999.
#[verifier::external_body]
fn rfc3339_of_millis(ms: u64) -> (r: Option<String>)
    ensures
        r matches Some(t) ==> rfc3339_at(ms) == Some(t@) && is_rfc3339_utc(t@),
        r is None ==> rfc3339_at(ms) is None,
{
    let millis = match i64::try_from(ms) {
        Ok(m) => m,
        Err(_) => return None,
    };
    match chrono::DateTime::from_timestamp_millis(millis) {
        Some(d) => Some(d.to_rfc3339()),
        None => None,
    }
}

/// The current time as RFC 3339 text in UTC: the clock's milliseconds
/// since the epoch (see `now_unix_ms`, which gives 0 for a clock set
/// before 1970) rendered by chrono, or the epoch itself where chrono has
/// no instant for them.
pub(crate) fn now_rfc3339() -> (t: String)
    ensures
        is_rfc3339_utc(t@),
{
    match rfc3339_of_millis(now_unix_ms()) {
        Some(t) => t,
        None => {
            let t = "1970-01-01T00:00:00+00:00";
            proof {
                reveal_strlit("1970-01-01T00:00:00+00:00");
                let s = t@;
                assert(s.take(4) =~= seq!['1', '9', '7', '0']);
                assert(all_digits(s.take(4)));
                assert(s.subrange(5, 7) =~= seq!['0', '1']);
                assert(s.subrange(8, 10) =~= seq!['0', '1']);
                assert(s.subrange(11, 13) =~= seq!['0', '0']);
                assert(s.subrange(14, 16) =~= seq!['0', '0']);
                assert(s.subrange(17, 19) =~= seq!['0', '0']);
                assert(all_digits(s.subrange(5, 7)));
                assert(all_digits(s.subrange(8, 10)));
                assert(all_digits(s.subrange(11, 13)));
                assert(all_digits(s.subrange(14, 16)));
                assert(all_digits(s.subrange(17, 19)));
                assert(s.skip(19) =~= seq!['+', '0', '0', ':', '0', '0']);
                assert(rfc3339_parts(s, 4, 0));
            }
            t.to_owned()
        },
    }
}

/// Calls `std::time::SystemTime::now()` and takes the milliseconds since
/// the Unix epoch, or 0 for a clock set before the epoch. The value depends
/// on the clock, so nothing about it is stated.
#[verifier::external_body]
pub(crate) fn now_unix_ms() -> u64 {
    match std::time::SystemTime::now().duration_since(std::time::UNIX_EPOCH) {
        Ok(d) => d.as_millis() as u64,
        Err(_) => 0,
    }
}

} // verus!
