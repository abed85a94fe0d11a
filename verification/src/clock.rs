use vstd::prelude::*;

verus! {

/// The format of a time of day: hours, minutes and seconds, two digits each.
pub const TIME_OF_DAY_FORMAT: &'static str = "%H:%M:%S";

/// Whether `t[i]` is an ASCII decimal digit.
pub open spec fn digit_at(t: Seq<char>, i: int) -> bool {
    '0' <= t[i] && t[i] <= '9'
}

/// The value of the two decimal digits of `t` at `i` and `i + 1`.
pub open spec fn two_digits(t: Seq<char>, i: int) -> int {
    (t[i] as int - '0' as int) * 10 + (t[i + 1] as int - '0' as int)
}

/// Whether `t` reads as a time of day `HH:MM:SS`: two digits each, hours
/// 00 to 23, minutes 00 to 59, seconds 00 to 60 (a leap second), separated
/// by colons.
pub open spec fn is_clock_text(t: Seq<char>) -> bool {
    &&& t.len() == 8
    &&& t[2] == ':'
    &&& t[5] == ':'
    &&& digit_at(t, 0) && digit_at(t, 1)
    &&& digit_at(t, 3) && digit_at(t, 4)
    &&& digit_at(t, 6) && digit_at(t, 7)
    &&& two_digits(t, 0) <= 23
    &&& two_digits(t, 3) <= 59
    &&& two_digits(t, 6) <= 60
}

/// Reads the local wall-clock time with `chrono::Local::now` and renders it
/// with `DelayedFormat` of `format`, which must be `%H:%M:%S`. The contract
/// claims only the shape that chrono's documentation gives these specifiers
/// (`%H` 00-23, `%M` 00-59, `%S` 00-60, each zero-padded to two digits); which
/// time it is depends on the moment and on the machine's time zone and is
/// left unsaid.
#[verifier::external_body]
pub(crate) fn local_time_of_day(format: &str) -> (t: String)
    requires
        format@ == TIME_OF_DAY_FORMAT@,
    ensures
        is_clock_text(t@),
{
    chrono::Local::now().format(format).to_string()
}

} // verus!
