//! The wall clock, and the decimal text of a number of milliseconds.

use vstd::prelude::*;

verus! {

/// The character of the decimal digit `d`.
pub open spec fn digit_char(d: nat) -> char {
    if d == 0 {
        '0'
    } else if d == 1 {
        '1'
    } else if d == 2 {
        '2'
    } else if d == 3 {
        '3'
    } else if d == 4 {
        '4'
    } else if d == 5 {
        '5'
    } else if d == 6 {
        '6'
    } else if d == 7 {
        '7'
    } else if d == 8 {
        '8'
    } else {
        '9'
    }
}

/// The decimal digits of `n`, most significant first, without a sign and
/// without leading zeros.
pub open spec fn decimal(n: nat) -> Seq<char>
    decreases n,
{
    if n < 10 {
        seq![digit_char(n)]
    } else {
        decimal(n / 10).push(digit_char(n % 10))
    }
}

fn digit_text(d: u128) -> (text: &'static str)
    requires
        d < 10,
    ensures
        text@ == seq![digit_char(d as nat)],
{
    proof {
        reveal_strlit("0");
        reveal_strlit("1");
        reveal_strlit("2");
        reveal_strlit("3");
        reveal_strlit("4");
        reveal_strlit("5");
        reveal_strlit("6");
        reveal_strlit("7");
        reveal_strlit("8");
        reveal_strlit("9");
    }
    let text = if d == 0 {
        "0"
    } else if d == 1 {
        "1"
    } else if d == 2 {
        "2"
    } else if d == 3 {
        "3"
    } else if d == 4 {
        "4"
    } else if d == 5 {
        "5"
    } else if d == 6 {
        "6"
    } else if d == 7 {
        "7"
    } else if d == 8 {
        "8"
    } else {
        "9"
    };
    assert(text@ =~= seq![digit_char(d as nat)]);
    text
}

/// The decimal text of `millis`.
pub fn timestamp_text(millis: u128) -> (text: String)
    ensures
        text@ == decimal(millis as nat),
    decreases millis,
{
    if millis < 10 {
        digit_text(millis).to_owned()
    } else {
        let mut text = timestamp_text(millis / 10);
        text.append(digit_text(millis % 10));
        text
    }
}

/// Reads the wall clock with `std::time::SystemTime::elapsed` on
/// `UNIX_EPOCH`: the time since the epoch, or `None` where the clock stands
/// before it. Nothing is claimed of the time.
#[verifier::external_body]
fn since_epoch() -> (elapsed: Option<core::time::Duration>) {
    std::time::UNIX_EPOCH.elapsed().ok()
}

/// Calls `core::time::Duration::as_millis`: the whole milliseconds of
/// `elapsed`. Nothing is claimed of the number.
#[verifier::external_body]
fn whole_millis(elapsed: core::time::Duration) -> (millis: u128) {
    elapsed.as_millis()
}

/// The current time as the decimal text of the milliseconds since the Unix
/// epoch, or `None` where the clock stands before the epoch.
pub fn ms_timestamp() -> (text: Option<String>)
    ensures
        text matches Some(t) ==> exists|millis: nat| t@ == decimal(millis),
{
    match since_epoch() {
        Some(elapsed) => Some(timestamp_text(whole_millis(elapsed))),
        None => None,
    }
}

} // verus!
