//! Byte counts, speeds and times as short texts.

use vstd::prelude::*;

use crate::decimal::{decimal, decimal_pair, push_decimal, push_decimal_pair};
use crate::rounding::{as_double, nearest_even, powers_by_value, round_half_even, to_double, two_to};

verus! {

/// A number of tenths as a text with one decimal.
pub open spec fn tenths_text(tenths: nat) -> Seq<char> {
    decimal(tenths / 10) + "."@ + decimal(tenths % 10)
}

/// A number of hundredths as a text with two decimals.
pub open spec fn hundredths_text(hundredths: nat) -> Seq<char> {
    decimal(hundredths / 100) + "."@ + decimal_pair(hundredths % 100)
}

/// A byte count in the largest binary unit that it reaches: two decimals for
/// gigabytes and megabytes, one for kilobytes, none for bytes. The count is
/// taken with 53 bits of precision, and the decimals are rounded half to
/// even.
pub open spec fn bytes_text(bytes: nat) -> Seq<char> {
    let value = as_double(bytes);
    if value >= two_to(30) {
        hundredths_text(nearest_even(value * 100, two_to(30))) + " GB"@
    } else if value >= two_to(20) {
        hundredths_text(nearest_even(value * 100, two_to(20))) + " MB"@
    } else if value >= two_to(10) {
        tenths_text(nearest_even(value * 10, two_to(10))) + " KB"@
    } else {
        decimal(value) + " B"@
    }
}

/// A remaining time in its two largest units.
pub open spec fn eta_text(eta: Option<u64>) -> Seq<char> {
    match eta {
        None => "Calculating…"@,
        Some(total) => {
            let hours = (total / 3600) as nat;
            let minutes = (total % 3600 / 60) as nat;
            let seconds = (total % 60) as nat;
            if hours > 0 {
                decimal(hours) + "h "@ + decimal(minutes) + "m"@
            } else if minutes > 0 {
                decimal(minutes) + "m "@ + decimal(seconds) + "s"@
            } else {
                decimal(seconds) + "s"@
            }
        },
    }
}

/// An elapsed time as `h:mm:ss`, or as `m:ss` below one hour.
pub open spec fn elapsed_text(total: u64) -> Seq<char> {
    let hours = (total / 3600) as nat;
    let minutes = (total % 3600 / 60) as nat;
    let seconds = (total % 60) as nat;
    if hours > 0 {
        decimal(hours) + ":"@ + decimal_pair(minutes) + ":"@ + decimal_pair(seconds)
    } else {
        decimal(minutes) + ":"@ + decimal_pair(seconds)
    }
}

/// Appends a number of hundredths as a text with two decimals.
pub fn push_hundredths(out: &mut String, hundredths: u128)
    requires
        hundredths / 100 <= u64::MAX,
    ensures
        final(out)@ == old(out)@ + hundredths_text(hundredths as nat),
{
    push_decimal(out, (hundredths / 100) as u64);
    out.append(".");
    push_decimal_pair(out, (hundredths % 100) as u64);
    assert(out@ =~= old(out)@ + hundredths_text(hundredths as nat));
}

/// Appends a number of tenths as a text with one decimal.
pub fn push_tenths(out: &mut String, tenths: u128)
    requires
        tenths / 10 <= u64::MAX,
    ensures
        final(out)@ == old(out)@ + tenths_text(tenths as nat),
{
    push_decimal(out, (tenths / 10) as u64);
    out.append(".");
    push_decimal(out, (tenths % 10) as u64);
    assert(out@ =~= old(out)@ + tenths_text(tenths as nat));
}

/// A byte count in the largest binary unit that it reaches.
pub fn format_bytes(bytes: u64) -> (text: String)
    ensures
        text@ == bytes_text(bytes as nat),
{
    let value = to_double(bytes);
    let mut text = String::new();
    proof {
        powers_by_value();
    }
    if value >= 0x4000_0000 {
        let hundredths = round_half_even(value * 100, 0x4000_0000);
        push_hundredths(&mut text, hundredths);
        text.append(" GB");
    } else if value >= 0x10_0000 {
        let hundredths = round_half_even(value * 100, 0x10_0000);
        push_hundredths(&mut text, hundredths);
        text.append(" MB");
    } else if value >= 0x400 {
        let tenths = round_half_even(value * 10, 0x400);
        push_tenths(&mut text, tenths);
        text.append(" KB");
    } else {
        push_decimal(&mut text, value as u64);
        text.append(" B");
    }
    assert(text@ =~= bytes_text(bytes as nat));
    text
}

/// A speed, counted in whole bytes per second.
pub fn format_speed(bytes_per_sec: u64) -> (text: String)
    ensures
        text@ == bytes_text(bytes_per_sec as nat) + "/s"@,
{
    let mut text = format_bytes(bytes_per_sec);
    text.append("/s");
    text
}

/// A remaining time, counted in whole seconds, in its two largest units.
pub fn format_eta(eta: Option<u64>) -> (text: String)
    ensures
        text@ == eta_text(eta),
{
    let total_seconds = match eta {
        Some(total_seconds) => total_seconds,
        None => {
            return "Calculating…".to_owned();
        },
    };
    let hours = total_seconds / 3600;
    let minutes = (total_seconds % 3600) / 60;
    let seconds = total_seconds % 60;
    let mut text = String::new();
    if hours > 0 {
        push_decimal(&mut text, hours);
        text.append("h ");
        push_decimal(&mut text, minutes);
        text.append("m");
    } else if minutes > 0 {
        push_decimal(&mut text, minutes);
        text.append("m ");
        push_decimal(&mut text, seconds);
        text.append("s");
    } else {
        push_decimal(&mut text, seconds);
        text.append("s");
    }
    assert(text@ =~= eta_text(eta));
    text
}

/// An elapsed time, counted in whole seconds, that always shows the seconds:
/// `1:02:03`, or `2:03` below one hour.
pub fn format_elapsed(elapsed: u64) -> (text: String)
    ensures
        text@ == elapsed_text(elapsed),
{
    let hours = elapsed / 3600;
    let minutes = (elapsed % 3600) / 60;
    let seconds = elapsed % 60;
    let mut text = String::new();
    if hours > 0 {
        push_decimal(&mut text, hours);
        text.append(":");
        push_decimal_pair(&mut text, minutes);
        text.append(":");
        push_decimal_pair(&mut text, seconds);
    } else {
        push_decimal(&mut text, minutes);
        text.append(":");
        push_decimal_pair(&mut text, seconds);
    }
    assert(text@ =~= elapsed_text(elapsed));
    text
}

} // verus!
