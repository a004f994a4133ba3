//! What a reader learns from the short texts.

use vstd::arithmetic::div_mod::lemma_fundamental_div_mod_converse;
use vstd::prelude::*;

use super::format::{bytes_text, eta_text, hundredths_text, tenths_text};
use crate::decimal::{decimal, decimal_pair};
use crate::depot_downloader::percent::{
    percent_hundredths_text, percent_tenths_text, single_units, Percent,
};
use crate::rounding::{nearest_even, powers_by_value, two_to};
use crate::rounding_laws::{counts_are_held_closely, distance, nearest_is_within_a_half};

verus! {

/// A time below a minute is its seconds, one below an hour its minutes and
/// seconds, and any other its hours and minutes; the parts add up to the time,
/// but for the seconds beyond an hour, and every part but the first stays below
/// sixty.
pub proof fn times_are_told_in_their_parts(hours: u64, minutes: u64, seconds: u64, total: u64)
    requires
        minutes < 60,
        seconds < 60,
        total == hours * 3600 + minutes * 60 + seconds,
    ensures
        hours > 0 ==> eta_text(Some(total)) == decimal(hours as nat) + "h "@ + decimal(
            minutes as nat,
        ) + "m"@,
        hours == 0 && minutes > 0 ==> eta_text(Some(total)) == decimal(minutes as nat) + "m "@
            + decimal(seconds as nat) + "s"@,
        hours == 0 && minutes == 0 ==> eta_text(Some(total)) == decimal(seconds as nat) + "s"@,
{
    assert(total / 3600 == hours);
    assert(total % 3600 == minutes * 60 + seconds);
    assert(total % 3600 / 60 == minutes);
    assert(total % 60 == seconds);
}

/// A number with decimals is its whole part, a point and its decimals, one or
/// two of them whatever they are.
pub proof fn decimals_follow_the_point(whole: nat, part: nat)
    ensures
        part < 10 ==> tenths_text(whole * 10 + part) == decimal(whole) + "."@ + decimal(part),
        part < 100 ==> hundredths_text(whole * 100 + part) == decimal(whole) + "."@ + decimal_pair(
            part,
        ),
        part < 10 ==> decimal_pair(part) == seq!['0'] + decimal(part),
        10 <= part < 100 ==> decimal_pair(part) == decimal(part) && decimal(part).len() == 2,
{
    if part < 10 {
        lemma_fundamental_div_mod_converse(
            (whole * 10 + part) as int,
            10,
            whole as int,
            part as int,
        );
    }
    if part < 100 {
        lemma_fundamental_div_mod_converse(
            (whole * 100 + part) as int,
            100,
            whole as int,
            part as int,
        );
    }
    if 10 <= part < 100 {
        reveal_with_fuel(decimal, 3);
    }
}

/// A count below 1024 is itself in bytes. From there on it is told in
/// kilobytes, from a mega- and from a gigabyte on in those, and the number told
/// is off by no more than half of its last decimal.
pub proof fn counts_are_told_closely(bytes: nat)
    requires
        bytes < two_to(53),
    ensures
        bytes < 1024 ==> bytes_text(bytes) == decimal(bytes) + " B"@,
        1024 <= bytes < 1_048_576 ==> exists|tenths: nat|
            #![trigger tenths_text(tenths)]
            bytes_text(bytes) == tenths_text(tenths) + " KB"@ && 2 * distance(
                tenths * 1024,
                bytes * 10,
            ) <= 1024,
        1_048_576 <= bytes < 1_073_741_824 ==> exists|hundredths: nat|
            #![trigger hundredths_text(hundredths)]
            bytes_text(bytes) == hundredths_text(hundredths) + " MB"@ && 2 * distance(
                hundredths * 1_048_576,
                bytes * 100,
            ) <= 1_048_576,
        1_073_741_824 <= bytes ==> exists|hundredths: nat|
            #![trigger hundredths_text(hundredths)]
            bytes_text(bytes) == hundredths_text(hundredths) + " GB"@ && 2 * distance(
                hundredths * 1_073_741_824,
                bytes * 100,
            ) <= 1_073_741_824,
{
    powers_by_value();
    counts_are_held_closely(bytes);
    if 1024 <= bytes < 1_048_576 {
        let tenths = nearest_even(bytes * 10, two_to(10));
        nearest_is_within_a_half(bytes * 10, two_to(10), 0);
        assert(bytes_text(bytes) == tenths_text(tenths) + " KB"@);
    }
    if 1_048_576 <= bytes < 1_073_741_824 {
        let hundredths = nearest_even(bytes * 100, two_to(20));
        nearest_is_within_a_half(bytes * 100, two_to(20), 0);
        assert(bytes_text(bytes) == hundredths_text(hundredths) + " MB"@);
    }
    if 1_073_741_824 <= bytes {
        let hundredths = nearest_even(bytes * 100, two_to(30));
        nearest_is_within_a_half(bytes * 100, two_to(30), 0);
        assert(bytes_text(bytes) == hundredths_text(hundredths) + " GB"@);
    }
}

/// A percentage is told with one or two decimals, off by no more than half of
/// the last one from the percentage as single precision holds it.
pub proof fn percentages_are_told_closely(hundredths: u64)
    ensures
        ({
            let held = single_units(hundredths as nat);
            let percent = Percent::Hundredths(hundredths);
            &&& exists|tenths: nat|
                #![trigger tenths_text(tenths)]
                percent_tenths_text(percent) == tenths_text(tenths) && 2 * distance(
                    tenths * two_to(30),
                    held * 10,
                ) <= two_to(30)
            &&& exists|told: nat|
                #![trigger hundredths_text(told)]
                percent_hundredths_text(percent) == hundredths_text(told) && 2 * distance(
                    told * two_to(30),
                    held * 100,
                ) <= two_to(30)
        }),
{
    powers_by_value();
    let held = single_units(hundredths as nat);
    nearest_is_within_a_half(held * 10, two_to(30), 0);
    nearest_is_within_a_half(held * 100, two_to(30), 0);
    let percent = Percent::Hundredths(hundredths);
    assert(percent_tenths_text(percent) == tenths_text(nearest_even(held * 10, two_to(30))));
    assert(percent_hundredths_text(percent) == hundredths_text(
        nearest_even(held * 100, two_to(30)),
    ));
}

} // verus!
