//! Small numeric and text helpers shared by the overview and detail screens.

use vstd::prelude::*;

verus! {

/// Relies on `String::push`: appends the given character to the end of the
/// string.
#[verifier::external_body]
pub(crate) fn push_char(s: &mut String, c: char)
    ensures
        final(s)@ == old(s)@.push(c),
{
    s.push(c)
}

/// What fraction of `total` the value `used` is, in whole percent,
/// rounded down; 0 when `total` is 0, and capped at `u64::MAX`.
pub open spec fn percentage_spec(used: int, total: int) -> int {
    if total <= 0 {
        0
    } else if used * 100 / total > u64::MAX {
        u64::MAX as int
    } else {
        used * 100 / total
    }
}

/// Shows the total usage as percentage.
pub fn used_as_percentage(used: u64, total: u64) -> (r: u64)
    ensures
        r == percentage_spec(used as int, total as int),
{
    if total == 0 {
        0
    } else {
        let wide: u128 = (used as u128) * 100 / (total as u128);
        proof {
            assert((used as u128) * 100 == used * 100) by (nonlinear_arith);
            assert(used * 100 / (total as int) <= used * 100) by (nonlinear_arith)
                requires
                    total >= 1,
                    used >= 0,
            ;
        }
        if wide > u64::MAX as u128 {
            u64::MAX
        } else {
            wide as u64
        }
    }
}

/// Calculate how much space is used and return it as a percentage of `total`.
pub fn used_percentage(available: u64, total: u64) -> (r: u64)
    requires
        available <= total,
    ensures
        r == percentage_spec(total - available, total as int),
{
    used_as_percentage(total - available, total)
}

/// The decimal digit `d` as a character.
pub open spec fn digit_char(d: int) -> char {
    if d == 0 {
        '0'
    } else if d == 1 {
        '1'
    } else if d == 2 {
        '2'
    } else if d == 3 {
        '3'
    } else if d == 4 {
        '4'
    } else if d == 5 {
        '5'
    } else if d == 6 {
        '6'
    } else if d == 7 {
        '7'
    } else if d == 8 {
        '8'
    } else {
        '9'
    }
}

/// `n` written in decimal, most significant digit first.
pub open spec fn dec_seq(n: int) -> Seq<char>
    decreases n,
{
    if n < 10 {
        seq![digit_char(n)]
    } else {
        dec_seq(n / 10).push(digit_char(n % 10))
    }
}

/// `n` written in decimal and padded with a leading 0 to at least two
/// digits.
pub open spec fn padded2(n: int) -> Seq<char> {
    if n < 10 {
        seq!['0'].push(digit_char(n))
    } else {
        dec_seq(n)
    }
}

/// `parts` joined with a comma and a space.
pub open spec fn comma_join(parts: Seq<Seq<char>>) -> Seq<char>
    decreases parts.len(),
{
    if parts.len() == 0 {
        Seq::empty()
    } else if parts.len() == 1 {
        parts[0]
    } else {
        comma_join(parts.drop_last()) + ", "@ + parts.last()
    }
}

/// What `format_seconds` produces: days, hours and minutes, each two or
/// more digits, each included only when it is not zero, joined with commas.
pub open spec fn seconds_text(seconds: u64) -> Seq<char> {
    let days = seconds as int / 86400;
    let hours = (seconds as int / 3600) % 24;
    let minutes = (seconds as int / 60) % 60;
    let day_parts: Seq<Seq<char>> = if days > 0 {
        seq![padded2(days) + " days"@]
    } else {
        Seq::empty()
    };
    let hour_parts: Seq<Seq<char>> = if hours > 0 {
        seq![padded2(hours) + " hours"@]
    } else {
        Seq::empty()
    };
    let minute_parts: Seq<Seq<char>> = if minutes > 0 {
        seq![padded2(minutes) + " minutes"@]
    } else {
        Seq::empty()
    };
    comma_join(day_parts + hour_parts + minute_parts)
}

/// One decimal digit as a character.
fn digit_char_exec(d: u64) -> (c: char)
    requires
        d < 10,
    ensures
        c == digit_char(d as int),
{
    match d {
        0 => '0',
        1 => '1',
        2 => '2',
        3 => '3',
        4 => '4',
        5 => '5',
        6 => '6',
        7 => '7',
        8 => '8',
        _ => '9',
    }
}

/// `n` in decimal.
pub fn format_u64(n: u64) -> (s: String)
    ensures
        s@ == dec_seq(n as int),
    decreases n,
{
    if n < 10 {
        let mut s = String::new();
        push_char(&mut s, digit_char_exec(n));
        proof {
            assert(s@ =~= dec_seq(n as int));
        }
        s
    } else {
        let mut s = format_u64(n / 10);
        push_char(&mut s, digit_char_exec(n % 10));
        s
    }
}

/// `n` in decimal, padded with a leading 0 to at least two digits.
pub fn format_padded2(n: u64) -> (s: String)
    ensures
        s@ == padded2(n as int),
{
    if n < 10 {
        let mut s = String::new();
        push_char(&mut s, '0');
        push_char(&mut s, digit_char_exec(n));
        proof {
            assert(s@ =~= padded2(n as int));
        }
        s
    } else {
        format_u64(n)
    }
}

/// Formats seconds into a days/hours/minutes `String`: each unit is two or
/// more digits, units that are zero are left out, and the rest are joined
/// with ", ". Less than a full minute gives an empty string.
pub fn format_seconds(seconds: u64) -> (s: String)
    ensures
        s@ == seconds_text(seconds),
{
    let days = seconds / (24 * 3600);
    let hours = (seconds / 3600) % 24;
    let minutes = (seconds / 60) % 60;
    let mut time_units: Vec<String> = Vec::new();

    if days > 0 {
        let mut unit = format_padded2(days);
        unit.append(" days");
        time_units.push(unit);
    }
    if hours > 0 {
        let mut unit = format_padded2(hours);
        unit.append(" hours");
        time_units.push(unit);
    }
    if minutes > 0 {
        let mut unit = format_padded2(minutes);
        unit.append(" minutes");
        time_units.push(unit);
    }
    let ghost parts = time_units.deep_view();
    proof {
        assert(seconds_text(seconds) == comma_join(parts)) by {
            assert(parts =~= (if seconds as int / 86400 > 0 {
                seq![padded2(seconds as int / 86400) + " days"@]
            } else {
                Seq::<Seq<char>>::empty()
            }) + (if (seconds as int / 3600) % 24 > 0 {
                seq![padded2((seconds as int / 3600) % 24) + " hours"@]
            } else {
                Seq::<Seq<char>>::empty()
            }) + (if (seconds as int / 60) % 60 > 0 {
                seq![padded2((seconds as int / 60) % 60) + " minutes"@]
            } else {
                Seq::<Seq<char>>::empty()
            }));
        }
    }
    let mut out = String::new();
    let k = time_units.len();
    let mut i: usize = 0;
    while i < k
        invariant
            i <= k,
            k == time_units@.len(),
            parts == time_units.deep_view(),
            out@ == comma_join(parts.take(i as int)),
        decreases k - i,
    {
        if i > 0 {
            out.append(", ");
        }
        out.append(time_units[i].as_str());
        proof {
            assert(parts.take(i + 1).drop_last() =~= parts.take(i as int));
            assert(parts.take(i + 1).last() == parts[i as int]);
        }
        i = i + 1;
    }
    proof {
        assert(parts.take(k as int) =~= parts);
    }
    out
}

/// The value scaled to hundredths against `divisor`, rounded to the nearest
/// hundredth with halves rounding up.
pub open spec fn scaled_hundredths(kilobytes: int, divisor: int) -> int {
    (kilobytes * 100 + divisor / 2) / divisor
}

/// What `format_kilobytes` produces: below 1024 the raw KB count; above,
/// the value in the next fitting unit with exactly two decimal places.
pub open spec fn kilobytes_text(kilobytes: u64) -> Seq<char> {
    let kb: int = 1024;
    let mb: int = 1024int * 1024;
    let gb: int = 1024int * 1024 * 1024;
    if kilobytes < kb {
        dec_seq(kilobytes as int) + " KB"@
    } else if kilobytes < mb {
        decimal2(scaled_hundredths(kilobytes as int, kb)) + " MB"@
    } else if kilobytes < gb {
        decimal2(scaled_hundredths(kilobytes as int, mb)) + " GB"@
    } else {
        decimal2(scaled_hundredths(kilobytes as int, gb)) + " TB"@
    }
}

/// A count of hundredths written with two decimal places.
pub open spec fn decimal2(hundredths: int) -> Seq<char> {
    dec_seq(hundredths / 100) + "."@ + padded2(hundredths % 100)
}

const KB: u64 = 1024;

const MB: u64 = 1024 * 1024;

const GB: u64 = 1024 * 1024 * 1024;

/// The value scaled to hundredths against `divisor`.
fn hundredths_of(kilobytes: u64, divisor: u64) -> (r: u64)
    requires
        divisor >= 1024,
    ensures
        r == scaled_hundredths(kilobytes as int, divisor as int),
{
    let wide: u128 = ((kilobytes as u128) * 100 + (divisor as u128) / 2) / (divisor as u128);
    proof {
        assert((kilobytes * 100 + divisor as int / 2) / (divisor as int) <= u64::MAX)
            by (nonlinear_arith)
            requires
                0 <= kilobytes <= u64::MAX,
                divisor >= 1024,
        ;
    }
    wide as u64
}

/// A count of hundredths as a `String` with two decimal places.
fn format_decimal2(hundredths: u64) -> (s: String)
    ensures
        s@ == decimal2(hundredths as int),
{
    let mut s = format_u64(hundredths / 100);
    s.append(".");
    let frac = format_padded2(hundredths % 100);
    s.append(frac.as_str());
    s
}

/// Formats a KB count into a `String` in the best fitting unit: plain KB
/// below 1024, otherwise MB, GB or TB with two decimal places (rounded to
/// the nearest hundredth, halves up).
pub fn format_kilobytes(kilobytes: u64) -> (s: String)
    ensures
        s@ == kilobytes_text(kilobytes),
{
    if kilobytes < KB {
        let mut s = format_u64(kilobytes);
        s.append(" KB");
        s
    } else if kilobytes < MB {
        let mut s = format_decimal2(hundredths_of(kilobytes, KB));
        s.append(" MB");
        s
    } else if kilobytes < GB {
        let mut s = format_decimal2(hundredths_of(kilobytes, MB));
        s.append(" GB");
        s
    } else {
        let mut s = format_decimal2(hundredths_of(kilobytes, GB));
        s.append(" TB");
        s
    }
}

} // verus!
