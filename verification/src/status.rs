//! The periodic status summary.
//!
//! Every tick samples memory and per-core CPU usage and republishes one
//! fixed-layout line: memory used/total with one decimal each, the
//! aggregate CPU value five wide with two decimals, and the local time.
//! All arithmetic is fixed-point over integers; the host-facing shell
//! converts the sampler's raw readings before calling in and supplies the
//! rendered local timestamp (the platform clock and time-zone machinery
//! can fail in ways a verified function must not).
//!
//! The memory fields show the byte reading in units of 1024^3 bytes: a
//! reading of 2048 megabytes renders as "2.0". The aggregate CPU value is
//! the sum of the per-core usage percentages divided by 100 — "busy core
//! equivalents", not a 0-100 percentage. Both normalizations are the
//! observable contract and are kept as is.

use vstd::prelude::*;

verus! {

use vstd::string::StringExecFns;

/// The character of one decimal digit.
pub open spec fn digit_char(d: int) -> char {
    if d == 0 {
        '0'
    } else if d == 1 {
        '1'
    } else if d == 2 {
        '2'
    } else if d == 3 {
        '3'
    } else if d == 4 {
        '4'
    } else if d == 5 {
        '5'
    } else if d == 6 {
        '6'
    } else if d == 7 {
        '7'
    } else if d == 8 {
        '8'
    } else {
        '9'
    }
}

/// The decimal rendering of a non-negative integer, without leading
/// zeros (the number zero renders as "0").
pub open spec fn spec_decimal(n: int) -> Seq<char>
    decreases n,
{
    if n < 10 {
        seq![digit_char(n)]
    } else {
        spec_decimal(n / 10) + seq![digit_char(n % 10)]
    }
}

/// A quantity of tenths rendered with exactly one decimal place:
/// 20 tenths renders as "2.0".
pub open spec fn spec_fixed1(tenths: int) -> Seq<char> {
    spec_decimal(tenths / 10) + seq!['.', digit_char(tenths % 10)]
}

/// A quantity of hundredths rendered with exactly two decimal places and
/// padded with spaces on the left to at least five characters:
/// 80 hundredths renders as " 0.80".
pub open spec fn spec_cpu_field(hundredths: int) -> Seq<char> {
    let digits = spec_decimal(hundredths / 100) + seq![
        '.',
        digit_char((hundredths % 100) / 10),
        digit_char(hundredths % 10),
    ];
    if digits.len() < 5 {
        seq![' '] + digits
    } else {
        digits
    }
}

/// The colored separator glyph between the status fields.
pub open spec fn spec_separator() -> Seq<char> {
    " <span color=\"#333333\">|</span> "@
}

/// The whole status line for the given readings and timestamp.
pub open spec fn spec_status_line(
    used_tenths: int,
    total_tenths: int,
    cpu_hundredths: int,
    timestamp: Seq<char>,
) -> Seq<char> {
    "MEM: "@ + spec_fixed1(used_tenths) + "/"@ + spec_fixed1(total_tenths)
        + spec_separator() + "CPU: "@ + spec_cpu_field(cpu_hundredths) + spec_separator()
        + timestamp
}

/// The decimal rendering of a value is never empty.
pub proof fn lemma_decimal_len(n: int)
    ensures
        spec_decimal(n).len() >= 1,
        n >= 10 ==> spec_decimal(n).len() >= 2,
    decreases n,
{
    if n >= 10 {
        lemma_decimal_len(n / 10);
    }
}

/// A one-character string slice holding the digit `d`.
fn digit_str(d: u64) -> (r: &'static str)
    requires
        d < 10,
    ensures
        r@ == seq![digit_char(d as int)],
{
    proof {
        reveal_strlit("0");
        reveal_strlit("1");
        reveal_strlit("2");
        reveal_strlit("3");
        reveal_strlit("4");
        reveal_strlit("5");
        reveal_strlit("6");
        reveal_strlit("7");
        reveal_strlit("8");
        reveal_strlit("9");
    }
    if d == 0 {
        "0"
    } else if d == 1 {
        "1"
    } else if d == 2 {
        "2"
    } else if d == 3 {
        "3"
    } else if d == 4 {
        "4"
    } else if d == 5 {
        "5"
    } else if d == 6 {
        "6"
    } else if d == 7 {
        "7"
    } else if d == 8 {
        "8"
    } else {
        "9"
    }
}

/// Render `n` in decimal.
pub fn format_decimal(n: u64) -> (r: String)
    ensures
        r@ == spec_decimal(n as int),
    decreases n,
{
    if n < 10 {
        String::from_str(digit_str(n))
    } else {
        let mut s = format_decimal(n / 10);
        s.append(digit_str(n % 10));
        s
    }
}

/// Render a quantity of tenths with one decimal place ("2.0" for 20).
pub fn format_fixed1(tenths: u64) -> (r: String)
    ensures
        r@ == spec_fixed1(tenths as int),
{
    let mut s = format_decimal(tenths / 10);
    s.append(".");
    s.append(digit_str(tenths % 10));
    proof {
        reveal_strlit(".");
        assert(s@ =~= spec_fixed1(tenths as int));
    }
    s
}

/// Render a quantity of hundredths two decimal places wide, space-padded
/// on the left to at least five characters (" 0.80" for 80).
pub fn format_cpu_field(hundredths: u64) -> (r: String)
    ensures
        r@ == spec_cpu_field(hundredths as int),
{
    let mut s = if hundredths < 1000 {
        // integer part below 10: one digit, so the field is padded
        let mut p = String::from_str(" ");
        proof {
            reveal_strlit(" ");
        }
        p.append(format_decimal(hundredths / 100).as_str());
        p
    } else {
        format_decimal(hundredths / 100)
    };
    s.append(".");
    s.append(digit_str((hundredths % 100) / 10));
    s.append(digit_str(hundredths % 10));
    proof {
        reveal_strlit(".");
        lemma_decimal_len(hundredths as int / 100);
        assert(s@ =~= spec_cpu_field(hundredths as int));
    }
    s
}

/// Build the status line for the given readings: memory used and total in
/// tenths of the display unit, the CPU value in hundredths, and the
/// rendered local timestamp, which the caller obtains from the platform
/// clock and passes through verbatim.
pub fn format_status(
    used_tenths: u64,
    total_tenths: u64,
    cpu_hundredths: u64,
    timestamp: &str,
) -> (r: String)
    ensures
        r@ == spec_status_line(
            used_tenths as int,
            total_tenths as int,
            cpu_hundredths as int,
            timestamp@,
        ),
{
    let mut s = String::from_str("MEM: ");
    s.append(format_fixed1(used_tenths).as_str());
    s.append("/");
    s.append(format_fixed1(total_tenths).as_str());
    s.append(" <span color=\"#333333\">|</span> ");
    s.append("CPU: ");
    s.append(format_cpu_field(cpu_hundredths).as_str());
    s.append(" <span color=\"#333333\">|</span> ");
    s.append(timestamp);
    proof {
        assert(s@ =~= spec_status_line(
            used_tenths as int,
            total_tenths as int,
            cpu_hundredths as int,
            timestamp@,
        ));
    }
    s
}

/// Convert a memory reading in bytes to tenths of the status line's
/// memory unit (1024 * 1024 * 1024 bytes to one displayed unit), rounded
/// to the nearest tenth, half up: a reading of 2048 megabytes converts to
/// 20 tenths and displays as "2.0".
pub fn mem_display_tenths(bytes: u64) -> (r: u64)
    ensures
        r == (bytes * 10 + 536870912) / 1073741824,
{
    let wide: u128 = (bytes as u128) * 10 + 536870912;
    let t: u128 = wide / 1073741824;
    proof {
        assert(t <= u64::MAX) by (nonlinear_arith)
            requires
                t == ((bytes as u128) * 10 + 536870912) / 1073741824,
                bytes <= u64::MAX,
        ;
    }
    t as u64
}

/// The sum of a sequence of per-core readings.
pub open spec fn spec_sum(s: Seq<u32>) -> int
    decreases s.len(),
{
    if s.len() == 0 {
        0
    } else {
        spec_sum(s.drop_last()) + s.last()
    }
}

/// Aggregate per-core CPU usage, each core given in hundredths of a
/// percent, into the published value in hundredths: the sum of the
/// per-core percentages divided by 100 ("busy core equivalents"),
/// rounded to the nearest hundredth, half up.
pub fn cpu_aggregate_hundredths(per_core: &Vec<u32>) -> (r: u64)
    requires
        per_core@.len() <= 0xffff_ffff,
    ensures
        r == (spec_sum(per_core@) + 50) / 100,
{
    let n = per_core.len();
    let mut sum: u64 = 0;
    let mut i: usize = 0;
    while i < n
        invariant
            n == per_core@.len(),
            n <= 0xffff_ffff,
            i <= n,
            sum == spec_sum(per_core@.take(i as int)),
            sum <= (i as int) * 0xffff_ffff,
        decreases n - i,
    {
        proof {
            assert(per_core@.take(i + 1).drop_last() =~= per_core@.take(i as int));
            assert(per_core@.take(i + 1).last() == per_core@[i as int]);
            assert((i as int) * 0xffff_ffff + 0xffff_ffff == (i + 1) * 0xffff_ffff)
                by (nonlinear_arith);
            assert((i + 1) * 0xffff_ffff <= 0x1_0000_0000 * 0xffff_ffff) by (nonlinear_arith)
                requires
                    0 <= i,
                    i + 1 <= 0x1_0000_0000,
            ;
        }
        sum = sum + per_core[i] as u64;
        i = i + 1;
    }
    proof {
        assert(per_core@.take(n as int) =~= per_core@);
    }
    (sum + 50) / 100
}

} // verus!
