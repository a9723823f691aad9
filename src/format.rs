use vstd::prelude::*;
use vstd::string::StringExecFns;
use crate::severity::Severity;

verus! {

/// Ten nanoseconds make one unit of the last printed digit.
pub const NANOS_PER_TICK: u64 = 10;

/// With eight fractional digits, one second holds this many ticks.
pub const TICKS_PER_SECOND: u64 = 100_000_000;

pub open spec fn digit_char(d: nat) -> char {
    if d == 0 {
        '0'
    } else if d == 1 {
        '1'
    } else if d == 2 {
        '2'
    } else if d == 3 {
        '3'
    } else if d == 4 {
        '4'
    } else if d == 5 {
        '5'
    } else if d == 6 {
        '6'
    } else if d == 7 {
        '7'
    } else if d == 8 {
        '8'
    } else {
        '9'
    }
}

/// Decimal digits of `n`, without leading zeros.
pub open spec fn decimal(n: nat) -> Seq<char>
    decreases n,
{
    if n < 10 {
        seq![digit_char(n)]
    } else {
        decimal(n / 10).push(digit_char(n % 10))
    }
}

/// The last `width` decimal digits of `n`, padded with leading zeros.
pub open spec fn fixed_digits(n: nat, width: nat) -> Seq<char>
    decreases width,
{
    if width == 0 {
        seq![]
    } else {
        fixed_digits(n / 10, (width - 1) as nat).push(digit_char(n % 10))
    }
}

/// Nanoseconds rounded to the nearest tick, halves rounded up.
pub open spec fn ticks(nanos: nat) -> nat {
    (nanos + 5) / 10
}

/// Seconds printed with exactly eight fractional digits.
pub open spec fn seconds_text(nanos: nat) -> Seq<char> {
    decimal(ticks(nanos) / 100_000_000) + seq!['.'] + fixed_digits(
        ticks(nanos) % 100_000_000,
        8,
    )
}

/// One log line, newline included:
/// `[<seconds>] (<LEVEL>)<tab><message><newline>`.
pub open spec fn line_text(level: Severity, nanos: nat, message: Seq<char>) -> Seq<char> {
    seq!['['] + seconds_text(nanos) + seq![']', ' ', '('] + level.spec_name() + seq![')', '\t']
        + message + seq!['\n']
}

pub open spec fn product_name() -> Seq<char> {
    "Fe2o3 Desktop Environment"@
}

/// The banner written once when a sink is opened, newline included.
pub open spec fn prelude_text(version: Seq<char>) -> Seq<char> {
    product_name() + seq!['\n'] + "Version: "@ + version + seq!['\n']
}

/// What is written to the fallback when the destination failed with `error`.
pub open spec fn diagnostic_text(error: Seq<char>) -> Seq<char> {
    "Error writing to log: "@ + error + seq!['\n']
}

/// Why the process stops when the fallback failed with `error`.
pub open spec fn fatal_text(error: Seq<char>) -> Seq<char> {
    "Cannot write to standard output: "@ + error
}

fn digit_str(d: u64) -> (r: &'static str)
    requires
        d < 10,
    ensures
        r@ == seq![digit_char(d as nat)],
{
    proof {
        reveal_strlit("0");
        reveal_strlit("1");
        reveal_strlit("2");
        reveal_strlit("3");
        reveal_strlit("4");
        reveal_strlit("5");
        reveal_strlit("6");
        reveal_strlit("7");
        reveal_strlit("8");
        reveal_strlit("9");
    }
    if d == 0 {
        "0"
    } else if d == 1 {
        "1"
    } else if d == 2 {
        "2"
    } else if d == 3 {
        "3"
    } else if d == 4 {
        "4"
    } else if d == 5 {
        "5"
    } else if d == 6 {
        "6"
    } else if d == 7 {
        "7"
    } else if d == 8 {
        "8"
    } else {
        "9"
    }
}

/// Appends the decimal digits of `n`.
pub fn push_decimal(out: &mut String, n: u64)
    ensures
        final(out)@ == old(out)@ + decimal(n as nat),
    decreases n,
{
    if n >= 10 {
        push_decimal(out, n / 10);
    }
    out.append(digit_str(n % 10));
    proof {
        assert(final(out)@ =~= old(out)@ + decimal(n as nat));
    }
}

/// Appends the last `width` digits of `n`, zero padded.
pub fn push_fixed_digits(out: &mut String, n: u64, width: u32)
    ensures
        final(out)@ == old(out)@ + fixed_digits(n as nat, width as nat),
    decreases width,
{
    if width > 0 {
        push_fixed_digits(out, n / 10, width - 1);
        out.append(digit_str(n % 10));
        proof {
            assert(final(out)@ =~= old(out)@ + fixed_digits(n as nat, width as nat));
        }
    } else {
        proof {
            assert(final(out)@ =~= old(out)@ + fixed_digits(n as nat, width as nat));
        }
    }
}

/// Nanoseconds rounded to ticks, without overflow for any `u64`.
pub fn ticks_of(nanos: u64) -> (r: u64)
    ensures
        r as nat == ticks(nanos as nat),
{
    let r: u64 = nanos / NANOS_PER_TICK;
    if nanos % NANOS_PER_TICK >= 5 {
        r + 1
    } else {
        r
    }
}

/// Appends `nanos` as seconds with eight fractional digits.
pub fn push_seconds(out: &mut String, nanos: u64)
    ensures
        final(out)@ == old(out)@ + seconds_text(nanos as nat),
{
    let t: u64 = ticks_of(nanos);
    push_decimal(out, t / TICKS_PER_SECOND);
    proof {
        reveal_strlit(".");
    }
    out.append(".");
    push_fixed_digits(out, t % TICKS_PER_SECOND, 8);
    proof {
        assert(final(out)@ =~= old(out)@ + seconds_text(nanos as nat));
    }
}

/// The full log line for a record `nanos` after the sink was opened.
pub fn format_line(level: Severity, nanos: u64, message: &str) -> (r: String)
    ensures
        r@ == line_text(level, nanos as nat, message@),
{
    proof {
        reveal_strlit("[");
        reveal_strlit("] (");
        reveal_strlit(")\t");
        reveal_strlit("\n");
    }
    let mut out = String::new();
    out.append("[");
    push_seconds(&mut out, nanos);
    out.append("] (");
    out.append(level.name());
    out.append(")\t");
    out.append(message);
    out.append("\n");
    proof {
        assert(out@ =~= line_text(level, nanos as nat, message@));
    }
    out
}

/// The banner naming the product and its `version`.
pub fn prelude(version: &str) -> (r: String)
    ensures
        r@ == prelude_text(version@),
{
    proof {
        reveal_strlit("Fe2o3 Desktop Environment");
        reveal_strlit("\nVersion: ");
        reveal_strlit("Version: ");
        reveal_strlit("\n");
    }
    let mut out = String::from_str("Fe2o3 Desktop Environment");
    out.append("\nVersion: ");
    out.append(version);
    out.append("\n");
    proof {
        assert(out@ =~= prelude_text(version@));
    }
    out
}

/// The line that reports a failed destination on the fallback.
pub fn diagnostic(error: &str) -> (r: String)
    ensures
        r@ == diagnostic_text(error@),
{
    proof {
        reveal_strlit("Error writing to log: ");
        reveal_strlit("\n");
    }
    let mut out = String::from_str("Error writing to log: ");
    out.append(error);
    out.append("\n");
    proof {
        assert(out@ =~= diagnostic_text(error@));
    }
    out
}

/// The reason given when the fallback fails too.
pub fn fatal(error: &str) -> (r: String)
    ensures
        r@ == fatal_text(error@),
{
    proof {
        reveal_strlit("Cannot write to standard output: ");
    }
    let mut out = String::from_str("Cannot write to standard output: ");
    out.append(error);
    out
}

pub open spec fn has_no_newline(s: Seq<char>) -> bool {
    forall|i: int| 0 <= i < s.len() ==> s[i] != '\n'
}

proof fn lemma_decimal_no_newline(n: nat)
    ensures
        has_no_newline(decimal(n)),
    decreases n,
{
    if n >= 10 {
        lemma_decimal_no_newline(n / 10);
    }
}

proof fn lemma_fixed_digits_no_newline(n: nat, width: nat)
    ensures
        has_no_newline(fixed_digits(n, width)),
    decreases width,
{
    if width > 0 {
        lemma_fixed_digits_no_newline(n / 10, (width - 1) as nat);
    }
}

/// A record whose message holds no newline becomes exactly one line: the
/// only newline of its text is the last character.
pub proof fn lemma_one_line(level: Severity, nanos: nat, message: Seq<char>)
    requires
        has_no_newline(message),
    ensures
        line_text(level, nanos, message).last() == '\n',
        has_no_newline(line_text(level, nanos, message).drop_last()),
{
    lemma_decimal_no_newline(ticks(nanos) / 100_000_000);
    lemma_fixed_digits_no_newline(ticks(nanos) % 100_000_000, 8);
    let body = seq!['['] + seconds_text(nanos) + seq![']', ' ', '('] + level.spec_name() + seq![
        ')',
        '\t',
    ] + message;
    assert(line_text(level, nanos, message) == body + seq!['\n']);
    assert(line_text(level, nanos, message).drop_last() =~= body);
    assert(has_no_newline(seconds_text(nanos)));
    assert(has_no_newline(level.spec_name()));
}

/// Rounding to ticks keeps the order of durations, so the printed seconds
/// never go down while the clock goes up.
pub proof fn lemma_ticks_monotonic(a: nat, b: nat)
    requires
        a <= b,
    ensures
        ticks(a) <= ticks(b),
        ticks(a) / 100_000_000 <= ticks(b) / 100_000_000,
{
    vstd::arithmetic::div_mod::lemma_div_is_ordered((a + 5) as int, (b + 5) as int, 10);
    vstd::arithmetic::div_mod::lemma_div_is_ordered(
        ticks(a) as int,
        ticks(b) as int,
        100_000_000,
    );
}

} // verus!
