use vstd::prelude::*;
use vstd::string::{StrSliceExecFns, StringExecFns};
use crate::codec::TraceEvent;
use crate::syscalls::{display_name, SyscallCatalog};

verus! {

/// Nanoseconds in one second.
pub const NANOS_PER_SECOND: u64 = 1_000_000_000;

/// Units of the last shown latency digit (ten nanoseconds) in one second.
pub const UNITS_PER_SECOND: u64 = 100_000_000;

/// Digits shown after the decimal point of a latency.
pub const FRACTION_DIGITS: usize = 8;

pub open spec fn digit_char(d: nat) -> char {
    if d == 0 {
        '0'
    } else if d == 1 {
        '1'
    } else if d == 2 {
        '2'
    } else if d == 3 {
        '3'
    } else if d == 4 {
        '4'
    } else if d == 5 {
        '5'
    } else if d == 6 {
        '6'
    } else if d == 7 {
        '7'
    } else if d == 8 {
        '8'
    } else {
        '9'
    }
}

/// The decimal digits of `n`, most significant first, without leading zeros.
pub open spec fn decimal(n: nat) -> Seq<char>
    decreases n,
{
    if n < 10 {
        seq![digit_char(n)]
    } else {
        decimal(n / 10).push(digit_char(n % 10))
    }
}

/// A decimal with a leading minus sign when negative.
pub open spec fn signed_decimal(v: int) -> Seq<char> {
    if v < 0 {
        seq!['-'] + decimal((-v) as nat)
    } else {
        decimal(v as nat)
    }
}

pub open spec fn fill(c: char, n: nat) -> Seq<char> {
    Seq::new(n, |i: int| c)
}

/// `s` right-aligned in a column of `w` characters.
pub open spec fn align_right(s: Seq<char>, w: nat, c: char) -> Seq<char> {
    if s.len() < w {
        fill(c, (w - s.len()) as nat) + s
    } else {
        s
    }
}

/// `s` left-aligned in a column of `w` characters.
pub open spec fn align_left(s: Seq<char>, w: nat) -> Seq<char> {
    if s.len() < w {
        s + fill(' ', (w - s.len()) as nat)
    } else {
        s
    }
}

/// A nanosecond count rounded to the nearest ten nanoseconds, halves up, in
/// units of ten nanoseconds.
pub open spec fn rounded_units(ns: nat) -> nat {
    ns / 10 + if ns % 10 >= 5 {
        1nat
    } else {
        0nat
    }
}

/// Seconds from nanoseconds, rounded to eight fractional digits: whole
/// seconds, a point, and the eight digits of the fraction.
pub open spec fn seconds_text(ns: nat) -> Seq<char> {
    let q = rounded_units(ns);
    decimal(q / UNITS_PER_SECOND as nat) + "."@ + align_right(
        decimal(q % UNITS_PER_SECOND as nat),
        FRACTION_DIGITS as nat,
        '0',
    )
}

/// The shown latency is the nearest value with eight fractional digits: it
/// lies within half a last digit (five nanoseconds) of the true count.
pub proof fn law_latency_rounds_to_nearest(ns: nat)
    ensures
        ns <= 10 * rounded_units(ns) + 5,
        10 * rounded_units(ns) <= ns + 5,
        (rounded_units(ns) / UNITS_PER_SECOND as nat) * (UNITS_PER_SECOND as nat) + rounded_units(ns)
            % (UNITS_PER_SECOND as nat) == rounded_units(ns),
{
    let q = rounded_units(ns);
    vstd::arithmetic::div_mod::lemma_fundamental_div_mod(q as int, UNITS_PER_SECOND as int);
}

/// The output line of an event with these fields: pid, uid and cgroup id
/// right-aligned in eight columns, the syscall name in 32, the latency in 8 and
/// the command name in 16, separated by single spaces.
pub open spec fn line_of(
    pid: nat,
    uid: nat,
    cgroup_id: nat,
    syscall_number: u32,
    latency_nanoseconds: nat,
    command: Seq<char>,
) -> Seq<char> {
    align_right(decimal(pid), 8, ' ') + " "@ + align_right(decimal(uid), 8, ' ') + " "@
        + align_right(decimal(cgroup_id), 8, ' ') + " "@ + align_left(display_name(syscall_number), 32)
        + " "@ + align_left(seconds_text(latency_nanoseconds), 8) + " "@ + align_left(command, 16)
}

/// The output line of one event.
pub open spec fn trace_line(e: TraceEvent) -> Seq<char> {
    line_of(
        e.pid as nat,
        e.uid as nat,
        e.cgroup_id as nat,
        e.syscall_number,
        e.latency_nanoseconds as nat,
        e.command_name@,
    )
}

/// The column header, in the columns of `trace_line`.
pub open spec fn header_text() -> Seq<char> {
    align_left("PID"@, 8) + " "@ + align_left("UID"@, 8) + " "@ + align_left("CGROUP_ID"@, 8) + " "@
        + align_left("SYSCALL"@, 32) + " "@ + align_left("LATENCY"@, 16) + " "@ + align_left(
        "COMMAND"@,
        16,
    )
}

/// The diagnostic for records lost on one channel.
pub open spec fn lost_text(origin: i32, count: u64) -> Seq<char> {
    "Lost event (CPU: "@ + signed_decimal(origin as int) + ", COUNT: "@ + decimal(count as nat)
        + ")"@
}

fn digit_text(d: u64) -> (r: &'static str)
    requires
        d < 10,
    ensures
        r@ == seq![digit_char(d as nat)],
{
    proof {
        reveal_strlit("0");
        reveal_strlit("1");
        reveal_strlit("2");
        reveal_strlit("3");
        reveal_strlit("4");
        reveal_strlit("5");
        reveal_strlit("6");
        reveal_strlit("7");
        reveal_strlit("8");
        reveal_strlit("9");
    }
    let r = if d == 0 {
        "0"
    } else if d == 1 {
        "1"
    } else if d == 2 {
        "2"
    } else if d == 3 {
        "3"
    } else if d == 4 {
        "4"
    } else if d == 5 {
        "5"
    } else if d == 6 {
        "6"
    } else if d == 7 {
        "7"
    } else if d == 8 {
        "8"
    } else {
        "9"
    };
    assert(r@ =~= seq![digit_char(d as nat)]);
    r
}

fn push_decimal(out: &mut String, n: u64)
    ensures
        final(out)@ == old(out)@ + decimal(n as nat),
    decreases n,
{
    if n >= 10 {
        push_decimal(out, n / 10);
    }
    out.append(digit_text(n % 10));
    assert(out@ =~= old(out)@ + decimal(n as nat));
}

/// The decimal digits of `n`.
pub fn decimal_text(n: u64) -> (r: String)
    ensures
        r@ == decimal(n as nat),
{
    let mut out = String::new();
    push_decimal(&mut out, n);
    assert(out@ =~= decimal(n as nat));
    out
}

/// A decimal of a signed value.
pub fn signed_decimal_text(v: i32) -> (r: String)
    ensures
        r@ == signed_decimal(v as int),
{
    let mut out = String::new();
    if v < 0 {
        out.append("-");
        proof {
            reveal_strlit("-");
        }
        let magnitude: i64 = -(v as i64);
        push_decimal(&mut out, magnitude as u64);
    } else {
        push_decimal(&mut out, v as u64);
    }
    assert(out@ =~= signed_decimal(v as int));
    out
}

fn push_fill(out: &mut String, unit: &str, c: Ghost<char>, n: usize)
    requires
        unit@ == seq![c@],
    ensures
        final(out)@ == old(out)@ + fill(c@, n as nat),
{
    let mut j: usize = 0;
    while j < n
        invariant
            j <= n,
            unit@ == seq![c@],
            out@ == old(out)@ + fill(c@, j as nat),
        decreases n - j,
    {
        out.append(unit);
        j = j + 1;
        assert(out@ =~= old(out)@ + fill(c@, j as nat));
    }
}

fn push_spaces(out: &mut String, n: usize)
    ensures
        final(out)@ == old(out)@ + fill(' ', n as nat),
{
    proof {
        reveal_strlit(" ");
        assert(" "@ =~= seq![' ']);
    }
    push_fill(out, " ", Ghost(' '), n);
}

fn push_right(out: &mut String, text: &str, width: usize, unit: &str, c: Ghost<char>)
    requires
        unit@ == seq![c@],
    ensures
        final(out)@ == old(out)@ + align_right(text@, width as nat, c@),
{
    let len = text.unicode_len();
    if len < width {
        push_fill(out, unit, c, width - len);
    }
    out.append(text);
    assert(out@ =~= old(out)@ + align_right(text@, width as nat, c@));
}

fn push_left(out: &mut String, text: &str, width: usize)
    ensures
        final(out)@ == old(out)@ + align_left(text@, width as nat),
{
    let len = text.unicode_len();
    out.append(text);
    if len < width {
        push_spaces(out, width - len);
    }
    assert(out@ =~= old(out)@ + align_left(text@, width as nat));
}

fn push_number_right(out: &mut String, n: u64, width: usize)
    ensures
        final(out)@ == old(out)@ + align_right(decimal(n as nat), width as nat, ' '),
{
    let digits = decimal_text(n);
    proof {
        reveal_strlit(" ");
        assert(" "@ =~= seq![' ']);
    }
    push_right(out, digits.as_str(), width, " ", Ghost(' '));
}

/// Seconds from nanoseconds, as `seconds_text` spells them.
pub fn seconds_from_nanos(ns: u64) -> (r: String)
    ensures
        r@ == seconds_text(ns as nat),
{
    let units: u64 = ns / 10 + if ns % 10 >= 5 {
        1
    } else {
        0
    };
    let mut out = decimal_text(units / UNITS_PER_SECOND);
    out.append(".");
    let fraction = decimal_text(units % UNITS_PER_SECOND);
    proof {
        reveal_strlit("0");
        assert("0"@ =~= seq!['0']);
    }
    push_right(&mut out, fraction.as_str(), FRACTION_DIGITS, "0", Ghost('0'));
    assert(out@ =~= seconds_text(ns as nat));
    out
}

/// The output line of one event.
pub fn render(event: &TraceEvent, catalog: &SyscallCatalog) -> (r: String)
    ensures
        r@ == trace_line(*event),
{
    let mut out = String::new();
    push_number_right(&mut out, event.pid as u64, 8);
    out.append(" ");
    push_number_right(&mut out, event.uid as u64, 8);
    out.append(" ");
    push_number_right(&mut out, event.cgroup_id, 8);
    out.append(" ");
    push_left(&mut out, catalog.name_for(event.syscall_number), 32);
    out.append(" ");
    let seconds = seconds_from_nanos(event.latency_nanoseconds);
    push_left(&mut out, seconds.as_str(), 8);
    out.append(" ");
    push_left(&mut out, event.command_name.as_str(), 16);
    assert(out@ =~= trace_line(*event));
    out
}

/// The column header line.
pub fn header_line() -> (r: String)
    ensures
        r@ == header_text(),
{
    let mut out = String::new();
    push_left(&mut out, "PID", 8);
    out.append(" ");
    push_left(&mut out, "UID", 8);
    out.append(" ");
    push_left(&mut out, "CGROUP_ID", 8);
    out.append(" ");
    push_left(&mut out, "SYSCALL", 32);
    out.append(" ");
    push_left(&mut out, "LATENCY", 16);
    out.append(" ");
    push_left(&mut out, "COMMAND", 16);
    assert(out@ =~= header_text());
    out
}

/// The diagnostic line for `count` records lost on channel `origin`.
pub fn lost_line(origin: i32, count: u64) -> (r: String)
    ensures
        r@ == lost_text(origin, count),
{
    let mut out = String::new();
    out.append("Lost event (CPU: ");
    let o = signed_decimal_text(origin);
    out.append(o.as_str());
    out.append(", COUNT: ");
    push_decimal(&mut out, count);
    out.append(")");
    assert(out@ =~= lost_text(origin, count));
    out
}

} // verus!
