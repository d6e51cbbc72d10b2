//! Where a chain stands: its block, session, era, election phase and time,
//! written out as one line for the log.

use vstd::prelude::*;
use vstd::string::StringExecFns;

verus! {

/// The phase of the election provider.
#[derive(Clone, Copy, Debug, PartialEq, Eq)]
pub enum Phase {
    /// Nothing is happening.
    Off,
    /// Signed solutions are accepted.
    Signed,
    /// Unsigned solutions are accepted: whether the phase is open, and the
    /// block at which it started.
    Unsigned((bool, u64)),
    /// The election has failed and waits for a solution from outside.
    Emergency,
}

/// The character for a decimal digit.
pub open spec fn digit_char(d: nat) -> char {
    if d == 0 {
        '0'
    } else if d == 1 {
        '1'
    } else if d == 2 {
        '2'
    } else if d == 3 {
        '3'
    } else if d == 4 {
        '4'
    } else if d == 5 {
        '5'
    } else if d == 6 {
        '6'
    } else if d == 7 {
        '7'
    } else if d == 8 {
        '8'
    } else {
        '9'
    }
}

/// The decimal numeral of `n`, without leading zeros.
pub open spec fn decimal(n: nat) -> Seq<char>
    decreases n,
{
    if n < 10 {
        seq![digit_char(n)]
    } else {
        decimal(n / 10).push(digit_char(n % 10))
    }
}

/// How a truth value is written.
pub open spec fn bool_text(b: bool) -> Seq<char> {
    if b {
        "true"@
    } else {
        "false"@
    }
}

/// How an era is written: `None`, or `Some(..)` around its numeral.
pub open spec fn era_text(era: Option<u32>) -> Seq<char> {
    match era {
        None => "None"@,
        Some(e) => "Some("@ + decimal(e as nat) + ")"@,
    }
}

/// How a phase is written: its name, and for the unsigned phase the pair it
/// carries.
pub open spec fn phase_text(phase: Phase) -> Seq<char> {
    match phase {
        Phase::Off => "Off"@,
        Phase::Signed => "Signed"@,
        Phase::Unsigned((open, since)) => "Unsigned(("@ + bool_text(open) + ", "@ + decimal(
            since as nat,
        ) + "))"@,
        Phase::Emergency => "Emergency"@,
    }
}

/// The line that reports where the chain stands.
pub open spec fn current_time_line(
    block: u64,
    session: u32,
    era: Option<u32>,
    phase: Phase,
    timestamp: u64,
) -> Seq<char> {
    "block: "@ + decimal(block as nat) + ", session: "@ + decimal(session as nat) + ", era: "@
        + era_text(era) + ", EPM phase: "@ + phase_text(phase) + " ts: "@ + decimal(
        timestamp as nat,
    )
}

/// The one-character string of a decimal digit.
fn digit_str(d: u64) -> (s: &'static str)
    requires
        d < 10,
    ensures
        s@ == seq![digit_char(d as nat)],
{
    proof {
        reveal_strlit("0");
        reveal_strlit("1");
        reveal_strlit("2");
        reveal_strlit("3");
        reveal_strlit("4");
        reveal_strlit("5");
        reveal_strlit("6");
        reveal_strlit("7");
        reveal_strlit("8");
        reveal_strlit("9");
    }
    let s = if d == 0 {
        "0"
    } else if d == 1 {
        "1"
    } else if d == 2 {
        "2"
    } else if d == 3 {
        "3"
    } else if d == 4 {
        "4"
    } else if d == 5 {
        "5"
    } else if d == 6 {
        "6"
    } else if d == 7 {
        "7"
    } else if d == 8 {
        "8"
    } else {
        "9"
    };
    assert(s@ =~= seq![digit_char(d as nat)]);
    s
}

/// Appends the decimal numeral of `n` to `out`.
fn append_decimal(out: &mut String, n: u64)
    ensures
        final(out)@ == old(out)@ + decimal(n as nat),
    decreases n,
{
    if n >= 10 {
        append_decimal(out, n / 10);
    }
    out.append(digit_str(n % 10));
    assert(out@ =~= old(out)@ + decimal(n as nat));
}

/// Writes out where the chain stands: block number, session index, era,
/// election phase and timestamp, each as the host would print it.
pub fn log_current_time(
    block: u64,
    session: u32,
    era: Option<u32>,
    phase: Phase,
    timestamp: u64,
) -> (line: String)
    ensures
        line@ == current_time_line(block, session, era, phase, timestamp),
{
    let mut line = String::from_str("block: ");
    append_decimal(&mut line, block);
    line.append(", session: ");
    append_decimal(&mut line, session as u64);
    line.append(", era: ");
    let ghost before_era = line@;
    match era {
        None => {
            line.append("None");
        },
        Some(e) => {
            line.append("Some(");
            append_decimal(&mut line, e as u64);
            line.append(")");
        },
    }
    assert(line@ =~= before_era + era_text(era));
    line.append(", EPM phase: ");
    let ghost before_phase = line@;
    match phase {
        Phase::Off => {
            line.append("Off");
        },
        Phase::Signed => {
            line.append("Signed");
        },
        Phase::Unsigned((open, since)) => {
            line.append("Unsigned((");
            if open {
                line.append("true");
            } else {
                line.append("false");
            }
            line.append(", ");
            append_decimal(&mut line, since);
            line.append("))");
        },
        Phase::Emergency => {
            line.append("Emergency");
        },
    }
    assert(line@ =~= before_phase + phase_text(phase));
    line.append(" ts: ");
    append_decimal(&mut line, timestamp);
    assert(line@ =~= current_time_line(block, session, era, phase, timestamp));
    line
}

} // verus!
