//! What a recorder reports when a batch is complete.

use vstd::prelude::*;
use vstd::string::StringExecFns;

verus! {

/// Nanoseconds in a millisecond.
pub const NANOS_PER_MILLI: u128 = 1_000_000;

/// A completed batch, as a mathematical value: how many iterations it held
/// and how many nanoseconds passed between its first and its last.
pub struct Measurement {
    pub calls: nat,
    pub elapsed: nat,
}

impl Measurement {
    /// The elapsed time in whole milliseconds, rounded down.
    pub open spec fn millis(self) -> nat {
        self.elapsed / (NANOS_PER_MILLI as nat)
    }

    /// The report as a line of text: the calls, the words `calls took`, the
    /// milliseconds, the word `millis`.
    pub open spec fn line(self) -> Seq<char> {
        decimal(self.calls) + " calls took "@ + decimal(self.millis()) + " millis"@
    }
}

/// The character for a decimal digit.
pub open spec fn digit(d: nat) -> char
    recommends
        d < 10,
{
    if d == 0 {
        '0'
    } else if d == 1 {
        '1'
    } else if d == 2 {
        '2'
    } else if d == 3 {
        '3'
    } else if d == 4 {
        '4'
    } else if d == 5 {
        '5'
    } else if d == 6 {
        '6'
    } else if d == 7 {
        '7'
    } else if d == 8 {
        '8'
    } else {
        '9'
    }
}

/// A number in decimal, most significant digit first, without leading zeros.
pub open spec fn decimal(n: nat) -> Seq<char>
    decreases n,
{
    if n < 10 {
        seq![digit(n)]
    } else {
        decimal(n / 10).push(digit(n % 10))
    }
}

/// A completed batch.
#[derive(Copy, Clone, Debug, PartialEq, Eq, Structural)]
pub struct Report {
    /// The number of iterations in the batch.
    pub calls: usize,
    /// Nanoseconds from the start of the batch to its end.
    pub elapsed_nanos: u128,
}

impl View for Report {
    type V = Measurement;

    open spec fn view(&self) -> Measurement {
        Measurement { calls: self.calls as nat, elapsed: self.elapsed_nanos as nat }
    }
}

/// The measurement in a report, where there is one.
pub open spec fn measured(report: Option<Report>) -> Option<Measurement> {
    match report {
        Some(r) => Some(r@),
        None => None,
    }
}

impl Report {
    /// The elapsed time in whole milliseconds, rounded down.
    pub fn millis(&self) -> (millis: u128)
        ensures
            millis == self@.millis(),
    {
        self.elapsed_nanos / NANOS_PER_MILLI
    }

    /// The report as a line of text, such as `5000000 calls took 1234 millis`.
    pub fn line(&self) -> (line: String)
        ensures
            line@ == self@.line(),
    {
        let mut line = String::new();
        append_decimal(&mut line, self.calls as u128);
        line.append(" calls took ");
        append_decimal(&mut line, self.millis());
        line.append(" millis");
        line
    }
}

/// The one-character text of a decimal digit.
fn digit_text(d: u8) -> (text: &'static str)
    requires
        d < 10,
    ensures
        text@ == seq![digit(d as nat)],
{
    proof {
        reveal_strlit("0");
        reveal_strlit("1");
        reveal_strlit("2");
        reveal_strlit("3");
        reveal_strlit("4");
        reveal_strlit("5");
        reveal_strlit("6");
        reveal_strlit("7");
        reveal_strlit("8");
        reveal_strlit("9");
    }
    let text = match d {
        0 => "0",
        1 => "1",
        2 => "2",
        3 => "3",
        4 => "4",
        5 => "5",
        6 => "6",
        7 => "7",
        8 => "8",
        _ => "9",
    };
    assert(text@ =~= seq![digit(d as nat)]);
    text
}

/// Writes `n` in decimal at the end of `text`.
fn append_decimal(text: &mut String, n: u128)
    ensures
        final(text)@ == old(text)@ + decimal(n as nat),
    decreases n,
{
    if n >= 10 {
        append_decimal(text, n / 10);
    }
    let last: u8 = (n % 10) as u8;
    text.append(digit_text(last));
}

} // verus!
