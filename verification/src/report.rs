//! Rendering the per-attempt and summary lines.
//!
//! Everything printed by the probe is built here as a `String` whose
//! character sequence is pinned down exactly, digit by digit; the
//! embedding program only hands the finished line to standard output.

use vstd::prelude::*;

verus! {

use vstd::string::StringExecFns;
use crate::resolve::HostAddr;
use crate::stats::Statistics;

/// The decimal digit character for a value below ten.
pub open spec fn digit_char(d: int) -> char {
    if d == 0 {
        '0'
    } else if d == 1 {
        '1'
    } else if d == 2 {
        '2'
    } else if d == 3 {
        '3'
    } else if d == 4 {
        '4'
    } else if d == 5 {
        '5'
    } else if d == 6 {
        '6'
    } else if d == 7 {
        '7'
    } else if d == 8 {
        '8'
    } else {
        '9'
    }
}

/// The decimal rendering of a non-negative integer, most significant
/// digit first, with no leading zeros (a lone zero for 0).
pub open spec fn dec_spec(n: int) -> Seq<char>
    recommends
        n >= 0,
    decreases n,
{
    if n < 10 {
        seq![digit_char(n)]
    } else {
        dec_spec(n / 10) + seq![digit_char(n % 10)]
    }
}

/// The one-character string for a decimal digit.
fn digit_str(d: u128) -> (s: &'static str)
    requires
        d < 10,
    ensures
        s@ == seq![digit_char(d as int)],
{
    proof {
        reveal_strlit("0");
        reveal_strlit("1");
        reveal_strlit("2");
        reveal_strlit("3");
        reveal_strlit("4");
        reveal_strlit("5");
        reveal_strlit("6");
        reveal_strlit("7");
        reveal_strlit("8");
        reveal_strlit("9");
    }
    if d == 0 {
        proof {
            assert("0"@ =~= seq![digit_char(0)]);
        }
        "0"
    } else if d == 1 {
        proof {
            assert("1"@ =~= seq![digit_char(1)]);
        }
        "1"
    } else if d == 2 {
        proof {
            assert("2"@ =~= seq![digit_char(2)]);
        }
        "2"
    } else if d == 3 {
        proof {
            assert("3"@ =~= seq![digit_char(3)]);
        }
        "3"
    } else if d == 4 {
        proof {
            assert("4"@ =~= seq![digit_char(4)]);
        }
        "4"
    } else if d == 5 {
        proof {
            assert("5"@ =~= seq![digit_char(5)]);
        }
        "5"
    } else if d == 6 {
        proof {
            assert("6"@ =~= seq![digit_char(6)]);
        }
        "6"
    } else if d == 7 {
        proof {
            assert("7"@ =~= seq![digit_char(7)]);
        }
        "7"
    } else if d == 8 {
        proof {
            assert("8"@ =~= seq![digit_char(8)]);
        }
        "8"
    } else {
        proof {
            assert("9"@ =~= seq![digit_char(9)]);
        }
        "9"
    }
}

/// Renders a number in decimal, exactly as [`dec_spec`] states.
pub fn fmt_u128(n: u128) -> (s: String)
    ensures
        s@ == dec_spec(n as int),
    decreases n,
{
    if n < 10 {
        String::from_str(digit_str(n))
    } else {
        let mut s = fmt_u128(n / 10);
        s.append(digit_str(n % 10));
        s
    }
}

/// The line reporting a successful attempt: the resolved address, the
/// hostname, the attempt's sequence number and the connect time.
pub open spec fn success_line_spec(addr: Seq<char>, host: Seq<char>, sequence: int, ms: int) -> Seq<
    char,
> {
    "Connected to ["@ + addr + "] "@ + host + " seq="@ + dec_spec(sequence) + " time="@ + dec_spec(
        ms,
    ) + " ms"@
}

/// The line reporting a failed attempt: the resolved address and the
/// hostname, with no timing.
pub open spec fn failure_line_spec(addr: Seq<char>, host: Seq<char>) -> Seq<char> {
    "Failed to connect to ["@ + addr + "] "@ + host + "..."@
}

/// The one-time summary: total (the sequence counter, one more than
/// the attempts made), average, minimum, maximum and lost count.
pub open spec fn summary_spec(s: Statistics) -> Seq<char> {
    "\nTotal: "@ + dec_spec(s.sequence as int) + " Avg: "@ + dec_spec(s.avg as int) + "ms Min: "@
        + dec_spec(s.min as int) + "ms Max: "@ + dec_spec(s.max as int) + "ms Lost: "@ + dec_spec(
        s.lost as int,
    ) + "\n"@
}

/// Builds the success report line for attempt number `sequence`.
pub fn success_line(address: &HostAddr, sequence: u128, ms: u128) -> (r: String)
    ensures
        r@ == success_line_spec(address.addr@, address.hostname@, sequence as int, ms as int),
{
    let mut r = String::from_str("Connected to [");
    r.append(address.addr.as_str());
    r.append("] ");
    r.append(address.hostname.as_str());
    r.append(" seq=");
    let seq_text = fmt_u128(sequence);
    r.append(seq_text.as_str());
    r.append(" time=");
    let ms_text = fmt_u128(ms);
    r.append(ms_text.as_str());
    r.append(" ms");
    proof {
        assert(r@ =~= success_line_spec(
            address.addr@,
            address.hostname@,
            sequence as int,
            ms as int,
        ));
    }
    r
}

/// Builds the failure report line.
pub fn failure_line(address: &HostAddr) -> (r: String)
    ensures
        r@ == failure_line_spec(address.addr@, address.hostname@),
{
    let mut r = String::from_str("Failed to connect to [");
    r.append(address.addr.as_str());
    r.append("] ");
    r.append(address.hostname.as_str());
    r.append("...");
    proof {
        assert(r@ =~= failure_line_spec(address.addr@, address.hostname@));
    }
    r
}

/// Law: the summary is a pure reading of the statistics. The renderer
/// takes them by shared reference, so it cannot change them, and any
/// two renderings of the same statistics are the identical text.
pub proof fn lemma_summary_idempotent(s: Statistics, first: Seq<char>, second: Seq<char>)
    requires
        first == summary_spec(s),
        second == summary_spec(s),
    ensures
        first == second,
{
}

/// Builds the summary. It reads the statistics and cannot change
/// them; rendering the same statistics twice gives the same text.
pub fn summary_line(s: &Statistics) -> (r: String)
    ensures
        r@ == summary_spec(*s),
{
    let mut r = String::from_str("\nTotal: ");
    let sequence_text = fmt_u128(s.sequence);
    r.append(sequence_text.as_str());
    r.append(" Avg: ");
    let avg_text = fmt_u128(s.avg);
    r.append(avg_text.as_str());
    r.append("ms Min: ");
    let min_text = fmt_u128(s.min);
    r.append(min_text.as_str());
    r.append("ms Max: ");
    let max_text = fmt_u128(s.max);
    r.append(max_text.as_str());
    r.append("ms Lost: ");
    let lost_text = fmt_u128(s.lost);
    r.append(lost_text.as_str());
    r.append("\n");
    proof {
        assert(r@ =~= summary_spec(*s));
    }
    r
}

} // verus!
