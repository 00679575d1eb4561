//! Log messages written by a ping loop, built and specified exactly: the
//! decimal rendering of a number and the three event messages (about to
//! sleep, ping succeeded, ping failed).

use vstd::prelude::*;
use vstd::string::StringExecFns;

verus! {

/// The character for one decimal digit.
pub open spec fn digit_char(d: int) -> char {
    if d == 0 {
        '0'
    } else if d == 1 {
        '1'
    } else if d == 2 {
        '2'
    } else if d == 3 {
        '3'
    } else if d == 4 {
        '4'
    } else if d == 5 {
        '5'
    } else if d == 6 {
        '6'
    } else if d == 7 {
        '7'
    } else if d == 8 {
        '8'
    } else {
        '9'
    }
}

/// The decimal digits of `n`, most significant first.
pub open spec fn spec_decimal(n: int) -> Seq<char>
    decreases n,
{
    if n < 10 {
        seq![digit_char(n)]
    } else {
        spec_decimal(n / 10).push(digit_char(n % 10))
    }
}

/// The message logged before a loop sleeps: it names the delay and the
/// target URL.
pub open spec fn sleep_message_spec(url: Seq<char>, delay: u64) -> Seq<char> {
    "Sleeping "@ + spec_decimal(delay as int) + " minutes before pinging "@ + url
}

/// The message logged when a ping got a response with the given status code.
pub open spec fn success_message_spec(url: Seq<char>, status: u16) -> Seq<char> {
    url + " responded with status "@ + spec_decimal(status as int)
}

/// The message logged when a ping failed at the transport level.
pub open spec fn failure_message_spec(url: Seq<char>, reason: Seq<char>) -> Seq<char> {
    "Failed to ping "@ + url + ": "@ + reason
}

fn digit_str(d: u64) -> (r: &'static str)
    requires
        d < 10,
    ensures
        r@ == seq![digit_char(d as int)],
{
    proof {
        reveal_strlit("0");
        reveal_strlit("1");
        reveal_strlit("2");
        reveal_strlit("3");
        reveal_strlit("4");
        reveal_strlit("5");
        reveal_strlit("6");
        reveal_strlit("7");
        reveal_strlit("8");
        reveal_strlit("9");
    }
    let r = match d {
        0 => "0",
        1 => "1",
        2 => "2",
        3 => "3",
        4 => "4",
        5 => "5",
        6 => "6",
        7 => "7",
        8 => "8",
        _ => "9",
    };
    proof {
        assert(r@ =~= seq![digit_char(d as int)]);
    }
    r
}

fn push_decimal(s: &mut String, n: u64)
    ensures
        final(s)@ == old(s)@ + spec_decimal(n as int),
    decreases n,
{
    let ghost begin = s@;
    if n >= 10 {
        push_decimal(s, n / 10);
    }
    s.append(digit_str(n % 10));
    proof {
        if n >= 10 {
            assert(s@ =~= begin + spec_decimal(n as int));
        } else {
            assert(s@ =~= begin + spec_decimal(n as int));
        }
    }
}

/// Renders `n` in decimal, most significant digit first.
pub fn decimal_string(n: u64) -> (r: String)
    ensures
        r@ == spec_decimal(n as int),
{
    let mut s = String::new();
    push_decimal(&mut s, n);
    proof {
        assert(s@ =~= spec_decimal(n as int));
    }
    s
}

/// Builds the about-to-sleep message for one cycle.
pub fn sleep_message(url: &str, delay: u64) -> (r: String)
    ensures
        r@ == sleep_message_spec(url@, delay),
{
    let mut s = String::new();
    s.append("Sleeping ");
    let d = decimal_string(delay);
    s.append(d.as_str());
    s.append(" minutes before pinging ");
    s.append(url);
    proof {
        assert(s@ =~= sleep_message_spec(url@, delay));
    }
    s
}

/// Builds the response message for a ping that got an answer.
pub fn success_message(url: &str, status: u16) -> (r: String)
    ensures
        r@ == success_message_spec(url@, status),
{
    let mut s = String::new();
    s.append(url);
    s.append(" responded with status ");
    let d = decimal_string(status as u64);
    s.append(d.as_str());
    proof {
        assert(s@ =~= success_message_spec(url@, status));
    }
    s
}

/// Builds the failure message for a ping that could not be delivered.
pub fn failure_message(url: &str, reason: &str) -> (r: String)
    ensures
        r@ == failure_message_spec(url@, reason@),
{
    let mut s = String::new();
    s.append("Failed to ping ");
    s.append(url);
    s.append(": ");
    s.append(reason);
    proof {
        assert(s@ =~= failure_message_spec(url@, reason@));
    }
    s
}

} // verus!
