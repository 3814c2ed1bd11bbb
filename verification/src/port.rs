//! Port allocation for the embedded asset server: a policy (random or fixed)
//! plus the host's availability probe result yield a concrete port string and
//! a validity flag. The OS-level probe itself is the host's job; this module
//! holds every decision made from its answer.

use vstd::prelude::*;
use vstd::string::StringExecFns;

verus! {

/// How the embedded server's port is chosen: an ephemeral port found by
/// probing the host, or a specific value demanded by configuration.
#[derive(Clone, Copy)]
pub enum PortPolicy {
    Random,
    Fixed(u16),
}

/// What the host's availability probe reported. Under `PortPolicy::Random`,
/// `Available(p)` is an unbound port the probe found; under
/// `PortPolicy::Fixed(n)`, `Available(n)` means `n` is currently unbound.
/// `Unavailable` means no usable port was found (or the fixed port is bound).
#[derive(Clone, Copy)]
pub enum ProbeOutcome {
    Available(u16),
    Unavailable,
}

/// The decimal digit `d` (below ten) as a character.
pub open spec fn dec_digit(d: nat) -> char {
    if d == 0 {
        '0'
    } else if d == 1 {
        '1'
    } else if d == 2 {
        '2'
    } else if d == 3 {
        '3'
    } else if d == 4 {
        '4'
    } else if d == 5 {
        '5'
    } else if d == 6 {
        '6'
    } else if d == 7 {
        '7'
    } else if d == 8 {
        '8'
    } else {
        '9'
    }
}

/// The decimal rendering of `n`, most significant digit first, no leading
/// zeros (except for `n == 0` itself).
pub open spec fn dec_str(n: nat) -> Seq<char>
    decreases n,
{
    if n < 10 {
        seq![dec_digit(n)]
    } else {
        dec_str(n / 10) + seq![dec_digit(n % 10)]
    }
}

/// The single decimal digit `d` as a string slice.
fn digit_str(d: u8) -> (r: &'static str)
    requires
        d < 10,
    ensures
        r@ =~= seq![dec_digit(d as nat)],
{
    proof {
        reveal_strlit("0");
        reveal_strlit("1");
        reveal_strlit("2");
        reveal_strlit("3");
        reveal_strlit("4");
        reveal_strlit("5");
        reveal_strlit("6");
        reveal_strlit("7");
        reveal_strlit("8");
        reveal_strlit("9");
    }
    if d == 0 {
        "0"
    } else if d == 1 {
        "1"
    } else if d == 2 {
        "2"
    } else if d == 3 {
        "3"
    } else if d == 4 {
        "4"
    } else if d == 5 {
        "5"
    } else if d == 6 {
        "6"
    } else if d == 7 {
        "7"
    } else if d == 8 {
        "8"
    } else {
        "9"
    }
}

/// Renders a port number in decimal.
pub fn u16_to_string(n: u16) -> (r: String)
    ensures
        r@ == dec_str(n as nat),
    decreases n,
{
    if n < 10 {
        String::from_str(digit_str(n as u8))
    } else {
        let high = u16_to_string(n / 10);
        let low = n % 10;
        assert(low < 10);
        high.concat(digit_str(low as u8))
    }
}

/// Resolves a port policy against the probe's answer: a `Fixed` port is
/// reported as it stands, valid exactly when the probe found it unbound; a
/// `Random` policy takes whatever unbound port the probe found, or falls back
/// to the sentinel `"0"` marked invalid.
pub fn setup_port(policy: &PortPolicy, probe: &ProbeOutcome) -> (r: (String, bool))
    ensures
        match *policy {
            PortPolicy::Random => match *probe {
                ProbeOutcome::Available(p) => r.1 == true && r.0@ == dec_str(p as nat),
                ProbeOutcome::Unavailable => r.1 == false && r.0@ == dec_str(0),
            },
            PortPolicy::Fixed(n) => r.0@ == dec_str(n as nat) && (r.1 <==> *probe is Available),
        },
{
    match policy {
        PortPolicy::Random => match probe {
            ProbeOutcome::Available(p) => (u16_to_string(*p), true),
            ProbeOutcome::Unavailable => {
                let zero = String::from_str("0");
                proof {
                    reveal_strlit("0");
                    assert(zero@ =~= dec_str(0));
                }
                (zero, false)
            },
        },
        PortPolicy::Fixed(n) => {
            let s = u16_to_string(*n);
            match probe {
                ProbeOutcome::Available(_) => (s, true),
                ProbeOutcome::Unavailable => (s, false),
            }
        },
    }
}

} // verus!
