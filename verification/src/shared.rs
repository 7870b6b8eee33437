//! Connection identifiers.

use vstd::prelude::*;

verus! {

/// The character of a decimal digit.
pub open spec fn digit_char(d: nat) -> char {
    (48 + d) as char
}

/// The decimal notation of `n`, without leading zeros.
pub open spec fn decimal(n: nat) -> Seq<char>
    decreases n,
{
    if n < 10 {
        seq![digit_char(n)]
    } else {
        decimal(n / 10).push(digit_char(n % 10))
    }
}

/// The text of one decimal digit.
fn digit_str(d: u64) -> (r: &'static str)
    requires
        d < 10,
    ensures
        r@ == seq![digit_char(d as nat)],
{
    proof {
        reveal_strlit("0");
        reveal_strlit("1");
        reveal_strlit("2");
        reveal_strlit("3");
        reveal_strlit("4");
        reveal_strlit("5");
        reveal_strlit("6");
        reveal_strlit("7");
        reveal_strlit("8");
        reveal_strlit("9");
    }
    match d {
        0 => "0",
        1 => "1",
        2 => "2",
        3 => "3",
        4 => "4",
        5 => "5",
        6 => "6",
        7 => "7",
        8 => "8",
        _ => "9",
    }
}

/// `n` in decimal notation without leading zeros.
pub(crate) fn decimal_string(n: u64) -> (r: String)
    ensures
        r@ == decimal(n as nat),
    decreases n,
{
    if n < 10 {
        let mut r = String::new();
        r.append(digit_str(n));
        r
    } else {
        let mut r = decimal_string(n / 10);
        r.append(digit_str(n % 10));
        r
    }
}

/// A connection identifier denotes a single connection.
#[derive(Hash, PartialEq, Eq, Clone, Copy, Debug, Structural)]
pub struct ConnectionId {
    /// The key of the connection.
    pub id: u32,
}

impl ConnectionId {
    /// The text by which the connection is shown: `Connection with ID=<id>`.
    pub fn to_display_string(&self) -> (r: String)
        ensures
            r@ == "Connection with ID="@ + decimal(self.id as nat),
    {
        let mut r = String::new();
        r.append("Connection with ID=");
        let digits = decimal_string(self.id as u64);
        r.append(digits.as_str());
        r
    }
}

/// An untyped packet to be sent over the wire: the kind of message it
/// holds and the message's encoded data.
pub struct NetworkPacket {
    pub kind: String,
    pub data: Vec<u8>,
}

} // verus!
