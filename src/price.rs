//! The `price` chat command's reply.

use vstd::prelude::*;
use crate::text::{cents_text, nat_text, push_cents, push_nat};

verus! {

/// The decimal text of an integer, with a leading `-` when negative.
pub open spec fn int_text(i: int) -> Seq<char> {
    if i < 0 {
        "-"@ + nat_text((-i) as nat)
    } else {
        nat_text(i as nat)
    }
}

/// The reply to `price`: the ICP price and a relative-time mark of when it was read.
pub open spec fn price_message(cents: u64, updated_at: i64) -> Seq<char> {
    "Current ICP Price: $"@ + cents_text(cents as nat) + "\nLast updated: <t:"@ + int_text(
        updated_at as int,
    ) + ":R>"@
}

/// Appends the decimal text of a signed integer.
pub fn push_int(out: &mut String, i: i64)
    ensures
        final(out)@ == old(out)@ + int_text(i as int),
{
    if i < 0 {
        proof { reveal_strlit("-"); }
        out.append("-");
        let m: u64 = ((-(i + 1)) as u64) + 1;
        push_nat(out, m);
        assert(out@ =~= old(out)@ + int_text(i as int));
    } else {
        push_nat(out, i as u64);
    }
}

/// The `price` command.
pub struct Price;

impl Price {
    /// The reply for an ICP price in cents read at `updated_at` (Unix seconds).
    pub fn reply(cents: u64, updated_at: i64) -> (r: String)
        ensures
            r@ == price_message(cents, updated_at),
    {
        proof {
            reveal_strlit("Current ICP Price: $");
            reveal_strlit("\nLast updated: <t:");
            reveal_strlit(":R>");
        }
        let mut m = String::from_str("Current ICP Price: $");
        push_cents(&mut m, cents);
        m.append("\nLast updated: <t:");
        push_int(&mut m, updated_at);
        m.append(":R>");
        assert(m@ =~= price_message(cents, updated_at));
        m
    }
}

} // verus!
