//! The `dex` chat command: whale movements and liquidity, from fixed sample data.

use vstd::prelude::*;
use crate::alert::{lower_of, lowercase};
use crate::price::{int_text, push_int};

verus! {

/// Why a `dex` command was refused.
#[derive(Clone, Copy, Debug, PartialEq, Eq, Structural)]
pub enum DexError {
    InvalidAction,
}

/// The sample report of large transactions.
pub open spec fn whale_data() -> Seq<char> {
    "Recent large transactions:\n• 1000 ICP moved on Sonic DEX\n• 500 ETH swapped on Uniswap\n• 10 BTC transferred to exchange"@
}

/// The sample report of pool liquidity.
pub open spec fn liquidity_data() -> Seq<char> {
    "Current DEX Liquidity:\n• Sonic DEX: 1M ICP\n• Uniswap: 500K ETH\n• PancakeSwap: 100K BNB"@
}

/// A report under its heading, with a relative-time mark of when it was made.
pub open spec fn dex_message(heading: Seq<char>, data: Seq<char>, at: i64) -> Seq<char> {
    heading + "\n\n"@ + data + "\n\nLast updated: <t:"@ + int_text(at as int) + ":R>"@
}

/// The `dex` command.
pub struct DexMonitor;

impl DexMonitor {
    /// The reply to `whale` or `liquidity` (in any case) at `now` (Unix seconds).
    pub fn execute(action: &str, now: i64) -> (r: Result<String, DexError>)
        ensures
            lower_of(action@) == "whale"@ ==> (r matches Ok(m) && m@ == dex_message(
                "🐋 Whale Alert!"@,
                whale_data(),
                now,
            )),
            lower_of(action@) == "liquidity"@ ==> (r matches Ok(m) && m@ == dex_message(
                "💧 Liquidity Update"@,
                liquidity_data(),
                now,
            )),
            lower_of(action@) != "whale"@ && lower_of(action@) != "liquidity"@ ==> r == Err::<
                String,
                DexError,
            >(DexError::InvalidAction),
    {
        proof {
            reveal_strlit("whale");
            reveal_strlit("liquidity");
            reveal_strlit("🐋 Whale Alert!");
            reveal_strlit("💧 Liquidity Update");
            reveal_strlit("Recent large transactions:\n• 1000 ICP moved on Sonic DEX\n• 500 ETH swapped on Uniswap\n• 10 BTC transferred to exchange");
            reveal_strlit("Current DEX Liquidity:\n• Sonic DEX: 1M ICP\n• Uniswap: 500K ETH\n• PancakeSwap: 100K BNB");
            reveal_strlit("\n\n");
            reveal_strlit("\n\nLast updated: <t:");
            reveal_strlit(":R>");
            assert("whale"@.len() == 5 && "liquidity"@.len() == 9);
        }
        let act = lowercase(action);
        let mut m;
        if act == String::from_str("whale") {
            m = String::from_str("🐋 Whale Alert!");
            m.append("\n\n");
            m.append("Recent large transactions:\n• 1000 ICP moved on Sonic DEX\n• 500 ETH swapped on Uniswap\n• 10 BTC transferred to exchange");
        } else if act == String::from_str("liquidity") {
            m = String::from_str("💧 Liquidity Update");
            m.append("\n\n");
            m.append("Current DEX Liquidity:\n• Sonic DEX: 1M ICP\n• Uniswap: 500K ETH\n• PancakeSwap: 100K BNB");
        } else {
            return Err(DexError::InvalidAction);
        }
        m.append("\n\nLast updated: <t:");
        push_int(&mut m, now);
        m.append(":R>");
        assert(act@ == "whale"@ ==> m@ =~= dex_message("🐋 Whale Alert!"@, whale_data(), now));
        assert(act@ == "liquidity"@ ==> m@ =~= dex_message("💧 Liquidity Update"@, liquidity_data(), now));
        Ok(m)
    }
}

} // verus!
