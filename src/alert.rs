//! The `alert` chat command: set, list and remove price alerts.

use vstd::prelude::*;
use crate::alert_monitor::{
    add_entry, all_lines, remove_entry, upper_of, uppercase, AlertData, AlertMonitor, Direction,
};
use crate::price_source::{coin_id, coin_id_of};
use crate::text::{cents_text, push_cents};

verus! {

/// The lower-case form of a text, as `str::to_lowercase` computes it.
pub uninterp spec fn lower_of(s: Seq<char>) -> Seq<char>;

/// Relies on `str::to_lowercase`: its result depends on the characters alone.
#[verifier::external_body]
pub(crate) fn lowercase(s: &str) -> (r: String)
    ensures
        r@ == lower_of(s@),
{
    s.to_lowercase()
}

/// Why an `alert` command was refused.
#[derive(Clone, Copy, Debug, PartialEq, Eq, Structural)]
pub enum AlertError {
    InvalidPriceFormat,
    InvalidCondition,
    UnsupportedSymbol,
    InvalidAction,
}

/// The text shown for a refusal.
pub open spec fn error_text(e: AlertError) -> Seq<char> {
    match e {
        AlertError::InvalidPriceFormat => "Invalid price format"@,
        AlertError::InvalidCondition => "Invalid condition"@,
        AlertError::UnsupportedSymbol => "Unsupported symbol"@,
        AlertError::InvalidAction => "Invalid action"@,
    }
}

impl AlertError {
    /// The text shown for this refusal.
    pub fn message(&self) -> (r: String)
        ensures
            r@ == error_text(*self),
    {
        match self {
            AlertError::InvalidPriceFormat => {
                proof { reveal_strlit("Invalid price format"); }
                String::from_str("Invalid price format")
            },
            AlertError::InvalidCondition => {
                proof { reveal_strlit("Invalid condition"); }
                String::from_str("Invalid condition")
            },
            AlertError::UnsupportedSymbol => {
                proof { reveal_strlit("Unsupported symbol"); }
                String::from_str("Unsupported symbol")
            },
            AlertError::InvalidAction => {
                proof { reveal_strlit("Invalid action"); }
                String::from_str("Invalid action")
            },
        }
    }
}

/// The direction that a lower-cased condition names, if any.
pub open spec fn condition_of(c: Seq<char>) -> Option<Direction> {
    if c == "above"@ {
        Some(Direction::Above)
    } else if c == "below"@ {
        Some(Direction::Below)
    } else {
        None
    }
}

/// How a confirmation phrases a direction.
pub open spec fn direction_phrase(d: Direction) -> Seq<char> {
    match d {
        Direction::Above => "rises above"@,
        Direction::Below => "falls below"@,
    }
}

/// A reply as plain text, or the refusal.
pub open spec fn reply_view(r: Result<String, AlertError>) -> Result<Seq<char>, AlertError> {
    match r {
        Ok(m) => Ok(m@),
        Err(e) => Err(e),
    }
}

/// What a command with a lower-case action and condition and an upper-case
/// key replies, and what the registry becomes. `set` checks the price, then
/// the condition, then that the symbol is supported, and stores nothing
/// unless all three pass.
pub open spec fn outcome(
    entries: Seq<(Seq<char>, Seq<AlertData>)>,
    action: Seq<char>,
    key: Seq<char>,
    price: Option<u64>,
    condition: Seq<char>,
    now: i64,
) -> (Result<Seq<char>, AlertError>, Seq<(Seq<char>, Seq<AlertData>)>) {
    if action == "set"@ {
        if price is None || price == Some(0u64) {
            (Err(AlertError::InvalidPriceFormat), entries)
        } else if condition_of(condition) is None {
            (Err(AlertError::InvalidCondition), entries)
        } else if coin_id_of(key) is None {
            (Err(AlertError::UnsupportedSymbol), entries)
        } else {
            let d = condition_of(condition)->0;
            let p = price->0;
            (
                Ok(set_message(key, d, p)),
                add_entry(entries, key, AlertData { price: p, condition: d, timestamp: now }),
            )
        }
    } else if action == "list"@ {
        (Ok(list_message(entries)), entries)
    } else if action == "remove"@ {
        (Ok(remove_message(key)), remove_entry(entries, key))
    } else {
        (Err(AlertError::InvalidAction), entries)
    }
}

/// The confirmation of a new alert.
pub open spec fn set_message(symbol: Seq<char>, d: Direction, cents: u64) -> Seq<char> {
    "🔔 Price alert set for "@ + symbol + " when price "@ + direction_phrase(d) + " $"@
        + cents_text(cents as nat)
}

/// The confirmation of a removal.
pub open spec fn remove_message(symbol: Seq<char>) -> Seq<char> {
    "✅ Removed price alert for "@ + symbol
}

/// Each line as a bullet of its own.
pub open spec fn bullets(lines: Seq<Seq<char>>) -> Seq<char>
    decreases lines.len(),
{
    if lines.len() == 0 {
        seq![]
    } else {
        bullets(lines.drop_last()) + "• "@ + lines.last() + "\n"@
    }
}

/// The reply to `list`.
pub open spec fn list_message(entries: Seq<(Seq<char>, Seq<AlertData>)>) -> Seq<char> {
    "📋 Your Price Alerts:\n\n"@ + if all_lines(entries).len() == 0 {
        "No alerts set"@
    } else {
        bullets(all_lines(entries))
    }
}

/// The `alert` command, over a registry of its own.
pub struct Alert {
    pub monitor: AlertMonitor,
}

impl Alert {
    /// A command with an empty registry.
    pub fn new() -> (r: Self)
        ensures
            r.monitor.wf(),
            r.monitor@ == Seq::<(Seq<char>, Seq<AlertData>)>::empty(),
    {
        Alert { monitor: AlertMonitor::new() }
    }

    /// Runs one `alert` command. `action` is `set`, `list` or `remove` in any
    /// case; `symbol` is an asset ticker in any case; `price` is the threshold
    /// in cents as the request layer read it (`None` where it could not);
    /// `condition` is `above` or `below` in any case; `now` is the time of the
    /// request. A refused command leaves the registry as it was.
    pub fn execute(
        &mut self,
        action: &str,
        symbol: &str,
        price: Option<u64>,
        condition: &str,
        now: i64,
    ) -> (r: Result<String, AlertError>)
        requires
            old(self).monitor.wf(),
        ensures
            final(self).monitor.wf(),
            reply_view(r) == outcome(
                old(self).monitor@,
                lower_of(action@),
                upper_of(symbol@),
                price,
                lower_of(condition@),
                now,
            ).0,
            final(self).monitor@ == outcome(
                old(self).monitor@,
                lower_of(action@),
                upper_of(symbol@),
                price,
                lower_of(condition@),
                now,
            ).1,
    {
        let act = lowercase(action);
        let key = uppercase(symbol);
        let cond = lowercase(condition);
        self.execute_folded(&act, key, price, &cond, now)
    }

    /// Runs one `alert` command whose action and condition are already lower
    /// case and whose symbol is already upper case.
    pub fn execute_folded(
        &mut self,
        action: &String,
        key: String,
        price: Option<u64>,
        condition: &String,
        now: i64,
    ) -> (r: Result<String, AlertError>)
        requires
            old(self).monitor.wf(),
        ensures
            final(self).monitor.wf(),
            reply_view(r) == outcome(old(self).monitor@, action@, key@, price, condition@, now).0,
            final(self).monitor@ == outcome(old(self).monitor@, action@, key@, price, condition@, now).1,
    {
        proof {
            reveal_strlit("set");
            reveal_strlit("list");
            reveal_strlit("remove");
            reveal_strlit("above");
            reveal_strlit("below");
            reveal_strlit("BTC");
            reveal_strlit("ETH");
            reveal_strlit("ICP");
            assert("set"@.len() == 3 && "list"@.len() == 4 && "remove"@.len() == 6);
            assert("set"@ != "list"@ && "set"@ != "remove"@ && "list"@ != "remove"@);
        }
        if *action == String::from_str("set") {
            if price.is_none() || price == Some(0u64) {
                return Err(AlertError::InvalidPriceFormat);
            }
            let p = price.unwrap();
            let d = if *condition == String::from_str("above") {
                Direction::Above
            } else if *condition == String::from_str("below") {
                Direction::Below
            } else {
                return Err(AlertError::InvalidCondition);
            };
            if coin_id(&key).is_err() {
                return Err(AlertError::UnsupportedSymbol);
            }
            let reply = Self::set_reply(&key, d, p);
            self.monitor.add_alert_key(key, p, d, now);
            Ok(reply)
        } else if *action == String::from_str("list") {
            Ok(Self::list_reply(&self.monitor))
        } else if *action == String::from_str("remove") {
            self.monitor.remove_alert_key(&key);
            proof { reveal_strlit("✅ Removed price alert for "); }
            let mut m = String::from_str("✅ Removed price alert for ");
            m.append(key.as_str());
            assert(m@ =~= remove_message(key@));
            Ok(m)
        } else {
            Err(AlertError::InvalidAction)
        }
    }

    fn set_reply(symbol: &String, d: Direction, p: u64) -> (r: String)
        ensures
            r@ == set_message(symbol@, d, p),
    {
        proof {
            reveal_strlit("🔔 Price alert set for ");
            reveal_strlit(" when price ");
            reveal_strlit("rises above");
            reveal_strlit("falls below");
            reveal_strlit(" $");
        }
        let mut m = String::from_str("🔔 Price alert set for ");
        m.append(symbol.as_str());
        m.append(" when price ");
        match d {
            Direction::Above => m.append("rises above"),
            Direction::Below => m.append("falls below"),
        }
        m.append(" $");
        push_cents(&mut m, p);
        assert(m@ =~= set_message(symbol@, d, p));
        m
    }

    fn list_reply(monitor: &AlertMonitor) -> (r: String)
        requires
            monitor.wf(),
        ensures
            r@ == list_message(monitor@),
    {
        proof {
            reveal_strlit("📋 Your Price Alerts:\n\n");
            reveal_strlit("No alerts set");
            reveal_strlit("• ");
            reveal_strlit("\n");
        }
        let mut m = String::from_str("📋 Your Price Alerts:\n\n");
        if monitor.is_empty() {
            m.append("No alerts set");
            return m;
        }
        let lines = monitor.get_alerts();
        let ghost head = m@;
        let mut i: usize = 0;
        while i < lines.len()
            invariant
                monitor.wf(),
                all_lines(monitor@).len() > 0,
                lines@.map_values(|l: String| l@) == all_lines(monitor@),
                i <= lines@.len(),
                m@ == head + bullets(all_lines(monitor@).take(i as int)),
            decreases lines@.len() - i,
        {
            m.append("• ");
            m.append(lines[i].as_str());
            m.append("\n");
            let ghost t = all_lines(monitor@);
            assert(t.take(i as int + 1).drop_last() =~= t.take(i as int));
            assert(t[i as int] == lines@[i as int]@);
            assert(m@ =~= head + bullets(t.take(i as int + 1)));
            i = i + 1;
        }
        assert(all_lines(monitor@).take(i as int) =~= all_lines(monitor@));
        m
    }
}

} // verus!
