use price_alerts::alert::{Alert, AlertError};
use price_alerts::config::{default_port, parse_port, FALLBACK_PORT};
use price_alerts::price::Price;
use price_alerts::price_source::{coin_id, price_url, FetchError};
use price_alerts::text::push_cents;

const NEW_YEAR: i64 = 1_704_067_200_000_000_000;

#[test]
fn set_confirms_and_stores_the_alert() {
    let mut a = Alert::new();
    let r = a.execute("SET", "icp", Some(1_234), "Above", NEW_YEAR);
    assert_eq!(r, Ok("🔔 Price alert set for ICP when price rises above $12.34".to_string()));
    let r = a.execute("set", "btc", Some(5), "BELOW", NEW_YEAR);
    assert_eq!(r, Ok("🔔 Price alert set for BTC when price falls below $0.05".to_string()));
    assert_eq!(a.monitor.get_alerts().len(), 2);
}

#[test]
fn list_replies_with_bullets() {
    let mut a = Alert::new();
    assert_eq!(
        a.execute("list", "", None, "", NEW_YEAR),
        Ok("📋 Your Price Alerts:\n\nNo alerts set".to_string())
    );
    a.execute("set", "eth", Some(250_000), "below", NEW_YEAR).unwrap();
    assert_eq!(
        a.execute("List", "", None, "", NEW_YEAR),
        Ok("📋 Your Price Alerts:\n\n• ETH below $2500.00 (set 2024-01-01 00:00)\n".to_string())
    );
}

#[test]
fn remove_confirms_and_clears() {
    let mut a = Alert::new();
    a.execute("set", "eth", Some(250_000), "below", NEW_YEAR).unwrap();
    assert_eq!(
        a.execute("remove", "eth", None, "", NEW_YEAR),
        Ok("✅ Removed price alert for ETH".to_string())
    );
    assert!(a.monitor.is_empty());
}

#[test]
fn refusals_leave_the_registry_alone() {
    let mut a = Alert::new();
    assert_eq!(a.execute("set", "BTC", None, "above", 0), Err(AlertError::InvalidPriceFormat));
    assert_eq!(a.execute("set", "BTC", Some(0), "above", 0), Err(AlertError::InvalidPriceFormat));
    assert_eq!(a.execute("set", "BTC", Some(10), "sideways", 0), Err(AlertError::InvalidCondition));
    assert_eq!(a.execute("watch", "BTC", Some(10), "above", 0), Err(AlertError::InvalidAction));
    assert_eq!(a.execute("set", "doge", Some(10), "above", 0), Err(AlertError::UnsupportedSymbol));
    assert_eq!(a.execute("set", "", Some(10), "above", 0), Err(AlertError::UnsupportedSymbol));
    assert!(a.monitor.is_empty());
    assert_eq!(AlertError::InvalidPriceFormat.message(), "Invalid price format");
    assert_eq!(AlertError::InvalidCondition.message(), "Invalid condition");
    assert_eq!(AlertError::InvalidAction.message(), "Invalid action");
    assert_eq!(AlertError::UnsupportedSymbol.message(), "Unsupported symbol");
}

#[test]
fn ports_read_like_u16() {
    assert_eq!(parse_port("8080"), Some(8080));
    assert_eq!(parse_port("+80"), Some(80));
    assert_eq!(parse_port("0"), Some(0));
    assert_eq!(parse_port("65535"), Some(65535));
    assert_eq!(parse_port("65536"), None);
    assert_eq!(parse_port("999999999999999999999"), None);
    assert_eq!(parse_port(""), None);
    assert_eq!(parse_port("+"), None);
    assert_eq!(parse_port(" 80"), None);
    assert_eq!(parse_port("8o"), None);
    assert_eq!(parse_port("-1"), None);
}

#[test]
fn default_port_falls_back() {
    assert_eq!(default_port(Some("3000")), 3000);
    assert_eq!(default_port(Some("abc")), FALLBACK_PORT);
    assert_eq!(default_port(None), 13457);
}

#[test]
fn price_reply_is_exact() {
    assert_eq!(
        Price::reply(1_207, 1_700_000_000),
        "Current ICP Price: $12.07\nLast updated: <t:1700000000:R>"
    );
    assert_eq!(Price::reply(0, -5), "Current ICP Price: $0.00\nLast updated: <t:-5:R>");
    assert_eq!(
        Price::reply(u64::MAX, i64::MIN),
        "Current ICP Price: $184467440737095516.15\nLast updated: <t:-9223372036854775808:R>"
    );
}

#[test]
fn cents_render_with_two_decimals() {
    let mut s = String::from("$");
    push_cents(&mut s, 100_001);
    assert_eq!(s, "$1000.01");
}

#[test]
fn supported_symbols_map_to_upstream_ids() {
    assert_eq!(coin_id(&"BTC".to_string()), Ok("bitcoin".to_string()));
    assert_eq!(coin_id(&"ETH".to_string()), Ok("ethereum".to_string()));
    assert_eq!(coin_id(&"ICP".to_string()), Ok("internet-computer".to_string()));
    assert_eq!(coin_id(&"btc".to_string()), Err(FetchError::UnsupportedSymbol));
    assert_eq!(
        price_url(&"ICP".to_string()),
        Ok("https://api.coingecko.com/api/v3/simple/price?ids=internet-computer&vs_currencies=usd".to_string())
    );
    assert_eq!(price_url(&"DOGE".to_string()), Err(FetchError::UnsupportedSymbol));
}

#[test]
fn folded_command_works_on_its_inputs_as_given() {
    let mut a = Alert::new();
    let set = "set".to_string();
    let above = "above".to_string();
    assert_eq!(
        a.execute_folded(&set, "BTC".to_string(), Some(100), &above, NEW_YEAR),
        Ok("🔔 Price alert set for BTC when price rises above $1.00".to_string())
    );
    assert_eq!(
        a.execute_folded(&set, "btc".to_string(), Some(100), &above, NEW_YEAR),
        Err(AlertError::UnsupportedSymbol)
    );
    assert_eq!(
        a.execute_folded(&"SET".to_string(), "BTC".to_string(), Some(100), &above, NEW_YEAR),
        Err(AlertError::InvalidAction)
    );
    assert_eq!(a.monitor.get_alerts().len(), 1);
}
