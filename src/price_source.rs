//! Which upstream price to ask for a symbol.

use vstd::prelude::*;

verus! {

/// Why no price could be asked for.
#[derive(Clone, Copy, Debug, PartialEq, Eq, Structural)]
pub enum FetchError {
    UnsupportedSymbol,
}

/// The upstream identifier of a supported symbol.
pub open spec fn coin_id_of(symbol: Seq<char>) -> Option<Seq<char>> {
    if symbol == "BTC"@ {
        Some("bitcoin"@)
    } else if symbol == "ETH"@ {
        Some("ethereum"@)
    } else if symbol == "ICP"@ {
        Some("internet-computer"@)
    } else {
        None
    }
}

/// The address that quotes a coin in US dollars.
pub open spec fn quote_url(id: Seq<char>) -> Seq<char> {
    "https://api.coingecko.com/api/v3/simple/price?ids="@ + id + "&vs_currencies=usd"@
}

/// The upstream identifier of `symbol`; only BTC, ETH and ICP are supported.
pub fn coin_id(symbol: &String) -> (r: Result<String, FetchError>)
    ensures
        match coin_id_of(symbol@) {
            Some(id) => r matches Ok(s) && s@ == id,
            None => r == Err::<String, FetchError>(FetchError::UnsupportedSymbol),
        },
{
    proof {
        reveal_strlit("BTC");
        reveal_strlit("ETH");
        reveal_strlit("ICP");
        reveal_strlit("bitcoin");
        reveal_strlit("ethereum");
        reveal_strlit("internet-computer");
    }
    if *symbol == String::from_str("BTC") {
        Ok(String::from_str("bitcoin"))
    } else if *symbol == String::from_str("ETH") {
        Ok(String::from_str("ethereum"))
    } else if *symbol == String::from_str("ICP") {
        Ok(String::from_str("internet-computer"))
    } else {
        Err(FetchError::UnsupportedSymbol)
    }
}

/// The address to fetch the dollar price of `symbol` from.
pub fn price_url(symbol: &String) -> (r: Result<String, FetchError>)
    ensures
        match coin_id_of(symbol@) {
            Some(id) => r matches Ok(s) && s@ == quote_url(id),
            None => r == Err::<String, FetchError>(FetchError::UnsupportedSymbol),
        },
{
    let id = coin_id(symbol)?;
    proof {
        reveal_strlit("https://api.coingecko.com/api/v3/simple/price?ids=");
        reveal_strlit("&vs_currencies=usd");
    }
    let mut url = String::from_str("https://api.coingecko.com/api/v3/simple/price?ids=");
    url.append(id.as_str());
    url.append("&vs_currencies=usd");
    assert(url@ =~= quote_url(id@));
    Ok(url)
}

} // verus!
