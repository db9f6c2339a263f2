use cex_ws::kraken::connector::{map_asset_to_kraken, KrakenConnector};
use cex_ws::kucoin::connector::interval_to_secs;

#[test]
fn kraken_asset_codes() {
    assert_eq!(map_asset_to_kraken("BTC"), "XXBT");
    assert_eq!(map_asset_to_kraken("xbt"), "XXBT");
    assert_eq!(map_asset_to_kraken("eth"), "XETH");
    assert_eq!(map_asset_to_kraken("LTC"), "XLTC");
    assert_eq!(map_asset_to_kraken("XRP"), "XXRP");
    assert_eq!(map_asset_to_kraken("usd"), "ZUSD");
    assert_eq!(map_asset_to_kraken("EUR"), "ZEUR");
    assert_eq!(map_asset_to_kraken("GBP"), "ZGBP");
    assert_eq!(map_asset_to_kraken("CAD"), "ZCAD");
    assert_eq!(map_asset_to_kraken("JPY"), "ZJPY");
    assert_eq!(map_asset_to_kraken("sol"), "SOL");
}

#[test]
fn kraken_full_format() {
    assert_eq!(KrakenConnector::to_full_format("XBTUSD"), "XXBTZUSD");
    assert_eq!(KrakenConnector::to_full_format("ETHUSD"), "XETHZUSD");
    assert_eq!(KrakenConnector::to_full_format("LTCEUR"), "XLTCZEUR");
    assert_eq!(KrakenConnector::to_full_format("XXBTZUSD"), "XXBTZUSD");
    assert_eq!(KrakenConnector::to_full_format("SOLUSD"), "SOLZUSD");
    assert_eq!(KrakenConnector::to_full_format("DOTGBP"), "DOTGBP");
    assert_eq!(KrakenConnector::to_full_format("USD"), "ZUSD");
    assert!(!KrakenConnector::new(false).is_testnet());
}

#[test]
fn kucoin_interval_lengths() {
    assert_eq!(interval_to_secs("1m"), 60);
    assert_eq!(interval_to_secs("3m"), 180);
    assert_eq!(interval_to_secs("5m"), 300);
    assert_eq!(interval_to_secs("15m"), 900);
    assert_eq!(interval_to_secs("30m"), 1800);
    assert_eq!(interval_to_secs("1h"), 3600);
    assert_eq!(interval_to_secs("2h"), 7200);
    assert_eq!(interval_to_secs("4h"), 14400);
    assert_eq!(interval_to_secs("6h"), 21600);
    assert_eq!(interval_to_secs("8h"), 28800);
    assert_eq!(interval_to_secs("12h"), 43200);
    assert_eq!(interval_to_secs("1d"), 86400);
    assert_eq!(interval_to_secs("1D"), 86400);
    assert_eq!(interval_to_secs("1w"), 604800);
    assert_eq!(interval_to_secs("1W"), 604800);
    assert_eq!(interval_to_secs("2w"), 60);
}
