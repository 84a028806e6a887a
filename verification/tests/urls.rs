//! Tests of the URL builders.

use steam_rs::http::endpoint_url;
use steam_rs::Steam;

#[test]
fn endpoint_url_concatenates_segments() {
    let u = endpoint_url("https://api.steampowered.com", "ISteamApps", "GetAppList", "2");
    assert_eq!(u, "https://api.steampowered.com/ISteamApps/GetAppList/v2/");
}

#[test]
fn app_list_url_is_fixed() {
    let steam = Steam::new("KEY".to_string());
    assert_eq!(
        steam.get_app_list_url(),
        "https://api.steampowered.com/ISteamApps/GetAppList/v2/"
    );
}

#[test]
fn server_info_url_is_fixed() {
    let steam = Steam::new("KEY".to_string());
    assert_eq!(
        steam.get_server_info_url(),
        "https://api.steampowered.com/ISteamWebAPIUtil/GetServerInfo/v1/"
    );
}

#[test]
fn trade_history_url_carries_every_argument_in_order() {
    let steam = Steam::new("APIKEY".to_string());
    let url = steam.get_trade_history_url(5, 0, 0, false, true, "english", true, false);
    assert_eq!(
        url,
        "https://api.steampowered.com/IEconService/GetTradeHistory/v1/?\
         &key=APIKEY&max_trades=5&start_after_time=0&start_after_trade_id=0\
         &navigating_back=false&get_descriptions=true&language=english\
         &include_failed=true&include_total=false"
    );
}

#[test]
fn trade_history_url_renders_numbers_in_decimal() {
    let steam = Steam::new("K".to_string());
    let url = steam.get_trade_history_url(
        4294967295,
        1700000000,
        18446744073709551615,
        true,
        false,
        "",
        false,
        true,
    );
    assert!(url.contains("&max_trades=4294967295"));
    assert!(url.contains("&start_after_time=1700000000"));
    assert!(url.contains("&start_after_trade_id=18446744073709551615"));
    assert!(url.contains("&language="));
    assert!(url.ends_with("&include_failed=false&include_total=true"));
}
