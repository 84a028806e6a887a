//! Tests of the argument formatter and the value rendering helpers.

use steam_rs::args::gen_args;
use steam_rs::args::optional_argument;
use steam_rs::render::bool_text;
use steam_rs::render::u64_to_dec;

fn pairs(raw: &[(&str, &str)]) -> Vec<(String, String)> {
    raw.iter().map(|(k, v)| (k.to_string(), v.to_string())).collect()
}

#[test]
fn gen_args_empty_list_is_empty() {
    assert_eq!(gen_args(&Vec::new()), "");
}

#[test]
fn gen_args_single_pair() {
    let args = gen_args(&pairs(&[("key", "ABC123")]));
    assert_eq!(args, "&key=ABC123");
}

#[test]
fn gen_args_keeps_order_and_each_argument_once() {
    let args = gen_args(&pairs(&[("key", "K"), ("max_trades", "10"), ("language", "english")]));
    assert_eq!(args, "&key=K&max_trades=10&language=english");
    assert_eq!(args.matches("&key=").count(), 1);
    assert_eq!(args.matches("&max_trades=").count(), 1);
    assert_eq!(args.matches("&language=").count(), 1);
    let key_at = args.find("&key=").unwrap();
    let trades_at = args.find("&max_trades=").unwrap();
    let language_at = args.find("&language=").unwrap();
    assert!(key_at < trades_at && trades_at < language_at);
}

#[test]
fn gen_args_empty_value_keeps_its_name() {
    assert_eq!(gen_args(&pairs(&[("key", ""), ("more", "1")])), "&key=&more=1");
}

#[test]
fn optional_argument_present_is_prefixed_fragment() {
    let s = optional_argument("language", &Some("english".to_string()));
    assert_eq!(s, "&language=english");
}

#[test]
fn optional_argument_absent_is_empty() {
    let s = optional_argument("language", &None);
    assert_eq!(s, "");
    assert!(!s.contains('&'));
    assert!(!s.contains("language="));
}

#[test]
fn u64_to_dec_small_values() {
    assert_eq!(u64_to_dec(0), "0");
    assert_eq!(u64_to_dec(7), "7");
    assert_eq!(u64_to_dec(10), "10");
}

#[test]
fn u64_to_dec_larger_values() {
    assert_eq!(u64_to_dec(500), "500");
    assert_eq!(u64_to_dec(1234567890), "1234567890");
    assert_eq!(u64_to_dec(u64::MAX), "18446744073709551615");
}

#[test]
fn bool_text_renders_display_form() {
    assert_eq!(bool_text(true), "true");
    assert_eq!(bool_text(false), "false");
}
