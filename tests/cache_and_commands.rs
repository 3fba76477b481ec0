use bascula_bridge::cache::Cache;
use bascula_bridge::command::Comando;
use bascula_bridge::settings::{
    default_cache_duration_ms, default_recargar_configuracion, default_tcp_address,
    default_timeout_ms, default_timing, default_w_duration_ms, default_w_response_timeout_ms,
    parse_data_bits, parse_parity, parse_stop_bits, parity_from_lowercase, DataBitsSetting,
    ParitySetting, StopBitsSetting,
};

const MS: u64 = 1_000_000;

#[test]
fn set_then_get_within_any_window() {
    let mut c = Cache::new();
    c.set(b"X".to_vec(), 5 * MS);
    assert_eq!(c.get_if_recorded_within(0, 5 * MS), Some(b"X".to_vec()));
    assert_eq!(c.get_if_recorded_within(1000, 5 * MS), Some(b"X".to_vec()));
}

#[test]
fn reading_expires_after_window() {
    let mut c = Cache::new();
    c.set(b"X".to_vec(), 5 * MS);
    assert_eq!(c.get_if_recorded_within(10, 15 * MS), Some(b"X".to_vec()));
    assert_eq!(c.get_if_recorded_within(10, 15 * MS + 1), None);
}

#[test]
fn empty_cache_has_nothing() {
    let c = Cache::default();
    assert_eq!(c.get_if_recorded_within(u64::MAX, 0), None);
    assert_eq!(c.get_if_recorded_between(0, u64::MAX), None);
    assert!(c.get_raw().is_none());
}

#[test]
fn get_between_is_a_closed_interval() {
    let mut c = Cache::new();
    c.set(b"R".to_vec(), 100 * MS);
    assert_eq!(c.get_if_recorded_between(100 * MS, 0), Some(b"R".to_vec()));
    assert_eq!(c.get_if_recorded_between(50 * MS, 50), Some(b"R".to_vec()));
    assert_eq!(c.get_if_recorded_between(50 * MS, 49), None);
    assert_eq!(c.get_if_recorded_between(100 * MS + 1, 500), None);
}

#[test]
fn set_replaces_previous_reading() {
    let mut c = Cache::new();
    c.set(b"old".to_vec(), 1);
    c.set(b"new".to_vec(), 2);
    assert_eq!(c.get_raw(), Some((&b"new"[..], 2)));
}

#[test]
fn concurrent_style_reads_agree() {
    let mut c = Cache::new();
    c.set(b"12.34 kg\r".to_vec(), 7 * MS);
    let a = c.get_if_recorded_within(1000, 8 * MS);
    let b = c.get_if_recorded_within(1000, 8 * MS);
    assert_eq!(a, b);
    assert_eq!(a, Some(b"12.34 kg\r".to_vec()));
}

#[test]
fn parse_fetch_cached() {
    assert_eq!(Comando::parse("1"), Some(Comando::Uno));
    assert_eq!(Comando::parse("11"), Some(Comando::Uno));
    assert_eq!(Comando::parse("1   "), Some(Comando::Uno));
    assert_eq!(Comando::parse("1\t\n"), Some(Comando::Uno));
}

#[test]
fn parse_fetch_fresh() {
    assert_eq!(Comando::parse("W"), Some(Comando::W));
    assert_eq!(Comando::parse("WWW"), Some(Comando::W));
    assert_eq!(Comando::parse("W \u{3000}"), Some(Comando::W));
}

#[test]
fn parse_rejects_others() {
    assert_eq!(Comando::parse("2"), None);
    assert_eq!(Comando::parse(""), None);
    assert_eq!(Comando::parse("w"), None);
    assert_eq!(Comando::parse(" 1"), None);
    assert_eq!(Comando::parse("1W"), None);
    assert_eq!(Comando::parse("1 1"), None);
}

#[test]
fn defaults() {
    assert_eq!(default_timeout_ms(), 1000);
    assert_eq!(default_cache_duration_ms(), 1000);
    assert_eq!(default_w_duration_ms(), 500);
    assert_eq!(default_w_response_timeout_ms(), 500);
    assert_eq!(default_tcp_address(), "0.0.0.0:2029");
    assert!(default_recargar_configuracion());
    let t = default_timing();
    assert_eq!(t.cache_duration_ms, 1000);
    assert_eq!(t.w_duration_ms, 500);
    assert_eq!(t.w_response_timeout_ms, 500);
}

#[test]
fn serial_line_settings() {
    assert_eq!(parse_data_bits("5"), Some(DataBitsSetting::Five));
    assert_eq!(parse_data_bits("8"), Some(DataBitsSetting::Eight));
    assert_eq!(parse_data_bits("9"), None);
    assert_eq!(parse_stop_bits("1"), Some(StopBitsSetting::One));
    assert_eq!(parse_stop_bits("2"), Some(StopBitsSetting::Two));
    assert_eq!(parse_stop_bits("1.5"), None);
    assert_eq!(parity_from_lowercase("odd"), Some(ParitySetting::Odd));
    assert_eq!(parity_from_lowercase("ODD"), None);
}

#[test]
fn parity_ignores_case() {
    assert_eq!(parse_parity("NONE"), Some(ParitySetting::NoParity));
    assert_eq!(parse_parity("Even"), Some(ParitySetting::Even));
    assert_eq!(parse_parity("odd"), Some(ParitySetting::Odd));
    assert_eq!(parse_parity("mark"), None);
}
