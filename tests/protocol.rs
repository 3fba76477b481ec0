use bascula_bridge::bridge::{ReadEvent, ReadOutcome, SerialBridge};
use bascula_bridge::cache::Cache;
use bascula_bridge::command::Comando;
use bascula_bridge::protocol::{
    handle_request, manejar_comando_w, max_intentos, respond_to_command, responder_con_cache,
    CacheCheck, ClientAction, Timing, WAction, WPhase,
};

const MS: u64 = 1_000_000;

fn timing() -> Timing {
    Timing { cache_duration_ms: 1000, w_duration_ms: 500, w_response_timeout_ms: 500 }
}

#[test]
fn empty_cache_answers_no_data() {
    let c = Cache::new();
    assert_eq!(
        handle_request(b"1\n", &c, 10 * MS, &timing()),
        ClientAction::Reply(b"NO DATA\n".to_vec())
    );
}

#[test]
fn device_reading_is_served_within_cache_duration() {
    let mut c = Cache::new();
    let mut bridge = SerialBridge::new();
    let out = bridge.on_read(ReadEvent::Bytes(b"12.34 kg\r".to_vec()), &mut c, 100 * MS);
    assert_eq!(out, ReadOutcome::Stored);
    assert_eq!(
        handle_request(b"1\n", &c, 600 * MS, &timing()),
        ClientAction::Reply(b"12.34 kg\r".to_vec())
    );
    assert_eq!(
        handle_request(b"1\n", &c, 1101 * MS, &timing()),
        ClientAction::Reply(b"NO DATA\n".to_vec())
    );
}

#[test]
fn stale_cache_w_gets_new_reading() {
    let t = timing();
    let mut c = Cache::new();
    c.set(b"1.00 kg\r".to_vec(), 0);
    let now = 2000 * MS;
    assert_eq!(handle_request(b"W\n", &c, now, &t), ClientAction::FetchFresh);
    let a = manejar_comando_w(WPhase::TryCacheFirst, &c, now, &t);
    assert_eq!(a, WAction::Enqueue { command: b"W".to_vec(), next: WPhase::Requested });
    let start = now + MS;
    let a = manejar_comando_w(WPhase::Requested, &c, start, &t);
    let next = WPhase::AwaitFresh { inicio: start, intento: 1, max_intentos: 10 };
    assert_eq!(a, WAction::Wait { millis: 50, next });
    let mut bridge = SerialBridge::new();
    bridge.on_read(ReadEvent::Bytes(b"2.50 kg\r".to_vec()), &mut c, start + 40 * MS);
    let a = manejar_comando_w(next, &c, start + 50 * MS, &t);
    assert_eq!(a, WAction::Reply(b"2.50 kg\r".to_vec()));
}

#[test]
fn stale_cache_w_times_out_without_device() {
    let t = timing();
    let mut c = Cache::new();
    c.set(b"1.00 kg\r".to_vec(), 0);
    let mut phase = WPhase::TryCacheFirst;
    let mut now = 2000 * MS;
    let mut waits = 0;
    let reply = loop {
        match manejar_comando_w(phase, &c, now, &t) {
            WAction::Reply(b) => break b,
            WAction::Enqueue { command, next } => {
                assert_eq!(command, b"W".to_vec());
                phase = next;
            }
            WAction::Wait { millis, next } => {
                waits += 1;
                now += millis * MS;
                phase = next;
            }
        }
    };
    assert_eq!(reply, b"W_TIMEOUT\n".to_vec());
    assert_eq!(waits, 10);
}

#[test]
fn fresh_enough_cache_answers_w_at_once() {
    let mut c = Cache::new();
    c.set(b"3.00 kg\r".to_vec(), 100 * MS);
    let a = manejar_comando_w(WPhase::TryCacheFirst, &c, 600 * MS, &timing());
    assert_eq!(a, WAction::Reply(b"3.00 kg\r".to_vec()));
}

#[test]
fn waiting_ignores_reading_older_than_request() {
    let mut c = Cache::new();
    c.set(b"old\r".to_vec(), 999 * MS);
    let a = manejar_comando_w(WPhase::Requested, &c, 1000 * MS, &timing());
    assert!(matches!(a, WAction::Wait { .. }));
}

#[test]
fn poll_limit_is_capped() {
    assert_eq!(max_intentos(0), 0);
    assert_eq!(max_intentos(49), 0);
    assert_eq!(max_intentos(500), 10);
    assert_eq!(max_intentos(1000), 20);
    assert_eq!(max_intentos(60_000), 20);
}

#[test]
fn short_timeout_answers_timeout_at_once() {
    let t = Timing { cache_duration_ms: 1000, w_duration_ms: 500, w_response_timeout_ms: 30 };
    let c = Cache::new();
    let a = manejar_comando_w(WPhase::Requested, &c, 5 * MS, &t);
    assert_eq!(a, WAction::Reply(b"W_TIMEOUT\n".to_vec()));
}

#[test]
fn unknown_command_is_rejected() {
    let c = Cache::new();
    assert_eq!(
        handle_request(b"hola\n", &c, 0, &timing()),
        ClientAction::Reply(b"Comando invalido\n".to_vec())
    );
    assert_eq!(
        respond_to_command(None, &c, 0, &timing()),
        ClientAction::Reply(b"Comando invalido\n".to_vec())
    );
}

#[test]
fn request_is_trimmed_before_parsing() {
    let c = Cache::new();
    assert_eq!(handle_request(b"  WW \r\n", &c, 0, &timing()), ClientAction::FetchFresh);
    assert_eq!(
        handle_request(b"\t1\r\n", &c, 0, &timing()),
        ClientAction::Reply(b"NO DATA\n".to_vec())
    );
}

#[test]
fn invalid_utf8_is_decoded_lossily() {
    let c = Cache::new();
    assert_eq!(
        handle_request(&[0x31, 0xFF], &c, 0, &timing()),
        ClientAction::Reply(b"Comando invalido\n".to_vec())
    );
}

#[test]
fn respond_to_fetch_cached_and_fetch_fresh() {
    let mut c = Cache::new();
    c.set(b"9 kg\r".to_vec(), 0);
    assert_eq!(
        respond_to_command(Some(Comando::Uno), &c, 1000 * MS, &timing()),
        ClientAction::Reply(b"9 kg\r".to_vec())
    );
    assert_eq!(respond_to_command(Some(Comando::W), &c, 0, &timing()), ClientAction::FetchFresh);
}

#[test]
fn responder_con_cache_checks() {
    let mut c = Cache::new();
    c.set(b"P".to_vec(), 10 * MS);
    assert_eq!(responder_con_cache(&c, CacheCheck::ValidoDesdePasado(5), 15 * MS, b"none"), b"P".to_vec());
    assert_eq!(responder_con_cache(&c, CacheCheck::ValidoDesdePasado(4), 15 * MS, b"none"), b"none".to_vec());
    assert_eq!(responder_con_cache(&c, CacheCheck::PosteriorA(10 * MS, 0), 0, b"none"), b"P".to_vec());
    assert_eq!(responder_con_cache(&c, CacheCheck::PosteriorA(11 * MS, 100), 0, b"none"), b"none".to_vec());
}

#[test]
fn bridge_read_events() {
    let mut c = Cache::new();
    let mut b = SerialBridge::new();
    assert_eq!(b.on_read(ReadEvent::TimedOut, &mut c, 1), ReadOutcome::Idle);
    assert_eq!(b.on_read(ReadEvent::Failed, &mut c, 1), ReadOutcome::Failed);
    assert_eq!(b.on_read(ReadEvent::Bytes(Vec::new()), &mut c, 1), ReadOutcome::Idle);
    assert_eq!(b.on_read(ReadEvent::Bytes(vec![0x18, 0x0D]), &mut c, 2), ReadOutcome::Pending);
    assert!(c.get_raw().is_none());
    assert_eq!(b.pending_len(), 0);
    assert_eq!(b.on_read(ReadEvent::Bytes(b"4.2".to_vec()), &mut c, 3), ReadOutcome::Pending);
    assert_eq!(b.pending_len(), 3);
    assert_eq!(b.on_read(ReadEvent::Bytes(b" kg\r".to_vec()), &mut c, 4), ReadOutcome::Stored);
    assert_eq!(c.get_raw(), Some((&b"4.2 kg\r"[..], 4)));
}
