//! What the server answers a client, and the steps of the fresh-reading
//! workflow; the caller does the socket I/O, the sleeping and the queueing.
use vstd::prelude::*;

use crate::cache::{payload_between, payload_within, Cache, NANOS_PER_MILLI};
use crate::command::{command_of, is_white_space, Comando};

verus! {

/// Pause between two looks at the cache while a fresh reading is awaited.
pub const POLL_INTERVAL_MS: u64 = 50;

/// Most looks at the cache while a fresh reading is awaited.
pub const MAX_POLLS: u32 = 20;

/// `NO DATA\n`
pub open spec fn no_data_reply() -> Seq<u8> {
    seq![0x4Eu8, 0x4Fu8, 0x20u8, 0x44u8, 0x41u8, 0x54u8, 0x41u8, 0x0Au8]
}

/// `W_TIMEOUT\n`
pub open spec fn timeout_reply() -> Seq<u8> {
    seq![0x57u8, 0x5Fu8, 0x54u8, 0x49u8, 0x4Du8, 0x45u8, 0x4Fu8, 0x55u8, 0x54u8, 0x0Au8]
}

/// `Comando invalido\n`
pub open spec fn rejection_reply() -> Seq<u8> {
    seq![
        0x43u8, 0x6Fu8, 0x6Du8, 0x61u8, 0x6Eu8, 0x64u8, 0x6Fu8, 0x20u8,
        0x69u8, 0x6Eu8, 0x76u8, 0x61u8, 0x6Cu8, 0x69u8, 0x64u8, 0x6Fu8, 0x0Au8,
    ]
}

/// `W`: what the scale is sent to make it report a reading.
pub open spec fn fresh_trigger() -> Seq<u8> {
    seq![0x57u8]
}

pub fn no_data_message() -> (r: Vec<u8>)
    ensures
        r@ == no_data_reply(),
{
    vec![0x4Eu8, 0x4Fu8, 0x20u8, 0x44u8, 0x41u8, 0x54u8, 0x41u8, 0x0Au8]
}

pub fn timeout_message() -> (r: Vec<u8>)
    ensures
        r@ == timeout_reply(),
{
    vec![0x57u8, 0x5Fu8, 0x54u8, 0x49u8, 0x4Du8, 0x45u8, 0x4Fu8, 0x55u8, 0x54u8, 0x0Au8]
}

pub fn rejection_message() -> (r: Vec<u8>)
    ensures
        r@ == rejection_reply(),
{
    vec![
        0x43u8, 0x6Fu8, 0x6Du8, 0x61u8, 0x6Eu8, 0x64u8, 0x6Fu8, 0x20u8,
        0x69u8, 0x6Eu8, 0x76u8, 0x61u8, 0x6Cu8, 0x69u8, 0x64u8, 0x6Fu8, 0x0Au8,
    ]
}

/// The windows the protocol works with, in milliseconds.
#[derive(Debug, Clone, Copy, PartialEq, Eq, Structural)]
pub struct Timing {
    /// How old a reading may be for `1`.
    pub cache_duration_ms: u64,
    /// How old a reading may be for `W` to answer without asking the scale.
    pub w_duration_ms: u64,
    /// How long `W` waits for the scale once it has asked.
    pub w_response_timeout_ms: u64,
}

/// Which readings of the cache are good enough.
#[derive(Debug, Clone, Copy, PartialEq, Eq, Structural)]
pub enum CacheCheck {
    /// At most this many milliseconds old.
    ValidoDesdePasado(u64),
    /// Stored no earlier than the instant, and at most this many milliseconds
    /// after it.
    PosteriorA(u64, u64),
}

/// The payload of `slot` that passes `check` at `now`.
pub open spec fn checked_payload(slot: Option<(Seq<u8>, u64)>, check: CacheCheck, now: u64) -> Option<
    Seq<u8>,
> {
    match check {
        CacheCheck::ValidoDesdePasado(window) => payload_within(slot, window, now),
        CacheCheck::PosteriorA(start, window) => payload_between(slot, start, window),
    }
}

/// The reply to send: the cached payload when it passes `criterio`, else
/// `no_data_msg`.
pub fn responder_con_cache(cache: &Cache, criterio: CacheCheck, now: u64, no_data_msg: &[u8]) -> (r:
    Vec<u8>)
    ensures
        r@ == match checked_payload(cache@, criterio, now) {
            Some(p) => p,
            None => no_data_msg@,
        },
{
    let found = match criterio {
        CacheCheck::ValidoDesdePasado(window) => cache.get_if_recorded_within(window, now),
        CacheCheck::PosteriorA(start, window) => cache.get_if_recorded_between(start, window),
    };
    match found {
        Some(data) => data,
        None => vstd::slice::slice_to_vec(no_data_msg),
    }
}

/// Where a `W` request stands.
#[derive(Debug, Clone, Copy, PartialEq, Eq, Structural)]
pub enum WPhase {
    /// Nothing done yet: a recent enough cached reading answers at once.
    TryCacheFirst,
    /// The trigger has been queued for the scale; waiting starts now.
    Requested,
    /// Waiting since `inicio` for a reading stored after it; `intento` looks
    /// at the cache done out of `max_intentos`.
    AwaitFresh { inicio: u64, intento: u32, max_intentos: u32 },
}

/// What the caller does next for a `W` request.
#[derive(Debug, PartialEq, Eq)]
pub enum WAction {
    /// Send these bytes to the client; the request is done.
    Reply(Vec<u8>),
    /// Queue `command` for the scale, then go on from `next`.
    Enqueue { command: Vec<u8>, next: WPhase },
    /// Sleep `millis` milliseconds, then go on from `next`.
    Wait { millis: u64, next: WPhase },
}

/// A `WAction` with its buffers as sequences.
pub enum WStep {
    Reply(Seq<u8>),
    Enqueue(Seq<u8>, WPhase),
    Wait(u64, WPhase),
}

impl View for WAction {
    type V = WStep;

    open spec fn view(&self) -> WStep {
        match self {
            WAction::Reply(b) => WStep::Reply(b@),
            WAction::Enqueue { command, next } => WStep::Enqueue(command@, *next),
            WAction::Wait { millis, next } => WStep::Wait(*millis, *next),
        }
    }
}

/// How many looks at the cache a wait of `timeout_ms` allows.
pub open spec fn poll_limit(timeout_ms: u64) -> int {
    let n: int = timeout_ms as int / POLL_INTERVAL_MS as int;
    if n < MAX_POLLS {
        n
    } else {
        MAX_POLLS as int
    }
}

/// The counters of a waiting phase are in range.
pub open spec fn phase_ok(phase: WPhase) -> bool {
    match phase {
        WPhase::AwaitFresh { intento, max_intentos, .. } => intento <= max_intentos <= MAX_POLLS,
        _ => true,
    }
}

/// One look at the cache while waiting: the reading if one was stored in the
/// wait's window, the timeout reply once the looks are used up, else a pause.
pub open spec fn poll_step(
    slot: Option<(Seq<u8>, u64)>,
    inicio: u64,
    intento: u32,
    max_intentos: u32,
    timeout_ms: u64,
) -> WStep {
    if intento >= max_intentos {
        WStep::Reply(timeout_reply())
    } else {
        match payload_between(slot, inicio, timeout_ms) {
            Some(p) => WStep::Reply(p),
            None => WStep::Wait(
                POLL_INTERVAL_MS,
                WPhase::AwaitFresh { inicio, intento: (intento + 1) as u32, max_intentos },
            ),
        }
    }
}

/// One step of a `W` request from `phase`, with the cache as it is at `now`.
pub open spec fn w_step(phase: WPhase, slot: Option<(Seq<u8>, u64)>, now: u64, timing: Timing) -> WStep {
    match phase {
        WPhase::TryCacheFirst => match payload_within(slot, timing.w_duration_ms, now) {
            Some(p) => WStep::Reply(p),
            None => WStep::Enqueue(fresh_trigger(), WPhase::Requested),
        },
        WPhase::Requested => poll_step(
            slot,
            now,
            0,
            poll_limit(timing.w_response_timeout_ms) as u32,
            timing.w_response_timeout_ms,
        ),
        WPhase::AwaitFresh { inicio, intento, max_intentos } => poll_step(
            slot,
            inicio,
            intento,
            max_intentos,
            timing.w_response_timeout_ms,
        ),
    }
}

/// How many looks at the cache a wait of `timeout_ms` allows: one per poll
/// interval, at most `MAX_POLLS`.
pub fn max_intentos(timeout_ms: u64) -> (r: u32)
    ensures
        r == poll_limit(timeout_ms),
{
    let n = timeout_ms / POLL_INTERVAL_MS;
    if n < MAX_POLLS as u64 {
        n as u32
    } else {
        MAX_POLLS
    }
}

fn poll_once(cache: &Cache, inicio: u64, intento: u32, max: u32, timeout_ms: u64) -> (r: WAction)
    requires
        intento <= max <= MAX_POLLS,
    ensures
        r@ == poll_step(cache@, inicio, intento, max, timeout_ms),
{
    if intento >= max {
        return WAction::Reply(timeout_message());
    }
    match cache.get_if_recorded_between(inicio, timeout_ms) {
        Some(data) => WAction::Reply(data),
        None => WAction::Wait {
            millis: POLL_INTERVAL_MS,
            next: WPhase::AwaitFresh { inicio, intento: intento + 1, max_intentos: max },
        },
    }
}

/// One step of a `W` request: from `phase`, with the cache as it is at `now`,
/// what to do next. A recent enough reading answers at once; otherwise the
/// trigger is queued, and the cache is then looked at every poll interval for
/// a reading stored after the request, until the timeout reply.
pub fn manejar_comando_w(phase: WPhase, cache: &Cache, now: u64, timing: &Timing) -> (r: WAction)
    requires
        phase_ok(phase),
    ensures
        r@ == w_step(phase, cache@, now, *timing),
        match r@ {
            WStep::Enqueue(_, next) => phase_ok(next),
            WStep::Wait(_, next) => phase_ok(next),
            WStep::Reply(_) => true,
        },
{
    match phase {
        WPhase::TryCacheFirst => match cache.get_if_recorded_within(timing.w_duration_ms, now) {
            Some(data) => WAction::Reply(data),
            None => {
                let command = vec![0x57u8];
                assert(command@ =~= fresh_trigger());
                WAction::Enqueue { command, next: WPhase::Requested }
            },
        },
        WPhase::Requested => {
            let max = max_intentos(timing.w_response_timeout_ms);
            poll_once(cache, now, 0, max, timing.w_response_timeout_ms)
        },
        WPhase::AwaitFresh { inicio, intento, max_intentos } => poll_once(
            cache,
            inicio,
            intento,
            max_intentos,
            timing.w_response_timeout_ms,
        ),
    }
}

/// Once a `W` request has asked the scale, it never answers with a reading
/// stored before the request or after its wait, only with one stored in
/// between or with the timeout reply.
pub proof fn lemma_fresh_reply_not_older(
    phase: WPhase,
    slot: Option<(Seq<u8>, u64)>,
    now: u64,
    timing: Timing,
    reply: Seq<u8>,
)
    requires
        !(phase is TryCacheFirst),
        w_step(phase, slot, now, timing) == WStep::Reply(reply),
    ensures
        reply == timeout_reply() || match slot {
            Some((p, at)) => {
                let start = match phase {
                    WPhase::AwaitFresh { inicio, .. } => inicio,
                    _ => now,
                };
                &&& reply == p
                &&& start <= at <= start + timing.w_response_timeout_ms * NANOS_PER_MILLI
            },
            None => false,
        },
{
}

/// The wait is bounded: every pause moves one look closer to the limit, which
/// is at most `MAX_POLLS`, and a phase with no look left answers.
pub proof fn lemma_wait_is_bounded(
    phase: WPhase,
    slot: Option<(Seq<u8>, u64)>,
    now: u64,
    timing: Timing,
)
    requires
        phase_ok(phase),
    ensures
        match (phase, w_step(phase, slot, now, timing)) {
            (WPhase::AwaitFresh { inicio, intento, max_intentos }, WStep::Wait(ms, next)) => {
                &&& ms == POLL_INTERVAL_MS
                &&& next == WPhase::AwaitFresh { inicio, intento: (intento + 1) as u32, max_intentos }
                &&& intento + 1 <= max_intentos
            },
            (WPhase::AwaitFresh { .. }, WStep::Reply(_)) => true,
            (WPhase::AwaitFresh { .. }, _) => false,
            (WPhase::Requested, WStep::Wait(_, WPhase::AwaitFresh { intento, max_intentos, .. })) =>
                intento == 1 && max_intentos <= MAX_POLLS,
            (WPhase::Requested, WStep::Reply(_)) => true,
            (WPhase::Requested, _) => false,
            (WPhase::TryCacheFirst, WStep::Wait(_, _)) => false,
            (WPhase::TryCacheFirst, _) => true,
        },
{
}

/// While a `W` request waits, a reading stored after the request and within
/// its timeout is what the next look at the cache answers with.
pub proof fn lemma_new_reading_is_served(
    payload: Seq<u8>,
    at: u64,
    inicio: u64,
    intento: u32,
    max_intentos: u32,
    now: u64,
    timing: Timing,
)
    requires
        intento < max_intentos,
        inicio <= at <= inicio + timing.w_response_timeout_ms * NANOS_PER_MILLI,
    ensures
        w_step(
            WPhase::AwaitFresh { inicio, intento, max_intentos },
            Some((payload, at)),
            now,
            timing,
        ) == WStep::Reply(payload),
{
}

/// The reply that a `W` request from `phase` ends with, taking at most `fuel`
/// steps while the cache holds `slot` and the clock reads `now` whenever it
/// is looked at; `None` when it is still going after `fuel` steps.
pub open spec fn run_w(phase: WPhase, slot: Option<(Seq<u8>, u64)>, now: u64, timing: Timing, fuel: nat) -> Option<
    Seq<u8>,
>
    decreases fuel,
{
    if fuel == 0 {
        None
    } else {
        match w_step(phase, slot, now, timing) {
            WStep::Reply(p) => Some(p),
            WStep::Enqueue(_, next) => run_w(next, slot, now, timing, (fuel - 1) as nat),
            WStep::Wait(_, next) => run_w(next, slot, now, timing, (fuel - 1) as nat),
        }
    }
}

proof fn lemma_polls_run_out(
    slot: Option<(Seq<u8>, u64)>,
    now: u64,
    timing: Timing,
    inicio: u64,
    intento: u32,
    max_intentos: u32,
)
    requires
        intento <= max_intentos <= MAX_POLLS,
        payload_between(slot, inicio, timing.w_response_timeout_ms) is None,
    ensures
        run_w(
            WPhase::AwaitFresh { inicio, intento, max_intentos },
            slot,
            now,
            timing,
            (max_intentos - intento + 1) as nat,
        ) == Some(timeout_reply()),
    decreases max_intentos - intento,
{
    if intento < max_intentos {
        lemma_polls_run_out(slot, now, timing, inicio, (intento + 1) as u32, max_intentos);
    }
}

/// A `W` request that finds no recent enough reading, and during whose wait
/// no reading is stored, asks the scale and then ends with the timeout reply
/// within `MAX_POLLS` pauses.
pub proof fn lemma_no_answer_times_out(slot: Option<(Seq<u8>, u64)>, now: u64, timing: Timing)
    requires
        payload_within(slot, timing.w_duration_ms, now) is None,
        payload_between(slot, now, timing.w_response_timeout_ms) is None,
    ensures
        w_step(WPhase::TryCacheFirst, slot, now, timing) == WStep::Enqueue(
            fresh_trigger(),
            WPhase::Requested,
        ),
        run_w(
            WPhase::TryCacheFirst,
            slot,
            now,
            timing,
            (poll_limit(timing.w_response_timeout_ms) + 2) as nat,
        ) == Some(timeout_reply()),
{
    let limit = poll_limit(timing.w_response_timeout_ms) as u32;
    if limit > 0 {
        lemma_polls_run_out(slot, now, timing, now, 1, limit);
        assert(run_w(WPhase::Requested, slot, now, timing, (limit + 1) as nat) == Some(timeout_reply()));
    }
}

/// What the server does with a line from a client.
#[derive(Debug, PartialEq, Eq)]
pub enum ClientAction {
    /// Send these bytes back.
    Reply(Vec<u8>),
    /// Run a `W` request from `WPhase::TryCacheFirst`.
    FetchFresh,
}

/// The reply to a parsed line, or `None` for a `W` request.
pub open spec fn command_reply(
    cmd: Option<Comando>,
    slot: Option<(Seq<u8>, u64)>,
    now: u64,
    timing: Timing,
) -> Option<Seq<u8>> {
    match cmd {
        Some(Comando::Uno) => Some(
            match payload_within(slot, timing.cache_duration_ms, now) {
                Some(p) => p,
                None => no_data_reply(),
            },
        ),
        Some(Comando::W) => None,
        None => Some(rejection_reply()),
    }
}

pub open spec fn action_reply(a: ClientAction) -> Option<Seq<u8>> {
    match a {
        ClientAction::Reply(b) => Some(b@),
        ClientAction::FetchFresh => None,
    }
}

/// What to do with the command `cmd`: `1` answers from the cache or with
/// `NO DATA`, `W` starts the fresh-reading workflow, anything else is rejected.
pub fn respond_to_command(cmd: Option<Comando>, cache: &Cache, now: u64, timing: &Timing) -> (r:
    ClientAction)
    ensures
        action_reply(r) == command_reply(cmd, cache@, now, *timing),
{
    match cmd {
        Some(Comando::Uno) => {
            let no_data = no_data_message();
            ClientAction::Reply(
                responder_con_cache(
                    cache,
                    CacheCheck::ValidoDesdePasado(timing.cache_duration_ms),
                    now,
                    no_data.as_slice(),
                ),
            )
        },
        Some(Comando::W) => ClientAction::FetchFresh,
        None => ClientAction::Reply(rejection_message()),
    }
}

/// What `String::from_utf8_lossy` makes of a byte sequence.
pub uninterp spec fn utf8_lossy(b: Seq<u8>) -> Seq<char>;

/// Relies on `String::from_utf8_lossy`: valid UTF-8, ASCII included, comes
/// back as it is; invalid sequences become U+FFFD.
#[verifier::external_body]
fn lossy_text(b: &[u8]) -> (r: String)
    ensures
        r@ == utf8_lossy(b@),
        (forall|i: int| 0 <= i < b@.len() ==> b@[i] < 0x80) ==> r@ == b@.map_values(
            |x: u8| x as char,
        ),
{
    String::from_utf8_lossy(b).into_owned()
}

pub open spec fn trim_start(s: Seq<char>) -> Seq<char>
    decreases s.len(),
{
    if s.len() > 0 && is_white_space(s[0]) {
        trim_start(s.drop_first())
    } else {
        s
    }
}

pub open spec fn trim_end(s: Seq<char>) -> Seq<char>
    decreases s.len(),
{
    if s.len() > 0 && is_white_space(s.last()) {
        trim_end(s.drop_last())
    } else {
        s
    }
}

/// `s` without leading and trailing white space.
pub open spec fn trimmed(s: Seq<char>) -> Seq<char> {
    trim_end(trim_start(s))
}

/// Relies on `str::trim`: leading and trailing White_Space chars removed.
#[verifier::external_body]
fn trim_text(s: &str) -> (r: &str)
    ensures
        r@ == trimmed(s@),
{
    s.trim()
}

/// What to do with `request`, the bytes of one read from a client: decoded
/// as UTF-8 (lossily), trimmed, parsed and answered as `respond_to_command`
/// does.
pub fn handle_request(request: &[u8], cache: &Cache, now: u64, timing: &Timing) -> (r: ClientAction)
    ensures
        action_reply(r) == command_reply(
            command_of(trimmed(utf8_lossy(request@))),
            cache@,
            now,
            *timing,
        ),
{
    let text = lossy_text(request);
    let line = trim_text(text.as_str());
    let cmd = Comando::parse(line);
    respond_to_command(cmd, cache, now, timing)
}

} // verus!
