//! The single slot that holds the latest relevant reading of the scale.
//!
//! Instants are nanoseconds on one monotonic clock, chosen by the caller;
//! windows are milliseconds.
use vstd::prelude::*;

verus! {

pub const NANOS_PER_MILLI: u64 = 1_000_000;

/// A window of `window_ms` milliseconds, in nanoseconds.
pub open spec fn window_nanos(window_ms: u64) -> int {
    window_ms * NANOS_PER_MILLI
}

/// A reading taken at `at` is at most `window_ms` old at `now`.
pub open spec fn recorded_within(at: u64, window_ms: u64, now: u64) -> bool {
    now - at <= window_nanos(window_ms)
}

/// A reading taken at `at` falls in `[start, start + window_ms]`.
pub open spec fn recorded_between(at: u64, start: u64, window_ms: u64) -> bool {
    start <= at <= start + window_nanos(window_ms)
}

/// The payload of `slot` when it was recorded within the window.
pub open spec fn payload_within(slot: Option<(Seq<u8>, u64)>, window_ms: u64, now: u64) -> Option<
    Seq<u8>,
> {
    match slot {
        Some((p, at)) => if recorded_within(at, window_ms, now) {
            Some(p)
        } else {
            None
        },
        None => None,
    }
}

/// The payload of `slot` when it was recorded in `[start, start + window_ms]`.
pub open spec fn payload_between(slot: Option<(Seq<u8>, u64)>, start: u64, window_ms: u64) -> Option<
    Seq<u8>,
> {
    match slot {
        Some((p, at)) => if recorded_between(at, start, window_ms) {
            Some(p)
        } else {
            None
        },
        None => None,
    }
}

/// The latest reading and the instant it was stored; empty at first.
pub struct Cache {
    data: Option<(Vec<u8>, u64)>,
}

impl View for Cache {
    type V = Option<(Seq<u8>, u64)>;

    closed spec fn view(&self) -> Option<(Seq<u8>, u64)> {
        match self.data {
            Some((p, at)) => Some((p@, at)),
            None => None,
        }
    }
}

fn nanos_of(window_ms: u64) -> (r: u128)
    ensures
        r == window_nanos(window_ms),
{
    proof {
        assert(window_ms * 1_000_000int <= 0xFFFF_FFFF_FFFF_FFFFint * 1_000_000int) by (nonlinear_arith)
            requires
                window_ms <= 0xFFFF_FFFF_FFFF_FFFFint,
        ;
    }
    (window_ms as u128) * (NANOS_PER_MILLI as u128)
}

fn elapsed_within(at: u64, window_ms: u64, now: u64) -> (r: bool)
    ensures
        r == recorded_within(at, window_ms, now),
{
    if now <= at {
        true
    } else {
        ((now - at) as u128) <= nanos_of(window_ms)
    }
}

fn instant_between(at: u64, start: u64, window_ms: u64) -> (r: bool)
    ensures
        r == recorded_between(at, start, window_ms),
{
    start <= at && ((at - start) as u128) <= nanos_of(window_ms)
}

impl Cache {
    /// An empty cache.
    pub fn new() -> (r: Cache)
        ensures
            r@ == None::<(Seq<u8>, u64)>,
    {
        Cache { data: None }
    }

    /// Stores `data` as the latest reading, taken at `now`, in place of any
    /// earlier one.
    pub fn set(&mut self, data: Vec<u8>, now: u64)
        ensures
            final(self)@ == Some((data@, now)),
    {
        self.data = Some((data, now));
    }

    /// The latest reading and its instant, as they are.
    pub fn get_raw(&self) -> (r: Option<(&[u8], u64)>)
        ensures
            match (r, self@) {
                (Some((p, at)), Some((q, t))) => p@ == q && at == t,
                (None, None) => true,
                _ => false,
            },
    {
        match &self.data {
            Some((p, at)) => Some((p.as_slice(), *at)),
            None => None,
        }
    }

    /// A copy of the latest reading when it is at most `window_ms` old at `now`.
    pub fn get_if_recorded_within(&self, window_ms: u64, now: u64) -> (r: Option<Vec<u8>>)
        ensures
            match r {
                Some(v) => payload_within(self@, window_ms, now) == Some(v@),
                None => payload_within(self@, window_ms, now) == None::<Seq<u8>>,
            },
    {
        match &self.data {
            Some((p, at)) => if elapsed_within(*at, window_ms, now) {
                Some(p.clone())
            } else {
                None
            },
            None => None,
        }
    }

    /// A copy of the latest reading when it was stored in
    /// `[start, start + window_ms]`.
    pub fn get_if_recorded_between(&self, start: u64, window_ms: u64) -> (r: Option<Vec<u8>>)
        ensures
            match r {
                Some(v) => payload_between(self@, start, window_ms) == Some(v@),
                None => payload_between(self@, start, window_ms) == None::<Seq<u8>>,
            },
    {
        match &self.data {
            Some((p, at)) => if instant_between(*at, start, window_ms) {
                Some(p.clone())
            } else {
                None
            },
            None => None,
        }
    }
}

impl Default for Cache {
    fn default() -> (r: Cache)
        ensures
            r@ == None::<(Seq<u8>, u64)>,
    {
        Cache::new()
    }
}

/// A reading read back at the instant it was stored is returned whole, for
/// any window; once more than the window has passed it is not returned.
pub proof fn lemma_set_then_get_within(payload: Seq<u8>, at: u64, window_ms: u64, now: u64)
    ensures
        payload_within(Some((payload, at)), window_ms, at) == Some(payload),
        now - at > window_nanos(window_ms) ==> payload_within(Some((payload, at)), window_ms, now)
            == None::<Seq<u8>>,
{
}

/// A reading is returned for `[start, start + window_ms]` exactly when the
/// latest store fell in that interval.
pub proof fn lemma_get_between_iff(slot: Option<(Seq<u8>, u64)>, start: u64, window_ms: u64)
    ensures
        payload_between(slot, start, window_ms) is Some <==> match slot {
            Some((_, at)) => start <= at <= start + window_ms * NANOS_PER_MILLI,
            None => false,
        },
{
}

/// Every reader of one state of the cache gets the same answer, and any
/// payload handed out is the whole of the latest one stored.
pub proof fn lemma_reads_see_whole_payload(
    slot: Option<(Seq<u8>, u64)>,
    window_ms: u64,
    now: u64,
    start: u64,
)
    ensures
        match slot {
            Some((p, _)) => {
                &&& payload_within(slot, window_ms, now) is Some ==> payload_within(slot, window_ms, now) == Some(p)
                &&& payload_between(slot, start, window_ms) is Some ==> payload_between(slot, start, window_ms) == Some(p)
            },
            None => {
                &&& payload_within(slot, window_ms, now) is None
                &&& payload_between(slot, start, window_ms) is None
            },
        },
{
}

} // verus!
