//! The settings of the bridge: defaults of the optional ones, and the
//! spelling of the serial line's framing parameters.
use vstd::prelude::*;
use vstd::string::StrSliceExecFns;

use crate::protocol::Timing;

verus! {

/// Serial read timeout when none is given, in milliseconds.
pub fn default_timeout_ms() -> (r: u64)
    ensures
        r == 1000,
{
    1000
}

/// How old a reading may be for `1` when nothing is given, in milliseconds.
pub fn default_cache_duration_ms() -> (r: u64)
    ensures
        r == 1000,
{
    1000
}

/// How old a reading may be for `W` when nothing is given, in milliseconds.
pub fn default_w_duration_ms() -> (r: u64)
    ensures
        r == 500,
{
    500
}

/// How long `W` waits for the scale when nothing is given, in milliseconds.
pub fn default_w_response_timeout_ms() -> (r: u64)
    ensures
        r == 500,
{
    500
}

/// `0.0.0.0:2029`
pub open spec fn default_address() -> Seq<char> {
    seq!['0', '.', '0', '.', '0', '.', '0', ':', '2', '0', '2', '9']
}

/// The TCP address to listen on when none is given.
pub fn default_tcp_address() -> (r: String)
    ensures
        r@ == default_address(),
{
    let a = "0.0.0.0:2029";
    proof {
        reveal_strlit("0.0.0.0:2029");
    }
    let r = a.to_owned();
    assert(r@ =~= default_address());
    r
}

/// Whether the settings file is watched for changes when nothing is given.
pub fn default_recargar_configuracion() -> (r: bool)
    ensures
        r,
{
    true
}

/// The protocol's windows under the default settings.
pub fn default_timing() -> (r: Timing)
    ensures
        r == (Timing { cache_duration_ms: 1000, w_duration_ms: 500, w_response_timeout_ms: 500 }),
{
    Timing {
        cache_duration_ms: default_cache_duration_ms(),
        w_duration_ms: default_w_duration_ms(),
        w_response_timeout_ms: default_w_response_timeout_ms(),
    }
}

/// Bits per character on the serial line.
#[derive(Debug, Clone, Copy, PartialEq, Eq, Structural)]
pub enum DataBitsSetting {
    Five,
    Six,
    Seven,
    Eight,
}

/// Parity on the serial line.
#[derive(Debug, Clone, Copy, PartialEq, Eq, Structural)]
pub enum ParitySetting {
    NoParity,
    Odd,
    Even,
}

/// Stop bits on the serial line.
#[derive(Debug, Clone, Copy, PartialEq, Eq, Structural)]
pub enum StopBitsSetting {
    One,
    Two,
}

/// `5` to `8`.
pub open spec fn data_bits_of(s: Seq<char>) -> Option<DataBitsSetting> {
    if s == seq!['5'] {
        Some(DataBitsSetting::Five)
    } else if s == seq!['6'] {
        Some(DataBitsSetting::Six)
    } else if s == seq!['7'] {
        Some(DataBitsSetting::Seven)
    } else if s == seq!['8'] {
        Some(DataBitsSetting::Eight)
    } else {
        None
    }
}

/// `none`, `odd` or `even`, in lower case.
pub open spec fn parity_of(s: Seq<char>) -> Option<ParitySetting> {
    if s == seq!['n', 'o', 'n', 'e'] {
        Some(ParitySetting::NoParity)
    } else if s == seq!['o', 'd', 'd'] {
        Some(ParitySetting::Odd)
    } else if s == seq!['e', 'v', 'e', 'n'] {
        Some(ParitySetting::Even)
    } else {
        None
    }
}

/// `1` or `2`.
pub open spec fn stop_bits_of(s: Seq<char>) -> Option<StopBitsSetting> {
    if s == seq!['1'] {
        Some(StopBitsSetting::One)
    } else if s == seq!['2'] {
        Some(StopBitsSetting::Two)
    } else {
        None
    }
}

fn spells(s: &str, word: Vec<char>) -> (r: bool)
    ensures
        r == (s@ == word@),
{
    let n = s.unicode_len();
    if n != word.len() {
        return false;
    }
    let mut i: usize = 0;
    while i < n
        invariant
            n == s@.len(),
            n == word@.len(),
            i <= n,
            forall|j: int| 0 <= j < i ==> s@[j] == word@[j],
        decreases n - i,
    {
        if s.get_char(i) != word[i] {
            return false;
        }
        i = i + 1;
    }
    assert(s@ =~= word@);
    true
}

/// The data bits that `s` names.
pub fn parse_data_bits(s: &str) -> (r: Option<DataBitsSetting>)
    ensures
        r == data_bits_of(s@),
{
    let five = vec!['5'];
    assert(five@ =~= seq!['5']);
    let six = vec!['6'];
    assert(six@ =~= seq!['6']);
    let seven = vec!['7'];
    assert(seven@ =~= seq!['7']);
    let eight = vec!['8'];
    assert(eight@ =~= seq!['8']);
    if spells(s, five) {
        Some(DataBitsSetting::Five)
    } else if spells(s, six) {
        Some(DataBitsSetting::Six)
    } else if spells(s, seven) {
        Some(DataBitsSetting::Seven)
    } else if spells(s, eight) {
        Some(DataBitsSetting::Eight)
    } else {
        None
    }
}

/// The stop bits that `s` names.
pub fn parse_stop_bits(s: &str) -> (r: Option<StopBitsSetting>)
    ensures
        r == stop_bits_of(s@),
{
    let one = vec!['1'];
    assert(one@ =~= seq!['1']);
    let two = vec!['2'];
    assert(two@ =~= seq!['2']);
    if spells(s, one) {
        Some(StopBitsSetting::One)
    } else if spells(s, two) {
        Some(StopBitsSetting::Two)
    } else {
        None
    }
}

/// The parity that `lowered`, already in lower case, names.
pub fn parity_from_lowercase(lowered: &str) -> (r: Option<ParitySetting>)
    ensures
        r == parity_of(lowered@),
{
    let none = vec!['n', 'o', 'n', 'e'];
    assert(none@ =~= seq!['n', 'o', 'n', 'e']);
    let odd = vec!['o', 'd', 'd'];
    assert(odd@ =~= seq!['o', 'd', 'd']);
    let even = vec!['e', 'v', 'e', 'n'];
    assert(even@ =~= seq!['e', 'v', 'e', 'n']);
    if spells(lowered, none) {
        Some(ParitySetting::NoParity)
    } else if spells(lowered, odd) {
        Some(ParitySetting::Odd)
    } else if spells(lowered, even) {
        Some(ParitySetting::Even)
    } else {
        None
    }
}

/// What `str::to_lowercase` makes of a string.
pub uninterp spec fn lower_of(s: Seq<char>) -> Seq<char>;

/// Relies on `str::to_lowercase`: the result depends on the chars alone.
#[verifier::external_body]
fn lowercase(s: &str) -> (r: String)
    ensures
        r@ == lower_of(s@),
{
    s.to_lowercase()
}

/// The parity that `s` names, in any case.
pub fn parse_parity(s: &str) -> (r: Option<ParitySetting>)
    ensures
        r == parity_of(lower_of(s@)),
{
    let lowered = lowercase(s);
    parity_from_lowercase(lowered.as_str())
}

} // verus!
