//! Which frames of the scale are worth keeping.
use vstd::prelude::*;

verus! {

/// Carriage return: every frame of the scale ends with it.
pub const TERMINATOR: u8 = 0x0D;

/// The frames that are dropped when they arrive whole: a cancel byte, the
/// echoes of the `?X`, `?P`, `?D` and `?A` queries, and a run of five zeros.
pub open spec fn control_frames() -> Seq<Seq<u8>> {
    seq![
        seq![0x18u8, 0x0Du8],
        seq![0x02u8, 0x3Fu8, 0x58u8, 0x0Du8],
        seq![0x02u8, 0x3Fu8, 0x50u8, 0x0Du8],
        seq![0x02u8, 0x3Fu8, 0x44u8, 0x0Du8],
        seq![0x02u8, 0x3Fu8, 0x41u8, 0x0Du8],
        seq![0x30u8, 0x30u8, 0x30u8, 0x30u8, 0x30u8],
    ]
}

/// `0.005\r`: the tail of a reading of no weight.
pub open spec fn zero_weight_tail() -> Seq<u8> {
    seq![0x30u8, 0x2Eu8, 0x30u8, 0x30u8, 0x35u8, 0x0Du8]
}

/// `Count        Weight/kg`: the header of a tare-table listing.
pub open spec fn tare_table_header() -> Seq<u8> {
    seq![
        0x43u8, 0x6Fu8, 0x75u8, 0x6Eu8, 0x74u8,
        0x20u8, 0x20u8, 0x20u8, 0x20u8, 0x20u8, 0x20u8, 0x20u8, 0x20u8,
        0x57u8, 0x65u8, 0x69u8, 0x67u8, 0x68u8, 0x74u8, 0x2Fu8, 0x6Bu8, 0x67u8,
    ]
}

pub open spec fn ends_with(data: Seq<u8>, tail: Seq<u8>) -> bool {
    tail.len() <= data.len() && data.subrange(data.len() - tail.len(), data.len() as int) == tail
}

/// `pattern` occurs in `data` as a contiguous run.
pub open spec fn contains_run(data: Seq<u8>, pattern: Seq<u8>) -> bool {
    exists|i: int|
        0 <= i && i + pattern.len() <= data.len() && #[trigger] data.subrange(i, i + pattern.len())
            == pattern
}

/// A frame is relevant unless it is a control frame, ends in the zero-weight
/// tail or holds the tare-table header.
pub open spec fn is_relevant(data: Seq<u8>) -> bool {
    &&& !control_frames().contains(data)
    &&& !ends_with(data, zero_weight_tail())
    &&& !contains_run(data, tare_table_header())
}

fn same_bytes(a: &[u8], b: &[u8]) -> (r: bool)
    ensures
        r == (a@ == b@),
{
    if a.len() != b.len() {
        return false;
    }
    let mut i: usize = 0;
    while i < a.len()
        invariant
            a@.len() == b@.len(),
            i <= a@.len(),
            a@.subrange(0, i as int) == b@.subrange(0, i as int),
        decreases a.len() - i,
    {
        if a[i] != b[i] {
            assert(a@[i as int] != b@[i as int]);
            return false;
        }
        assert(a@.subrange(0, i + 1) == a@.subrange(0, i as int).push(a@[i as int]));
        assert(b@.subrange(0, i + 1) == b@.subrange(0, i as int).push(b@[i as int]));
        i = i + 1;
    }
    assert(a@ == a@.subrange(0, a@.len() as int));
    assert(b@ == b@.subrange(0, b@.len() as int));
    true
}

/// Whether `data[start..start + pattern.len()]` equals `pattern`.
fn run_at(data: &[u8], start: usize, pattern: &[u8]) -> (r: bool)
    requires
        start + pattern@.len() <= data@.len(),
    ensures
        r == (data@.subrange(start as int, start + pattern@.len()) == pattern@),
{
    let _len: usize = data.len();
    let mut i: usize = 0;
    while i < pattern.len()
        invariant
            data@.len() <= usize::MAX,
            start + pattern@.len() <= data@.len(),
            i <= pattern@.len(),
            data@.subrange(start as int, start + i) == pattern@.subrange(0, i as int),
        decreases pattern.len() - i,
    {
        if data[start + i] != pattern[i] {
            assert(data@.subrange(start as int, start + pattern@.len())[i as int] != pattern@[i as int]);
            return false;
        }
        assert(data@.subrange(start as int, start + i + 1) == data@.subrange(start as int, start + i).push(data@[start + i]));
        assert(pattern@.subrange(0, i + 1) == pattern@.subrange(0, i as int).push(pattern@[i as int]));
        i = i + 1;
    }
    assert(pattern@ == pattern@.subrange(0, pattern@.len() as int));
    true
}

fn ends_with_bytes(data: &[u8], tail: &[u8]) -> (r: bool)
    ensures
        r == ends_with(data@, tail@),
{
    if tail.len() > data.len() {
        false
    } else {
        run_at(data, data.len() - tail.len(), tail)
    }
}

fn contains_bytes(data: &[u8], pattern: &[u8]) -> (r: bool)
    ensures
        r == contains_run(data@, pattern@),
{
    if pattern.len() > data.len() {
        return false;
    }
    if pattern.len() == 0 {
        assert(data@.subrange(0int, 0int + pattern@.len()) =~= pattern@);
        return true;
    }
    let last: usize = data.len() - pattern.len();
    let mut i: usize = 0;
    while i <= last
        invariant
            last + pattern@.len() == data@.len(),
            pattern@.len() > 0,
            data@.len() <= usize::MAX,
            forall|j: int| 0 <= j < i && j <= last ==> #[trigger] data@.subrange(j, j + pattern@.len()) != pattern@,
        decreases last + 1 - i,
    {
        if run_at(data, i, pattern) {
            return true;
        }
        i = i + 1;
    }
    false
}

/// Whether a frame of the scale is worth keeping.
pub fn is_relevant_data(data: &[u8]) -> (r: bool)
    ensures
        r == is_relevant(data@),
{
    let frames: Vec<Vec<u8>> = vec![
        vec![0x18u8, 0x0Du8],
        vec![0x02u8, 0x3Fu8, 0x58u8, 0x0Du8],
        vec![0x02u8, 0x3Fu8, 0x50u8, 0x0Du8],
        vec![0x02u8, 0x3Fu8, 0x44u8, 0x0Du8],
        vec![0x02u8, 0x3Fu8, 0x41u8, 0x0Du8],
        vec![0x30u8, 0x30u8, 0x30u8, 0x30u8, 0x30u8],
    ];
    let ghost views = frames@.map_values(|f: Vec<u8>| f@);
    assert(views == control_frames());
    let mut k: usize = 0;
    while k < frames.len()
        invariant
            views == frames@.map_values(|f: Vec<u8>| f@),
            views == control_frames(),
            k <= frames@.len(),
            forall|j: int| 0 <= j < k ==> views[j] != data@,
        decreases frames.len() - k,
    {
        if same_bytes(data, frames[k].as_slice()) {
            assert(views[k as int] == data@);
            return false;
        }
        k = k + 1;
    }
    let tail: Vec<u8> = vec![0x30u8, 0x2Eu8, 0x30u8, 0x30u8, 0x35u8, 0x0Du8];
    let header: Vec<u8> = vec![
        0x43u8, 0x6Fu8, 0x75u8, 0x6Eu8, 0x74u8,
        0x20u8, 0x20u8, 0x20u8, 0x20u8, 0x20u8, 0x20u8, 0x20u8, 0x20u8,
        0x57u8, 0x65u8, 0x69u8, 0x67u8, 0x68u8, 0x74u8, 0x2Fu8, 0x6Bu8, 0x67u8,
    ];
    assert(tail@ == zero_weight_tail());
    assert(header@ == tare_table_header());
    !ends_with_bytes(data, tail.as_slice()) && !contains_bytes(data, header.as_slice())
}


/// The filter's rules one by one: the cancel frame is dropped, so is any
/// frame ending in the zero-weight tail or holding the tare-table header, and
/// every other frame is kept.
pub proof fn lemma_relevance_rules(data: Seq<u8>)
    ensures
        !is_relevant(seq![0x18u8, 0x0Du8]),
        ends_with(data, zero_weight_tail()) ==> !is_relevant(data),
        contains_run(data, tare_table_header()) ==> !is_relevant(data),
        !control_frames().contains(data) && !ends_with(data, zero_weight_tail()) && !contains_run(
            data,
            tare_table_header(),
        ) ==> is_relevant(data),
{
    assert(control_frames()[0] == seq![0x18u8, 0x0Du8]);
}

pub open spec fn hex_digit(n: u8) -> char
    recommends
        n < 16,
{
    if n < 10 {
        (n + 0x30u8) as char
    } else {
        (n - 10 + 0x41u8) as char
    }
}

/// How one byte is shown in a log line: printable ASCII as itself, DEL not
/// at all, `\r` and `\n` as escapes, anything else as `\xHH`.
pub open spec fn escape_byte(b: u8) -> Seq<char> {
    if b == 0x7F {
        seq![]
    } else if 0x20 <= b <= 0x7E {
        seq![b as char]
    } else if b == 0x0D {
        seq!['\\', 'r']
    } else if b == 0x0A {
        seq!['\\', 'n']
    } else {
        seq!['\\', 'x', hex_digit(b / 16), hex_digit(b % 16)]
    }
}

pub open spec fn sanitized(data: Seq<u8>) -> Seq<char>
    decreases data.len(),
{
    if data.len() == 0 {
        seq![]
    } else {
        sanitized(data.drop_last()) + escape_byte(data.last())
    }
}

/// Relies on `String`'s `FromIterator<char>`: the string holds the chars in order.
#[verifier::external_body]
fn string_from_chars(chars: Vec<char>) -> (r: String)
    ensures
        r@ == chars@,
{
    chars.into_iter().collect()
}

fn hex_digit_exec(n: u8) -> (c: char)
    requires
        n < 16,
    ensures
        c == hex_digit(n),
{
    if n < 10 {
        (n + 0x30u8) as char
    } else {
        (n - 10 + 0x41u8) as char
    }
}

/// A printable rendering of raw bytes for log lines.
pub fn sanitize_log_data(data: &[u8]) -> (r: String)
    ensures
        r@ == sanitized(data@),
{
    let mut out: Vec<char> = Vec::new();
    let mut i: usize = 0;
    while i < data.len()
        invariant
            i <= data@.len(),
            out@ == sanitized(data@.subrange(0, i as int)),
        decreases data.len() - i,
    {
        let b = data[i];
        if b == 0x7F {
        } else if 0x20 <= b && b <= 0x7E {
            out.push(b as char);
        } else if b == 0x0D {
            out.push('\\');
            out.push('r');
        } else if b == 0x0A {
            out.push('\\');
            out.push('n');
        } else {
            out.push('\\');
            out.push('x');
            out.push(hex_digit_exec(b / 16));
            out.push(hex_digit_exec(b % 16));
        }
        assert(data@.subrange(0, i + 1).drop_last() == data@.subrange(0, i as int));
        i = i + 1;
    }
    assert(data@.subrange(0, data@.len() as int) == data@);
    string_from_chars(out)
}

} // verus!
