use vstd::prelude::*;

use crate::error::WootingError;
use crate::keys::FromScanIndex;

verus! {

/// The smallest number of analog values a buffered read may request.
pub const MIN_BATCH_KEYS: u8 = 1;

/// The largest number of analog values a buffered read may request.
pub const MAX_BATCH_KEYS: u8 = 16;

/// Interpret the raw result of a single-key analog read. A raw zero is
/// ambiguous between "not pressed" and "disconnected"; it is resolved by the
/// connectivity state re-queried at read time: zero while disconnected is
/// surfaced as an error, any other combination is a legitimate reading.
pub fn interpret_analog_read(raw: u8, connected: bool) -> (r: Result<u8, WootingError>)
    ensures
        raw == 0 && !connected ==> r == Err::<u8, WootingError>(WootingError::Disconnected),
        !(raw == 0 && !connected) ==> r == Ok::<u8, WootingError>(raw),
{
    if raw == 0 && !connected {
        Err(WootingError::Disconnected)
    } else {
        Ok(raw)
    }
}

/// Validate the number of keys requested for a buffered analog read and
/// return the length in bytes of the read buffer: two bytes per key, a scan
/// index interleaved with an analog value. Requests outside
/// [`MIN_BATCH_KEYS`, `MAX_BATCH_KEYS`] fail, before any buffer is built.
pub fn batch_buffer_length(n: u8) -> (r: Result<usize, WootingError>)
    ensures
        MIN_BATCH_KEYS <= n <= MAX_BATCH_KEYS ==> r == Ok::<usize, WootingError>(
            (2 * n) as usize,
        ),
        !(MIN_BATCH_KEYS <= n <= MAX_BATCH_KEYS) ==> r == Err::<usize, WootingError>(
            WootingError::InvalidBufferSize,
        ),
{
    if n == 0 || n > MAX_BATCH_KEYS {
        Err(WootingError::InvalidBufferSize)
    } else {
        Ok(n as usize * 2)
    }
}

/// The decoding of the first `count` scan-index/value pairs of a read
/// buffer: each pair whose scan index decodes to a key contributes that key
/// with its analog value, in buffer order; pairs with an unassigned scan
/// index are dropped.
pub open spec fn decoded_pairs<K: FromScanIndex>(buffer: Seq<u8>, count: int) -> Seq<(K, u8)>
    decreases count,
{
    if count <= 0 {
        Seq::empty()
    } else {
        let rest = decoded_pairs(buffer, count - 1);
        match K::spec_from_scan_index(buffer[2 * (count - 1)]) {
            Some(key) => rest.push((key, buffer[2 * (count - 1) + 1])),
            None => rest,
        }
    }
}

/// The number of scan-index/value pairs a buffered read yields: the count
/// the native layer reports, capped by what the buffer can hold.
pub open spec fn pairs_to_decode(buffer_len: int, ret: int) -> int {
    if ret <= buffer_len / 2 {
        ret
    } else {
        buffer_len / 2
    }
}

/// Decode the buffer filled by a native buffered analog read, given the
/// native return code `ret`. A return of -1 is the disconnect sentinel;
/// otherwise `ret` counts the valid pairs written, and only that many are
/// decoded. Pairs whose scan index has no mapped key are silently dropped
/// rather than failing the whole call. The native contract promises no
/// return code below -1.
pub fn decode_analog_buffer<K: FromScanIndex>(buffer: &Vec<u8>, ret: i32) -> (r: Result<
    Vec<(K, u8)>,
    WootingError,
>)
    requires
        ret >= -1,
        buffer@.len() % 2 == 0,
    ensures
        ret == -1 ==> r == Err::<Vec<(K, u8)>, WootingError>(WootingError::Disconnected),
        ret >= 0 ==> r is Ok && r->Ok_0@ == decoded_pairs::<K>(
            buffer@,
            pairs_to_decode(buffer@.len() as int, ret as int),
        ),
{
    if ret == -1 {
        return Err(WootingError::Disconnected);
    }
    let length: usize = buffer.len();
    let available: usize = length / 2;
    let reported: usize = ret as usize;
    let pairs: usize = if reported <= available {
        reported
    } else {
        available
    };
    let mut decoded: Vec<(K, u8)> = Vec::new();
    let mut i: usize = 0;
    while i < pairs
        invariant
            i <= pairs,
            length == buffer@.len(),
            2 * pairs <= length,
            decoded@ == decoded_pairs::<K>(buffer@, i as int),
        decreases pairs - i,
    {
        let scan = buffer[2 * i];
        let value = buffer[2 * i + 1];
        match K::from_scan_index(scan) {
            Some(key) => decoded.push((key, value)),
            None => {},
        }
        i = i + 1;
    }
    Ok(decoded)
}

} // verus!
