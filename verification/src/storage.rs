//! Save-file storage (`saga:storage`): interpretation of the host's status
//! codes and the growing buffer that host-written payloads are fetched
//! into.
use vstd::prelude::*;
use vstd::utf8::*;
use crate::text::{utf8_str, decimal, signed_decimal, push_decimal, push_signed_decimal};

verus! {

/// Errors returned by the storage API. Wraps the host's negative `i32`
/// return codes so callers can match on a single enum.
#[derive(Debug, Clone, PartialEq, Eq, Structural)]
pub enum StorageError {
    /// The host reported a negative status code.
    BadStatus(i32),
    /// The output buffer was too small for the host's payload: the host
    /// reported `requested` bytes into a buffer of `capacity` bytes.
    BufferTooSmall { requested: usize, capacity: usize },
    /// The host returned bytes that were not valid UTF-8 where text was
    /// expected.
    InvalidUtf8,
}

/// Result of a storage operation.
pub type StorageResult<T> = Result<T, StorageError>;

/// Implementation-defined host return code that is treated as "the output
/// buffer was too small, try again with more capacity".
///
/// Heuristic only: the Saga specification leaves negative host return codes
/// engine-defined, so this is a best-effort guess at one common engine
/// convention. A host that reports the condition with another code does
/// not advance the growth ladder, and the call surfaces as
/// [`StorageError::BadStatus`].
pub const HOST_BUF_TOO_SMALL_HEURISTIC_CODE: i32 = -2;

/// Hard upper bound of the growth ladder. Once the buffer has this size it
/// no longer grows and the host's code surfaces as
/// [`StorageError::BadStatus`].
pub const MAX_GROW_BYTES: usize = 65536;

/// Size of the buffer the first request of a fetch writes into.
pub const INITIAL_FETCH_BYTES: usize = 1024;

impl StorageError {
    /// The human-readable description of the error.
    pub open spec fn spec_message(self) -> Seq<char> {
        match self {
            StorageError::BadStatus(code) => "storage host reported status "@ + signed_decimal(
                code as int,
            ),
            StorageError::BufferTooSmall { requested, capacity } => "storage buffer too small: host needed "@
                + decimal(requested as nat) + " bytes, got "@ + decimal(capacity as nat),
            StorageError::InvalidUtf8 => "storage host returned non-UTF-8 metadata"@,
        }
    }

    /// The human-readable description of the error.
    pub fn message(&self) -> (m: String)
        ensures
            m@ == self.spec_message(),
            self matches StorageError::BadStatus(c) ==> m@ == "storage host reported status "@
                + signed_decimal(c as int),
            self matches StorageError::BufferTooSmall { requested, capacity } ==> m@
                == "storage buffer too small: host needed "@ + decimal(requested as nat)
                + " bytes, got "@ + decimal(capacity as nat),
            self is InvalidUtf8 ==> m@ == "storage host returned non-UTF-8 metadata"@,
    {
        match self {
            StorageError::BadStatus(code) => {
                let mut m = "storage host reported status ".to_owned();
                push_signed_decimal(&mut m, *code as i64);
                m
            },
            StorageError::BufferTooSmall { requested, capacity } => {
                let mut m = "storage buffer too small: host needed ".to_owned();
                push_decimal(&mut m, *requested as u64);
                m.append(" bytes, got ");
                push_decimal(&mut m, *capacity as u64);
                m
            },
            StorageError::InvalidUtf8 => "storage host returned non-UTF-8 metadata".to_owned(),
        }
    }
}

/// Maps a host status code to a result: a negative code is an error, any
/// other value is the count it reports.
pub fn check(code: i32) -> (r: StorageResult<usize>)
    ensures
        code < 0 ==> r == Err::<usize, StorageError>(StorageError::BadStatus(code)),
        code >= 0 ==> r == Ok::<usize, StorageError>(code as usize),
{
    if code < 0 {
        return Err(StorageError::BadStatus(code));
    }
    Ok(code as usize)
}

/// Views host-written bytes as text.
pub fn as_str(buf: &[u8]) -> (r: StorageResult<&str>)
    ensures
        r is Ok <==> valid_utf8(buf@),
        r matches Ok(s) ==> s@ == decode_utf8(buf@),
        r matches Err(e) ==> e == StorageError::InvalidUtf8,
{
    match utf8_str(buf) {
        Some(s) => {
            proof {
                encode_utf8_decode_utf8(s@);
            }
            Ok(s)
        },
        None => Err(StorageError::InvalidUtf8),
    }
}

/// The outcome of one host request of a fetch.
pub enum Fetch<T> {
    /// The host asked for more room: repeat the request with this, larger,
    /// buffer.
    Retry(Vec<u8>),
    /// The fetch is over.
    Done(StorageResult<T>),
}

/// The buffer grows when the host reports it too small and it is still
/// below the ladder's bound.
pub open spec fn grows(len: nat, code: i32) -> bool {
    code == HOST_BUF_TOO_SMALL_HEURISTIC_CODE && len < MAX_GROW_BYTES
}

/// The buffer grows only when the host answers with the too-small code
/// `-2` and the buffer is below 64 KiB; every other negative answer ends
/// the fetch.
pub proof fn lemma_growth_only_on_too_small(len: nat, code: i32)
    ensures
        grows(len, code) <==> (code == -2 && len < 65536),
        code < 0 && code != -2 ==> !grows(len, code),
        len >= 65536 ==> !grows(len, code),
{
}

/// The buffer sizes a fetch goes through: 1 KiB, doubling up to
/// [`MAX_GROW_BYTES`].
pub open spec fn on_ladder(len: nat) -> bool {
    len == 1024 || len == 2048 || len == 4096 || len == 8192 || len == 16384 || len == 32768
        || len == 65536
}

/// Room left below the ladder's bound.
pub open spec fn room_below_bound(len: nat) -> nat {
    if len < MAX_GROW_BYTES {
        (MAX_GROW_BYTES - len) as nat
    } else {
        0
    }
}

/// How many more times a buffer of `len` bytes can grow.
pub open spec fn growth_steps_left(len: nat) -> nat
    decreases room_below_bound(len),
{
    if len == 0 || len >= MAX_GROW_BYTES {
        0
    } else {
        1 + growth_steps_left(2 * len)
    }
}

/// A fetch starts on the ladder, stays on it, and so never holds more than
/// [`MAX_GROW_BYTES`] bytes.
pub proof fn lemma_fetch_buffer_stays_on_ladder(len: nat, n: i32)
    requires
        on_ladder(len),
    ensures
        on_ladder(INITIAL_FETCH_BYTES as nat),
        len <= MAX_GROW_BYTES,
        grows(len, n) ==> on_ladder(2 * len),
{
}

/// Each retry uses up one growth step, and a fetch starts with six: a
/// fetch asks the host at most seven times.
pub proof fn lemma_fetch_retries_bounded(len: nat, n: i32)
    requires
        len > 0,
        grows(len, n),
    ensures
        growth_steps_left(2 * len) + 1 == growth_steps_left(len),
        growth_steps_left(INITIAL_FETCH_BYTES as nat) == 6,
{
    reveal_with_fuel(growth_steps_left, 8);
}

/// The buffer the first request of a fetch writes into: zeroed, of
/// [`INITIAL_FETCH_BYTES`] bytes.
pub fn new_fetch_buffer() -> (buf: Vec<u8>)
    ensures
        buf@ == Seq::new(INITIAL_FETCH_BYTES as nat, |i: int| 0u8),
{
    let buf = vec![0u8; INITIAL_FETCH_BYTES];
    assert(buf@ =~= Seq::new(INITIAL_FETCH_BYTES as nat, |i: int| 0u8));
    buf
}

/// Interprets the host's answer `n` to a request that wrote into `buf`,
/// for a payload of bytes.
///
/// When the host reports the buffer too small and it is below
/// [`MAX_GROW_BYTES`], the buffer doubles, zero-filled, and the request is
/// to be repeated. Any other negative answer is an error. A non-negative
/// answer is the payload's length: the buffer is cut to it, or, when the
/// payload is longer than the buffer, the fetch fails with
/// [`StorageError::BufferTooSmall`].
pub fn fetch_into_vec(buf: Vec<u8>, n: i32) -> (r: Fetch<Vec<u8>>)
    ensures
        r is Retry <==> (n == -2 && buf@.len() < 65536),
        n < 0 && n != -2 ==> (r matches Fetch::Done(Err(e)) && e == StorageError::BadStatus(n)),
        n == -2 && buf@.len() >= 65536 ==> (r matches Fetch::Done(Err(e)) && e
            == StorageError::BadStatus(n)),
        grows(buf@.len(), n) ==> (r matches Fetch::Retry(b) && b@ == buf@ + Seq::new(
            buf@.len(),
            |i: int| 0u8,
        )),
        !grows(buf@.len(), n) && n < 0 ==> (r matches Fetch::Done(Err(e)) && e
            == StorageError::BadStatus(n)),
        0 <= n <= buf@.len() ==> (r matches Fetch::Done(Ok(v)) && v@ == buf@.take(n as int)),
        n >= 0 && n > buf@.len() ==> (r matches Fetch::Done(Err(e)) && e
            == StorageError::BufferTooSmall { requested: n as usize, capacity: buf@.len() as usize }),
{
    let mut buf = buf;
    if n == HOST_BUF_TOO_SMALL_HEURISTIC_CODE && buf.len() < MAX_GROW_BYTES {
        let ghost old_bytes = buf@;
        let len = buf.len();
        buf.resize(len * 2, 0);
        assert(buf@ =~= old_bytes + Seq::new(old_bytes.len(), |i: int| 0u8));
        return Fetch::Retry(buf);
    }
    if n < 0 {
        return Fetch::Done(Err(StorageError::BadStatus(n)));
    }
    let requested = n as usize;
    if requested > buf.len() {
        return Fetch::Done(
            Err(StorageError::BufferTooSmall { requested, capacity: buf.len() }),
        );
    }
    buf.truncate(requested);
    Fetch::Done(Ok(buf))
}

/// Interprets the host's answer `n` to a request that wrote into `buf`,
/// for a payload of text: as [`fetch_into_vec`], and the delivered bytes
/// must be valid UTF-8.
pub fn fetch_into_string(buf: Vec<u8>, n: i32) -> (r: Fetch<String>)
    ensures
        r is Retry <==> (n == -2 && buf@.len() < 65536),
        n < 0 && n != -2 ==> (r matches Fetch::Done(Err(e)) && e == StorageError::BadStatus(n)),
        n == -2 && buf@.len() >= 65536 ==> (r matches Fetch::Done(Err(e)) && e
            == StorageError::BadStatus(n)),
        grows(buf@.len(), n) ==> (r matches Fetch::Retry(b) && b@ == buf@ + Seq::new(
            buf@.len(),
            |i: int| 0u8,
        )),
        !grows(buf@.len(), n) && n < 0 ==> (r matches Fetch::Done(Err(e)) && e
            == StorageError::BadStatus(n)),
        0 <= n <= buf@.len() && valid_utf8(buf@.take(n as int)) ==> (r matches Fetch::Done(Ok(s))
            && s@ == decode_utf8(buf@.take(n as int))),
        0 <= n <= buf@.len() && !valid_utf8(buf@.take(n as int)) ==> (r matches Fetch::Done(
            Err(e),
        ) && e == StorageError::InvalidUtf8),
        n >= 0 && n > buf@.len() ==> (r matches Fetch::Done(Err(e)) && e
            == StorageError::BufferTooSmall { requested: n as usize, capacity: buf@.len() as usize }),
{
    match fetch_into_vec(buf, n) {
        Fetch::Retry(b) => Fetch::Retry(b),
        Fetch::Done(Err(e)) => Fetch::Done(Err(e)),
        Fetch::Done(Ok(bytes)) => match as_str(bytes.as_slice()) {
            Ok(s) => Fetch::Done(Ok(s.to_owned())),
            Err(e) => Fetch::Done(Err(e)),
        },
    }
}

} // verus!
