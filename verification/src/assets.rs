//! Assets (`saga:assets`): typed handles and the interpretation of the
//! host's answers to opening and reading an asset.
//!
//! URIs follow the Saga Asset Protocol: `saga://<mod-id>/<path-to-asset>`.
use vstd::prelude::*;
use crate::text::{decimal, signed_decimal, push_decimal, push_signed_decimal};

verus! {

/// Errors of the asset API.
#[derive(Debug, Clone, PartialEq, Eq, Structural)]
pub enum AssetError {
    /// A non-positive handle (`<= 0`) from `open` indicates failure; the raw
    /// host code is preserved for diagnostics.
    OpenFailed(i32),
    /// Negative byte count from `read`.
    ReadFailed(i32),
    /// Caller buffer length did not match the asset's host-reported size
    /// when using `read_exact`.
    SizeMismatch { expected: usize, actual: usize },
}

/// Result of an asset operation.
pub type AssetResult<T> = Result<T, AssetError>;

impl AssetError {
    /// The error came from opening an asset.
    pub fn is_open_failure(&self) -> (b: bool)
        ensures
            b <==> self is OpenFailed,
    {
        matches!(self, AssetError::OpenFailed(_))
    }

    /// The error came from reading an asset.
    pub fn is_read_failure(&self) -> (b: bool)
        ensures
            b <==> self is ReadFailed,
    {
        matches!(self, AssetError::ReadFailed(_))
    }

    /// The human-readable description of the error.
    pub open spec fn spec_message(self) -> Seq<char> {
        match self {
            AssetError::OpenFailed(code) => "saga_asset_open failed (host code "@ + signed_decimal(
                code as int,
            ) + ")"@,
            AssetError::ReadFailed(code) => "saga_asset_read failed (host code "@ + signed_decimal(
                code as int,
            ) + ")"@,
            AssetError::SizeMismatch { expected, actual } => "asset size mismatch: caller buffer was "@
                + decimal(expected as nat) + " bytes, host-reported asset size was "@ + decimal(
                actual as nat,
            ) + " bytes"@,
        }
    }

    /// The human-readable description of the error.
    pub fn message(&self) -> (m: String)
        ensures
            m@ == self.spec_message(),
            self matches AssetError::OpenFailed(c) ==> m@ == "saga_asset_open failed (host code "@
                + signed_decimal(c as int) + ")"@,
            self matches AssetError::ReadFailed(c) ==> m@ == "saga_asset_read failed (host code "@
                + signed_decimal(c as int) + ")"@,
            self matches AssetError::SizeMismatch { expected, actual } ==> m@
                == "asset size mismatch: caller buffer was "@ + decimal(expected as nat)
                + " bytes, host-reported asset size was "@ + decimal(actual as nat) + " bytes"@,
    {
        match self {
            AssetError::OpenFailed(code) => {
                let mut m = "saga_asset_open failed (host code ".to_owned();
                push_signed_decimal(&mut m, *code as i64);
                m.append(")");
                m
            },
            AssetError::ReadFailed(code) => {
                let mut m = "saga_asset_read failed (host code ".to_owned();
                push_signed_decimal(&mut m, *code as i64);
                m.append(")");
                m
            },
            AssetError::SizeMismatch { expected, actual } => {
                let mut m = "asset size mismatch: caller buffer was ".to_owned();
                push_decimal(&mut m, *expected as u64);
                m.append(" bytes, host-reported asset size was ");
                push_decimal(&mut m, *actual as u64);
                m.append(" bytes");
                m
            },
        }
    }
}

/// An open Saga asset handle: a positive host handle.
///
/// The type is intentionally neither `Clone` nor `Copy`: a handle has a
/// single owner, which closes it.
#[derive(Debug)]
pub struct AssetHandle {
    handle: i32,
}

impl View for AssetHandle {
    type V = i32;

    closed spec fn view(&self) -> i32 {
        self.handle
    }
}

/// What the host's answer to a read means: a negative answer is an error,
/// any other is the number of bytes copied (`0` at end of stream).
pub open spec fn read_result(code: i32) -> AssetResult<usize> {
    if code < 0 {
        Err(AssetError::ReadFailed(code))
    } else {
        Ok(code as usize)
    }
}

/// The outcome of the first step of an exact read: the caller's buffer
/// must have the host-reported size.
pub open spec fn exact_len_result(buf_len: usize, size: usize) -> AssetResult<()> {
    if buf_len != size {
        Err(AssetError::SizeMismatch { expected: buf_len, actual: size })
    } else {
        Ok(())
    }
}

/// The outcome of the second step of an exact read: the host must have
/// delivered all `size` bytes.
pub open spec fn exact_read_result(size: usize, code: i32) -> AssetResult<()> {
    if code < 0 {
        Err(AssetError::ReadFailed(code))
    } else if code as usize != size {
        Err(AssetError::SizeMismatch { expected: size, actual: code as usize })
    } else {
        Ok(())
    }
}

/// The outcome of one host read while reading a whole asset.
pub enum ReadStep {
    /// Not yet full: read again into `buf` from `filled` on.
    Again { buf: Vec<u8>, filled: usize },
    /// The read is over.
    Done(AssetResult<Vec<u8>>),
}

impl AssetHandle {
    #[verifier::type_invariant]
    spec fn positive(self) -> bool {
        self.handle > 0
    }

    /// Constructs a handle from a raw, host-provided handle (the answer of
    /// `saga_asset_open`). A non-positive value is a failure.
    pub fn from_raw(handle: i32) -> (r: AssetResult<Self>)
        ensures
            handle <= 0 ==> r == Err::<AssetHandle, AssetError>(AssetError::OpenFailed(handle)),
            handle > 0 ==> (r matches Ok(h) && h@ == handle),
    {
        if handle <= 0 {
            return Err(AssetError::OpenFailed(handle));
        }
        Ok(AssetHandle { handle })
    }

    /// The raw host handle.
    pub fn raw(&self) -> (h: i32)
        ensures
            h == self@,
            h > 0,
    {
        proof {
            use_type_invariant(self);
        }
        self.handle
    }

    /// Interprets the host's answer to a read of up to `buf.len()` bytes:
    /// the number of bytes copied, or [`AssetError::ReadFailed`] on a
    /// negative answer.
    pub fn read_outcome(code: i32) -> (r: AssetResult<usize>)
        ensures
            r == read_result(code),
            code < 0 ==> r == Err::<usize, AssetError>(AssetError::ReadFailed(code)),
            code >= 0 ==> r == Ok::<usize, AssetError>(code as usize),
    {
        if code < 0 {
            return Err(AssetError::ReadFailed(code));
        }
        Ok(code as usize)
    }

    /// One step of reading a whole asset into `buf`, a buffer of the
    /// host-reported size of which the first `filled` bytes are already
    /// read. `code` is the host's answer to reading into the rest of the
    /// buffer.
    ///
    /// A negative answer is [`AssetError::ReadFailed`]; `0` is the end of
    /// the stream, and the result is the bytes read so far. Otherwise the
    /// host copied `code` more bytes: once the buffer is full the result is
    /// the whole buffer, and before that the read goes on from the new
    /// fill. The host cannot copy past the space it was given, so a count
    /// running past the end of the buffer fills it.
    pub fn read_to_end(buf: Vec<u8>, filled: usize, code: i32) -> (r: ReadStep)
        requires
            filled <= buf.len(),
        ensures
            code < 0 ==> (r matches ReadStep::Done(Err(e)) && e == AssetError::ReadFailed(code)),
            code == 0 ==> (r matches ReadStep::Done(Ok(v)) && v@ == buf@.take(filled as int)),
            code > 0 && filled + code >= buf.len() ==> (r matches ReadStep::Done(Ok(v)) && v@
                == buf@),
            code > 0 && filled + code < buf.len() ==> (r matches ReadStep::Again { buf: b, filled: f }
                && b@ == buf@ && f == filled + code),
    {
        let n = match Self::read_outcome(code) {
            Ok(n) => n,
            Err(e) => return ReadStep::Done(Err(e)),
        };
        let mut buf = buf;
        if n == 0 {
            buf.truncate(filled);
            return ReadStep::Done(Ok(buf));
        }
        if n >= buf.len() - filled {
            return ReadStep::Done(Ok(buf));
        }
        ReadStep::Again { buf, filled: filled + n }
    }

    /// First step of reading exactly a whole asset: the caller's buffer of
    /// `buf_len` bytes must match the host-reported `size`.
    pub fn check_exact_len(buf_len: usize, size: usize) -> (r: AssetResult<()>)
        ensures
            r == exact_len_result(buf_len, size),
            r is Ok <==> buf_len == size,
            buf_len != size ==> r == Err::<(), AssetError>(
                AssetError::SizeMismatch { expected: buf_len, actual: size },
            ),
    {
        if buf_len != size {
            return Err(AssetError::SizeMismatch { expected: buf_len, actual: size });
        }
        Ok(())
    }

    /// Second step of reading exactly a whole asset: `code` is the host's
    /// answer to reading into a buffer of `size` bytes; all bytes must have
    /// been delivered.
    pub fn read_exact(size: usize, code: i32) -> (r: AssetResult<()>)
        ensures
            r == exact_read_result(size, code),
            code < 0 ==> r == Err::<(), AssetError>(AssetError::ReadFailed(code)),
            code >= 0 && code as usize != size ==> r == Err::<(), AssetError>(
                AssetError::SizeMismatch { expected: size, actual: code as usize },
            ),
            code >= 0 && code as usize == size ==> r == Ok::<(), AssetError>(()),
    {
        let n = Self::read_outcome(code)?;
        if n != size {
            return Err(AssetError::SizeMismatch { expected: size, actual: n });
        }
        Ok(())
    }
}

/// An exact read succeeds exactly when the caller's buffer has the
/// host-reported size and the host delivers that many bytes.
pub proof fn lemma_exact_read_all_or_error(buf_len: usize, size: usize, code: i32)
    ensures
        (exact_len_result(buf_len, size) is Ok && exact_read_result(size, code) is Ok) <==> (
        buf_len == size && code >= 0 && code as usize == size),
{
}

/// A read answer is an error exactly when it is negative, and the error
/// carries that answer; any other answer is the number of bytes copied,
/// `0` included.
pub proof fn lemma_read_answer(code: i32)
    ensures
        read_result(code) is Err <==> code < 0,
        code < 0 ==> read_result(code) == Err::<usize, AssetError>(AssetError::ReadFailed(code)),
        code >= 0 ==> read_result(code) == Ok::<usize, AssetError>(code as usize),
        forall|c: i32| read_result(code) == Err::<usize, AssetError>(AssetError::ReadFailed(c))
            ==> c == code && c < 0,
{
}

/// The errors of an exact read: a buffer of the wrong length is a size
/// mismatch naming the buffer's length and the asset's size; a negative
/// host answer, and only that, is a read failure carrying the answer; any
/// other short or long delivery, an answer of `0` included, is a size
/// mismatch naming the asset's size and the count delivered.
pub proof fn lemma_exact_read_errors(buf_len: usize, size: usize, code: i32)
    ensures
        exact_len_result(buf_len, size) is Ok <==> buf_len == size,
        buf_len != size ==> exact_len_result(buf_len, size) == Err::<(), AssetError>(
            AssetError::SizeMismatch { expected: buf_len, actual: size },
        ),
        code < 0 ==> exact_read_result(size, code) == Err::<(), AssetError>(
            AssetError::ReadFailed(code),
        ),
        code >= 0 && code as usize != size ==> exact_read_result(size, code) == Err::<
            (),
            AssetError,
        >(AssetError::SizeMismatch { expected: size, actual: code as usize }),
        code >= 0 && code as usize == size ==> exact_read_result(size, code) == Ok::<
            (),
            AssetError,
        >(()),
        exact_read_result(size, code) is Err && exact_read_result(size, code)->Err_0 is ReadFailed
            ==> code < 0,
{
}

} // verus!
