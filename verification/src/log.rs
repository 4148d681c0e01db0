//! Structured logging (`saga:log`): severity codes and the bounded
//! formatting buffer used by `emit`.
use vstd::prelude::*;
use vstd::utf8::*;
use vstd::slice::slice_subrange;
use crate::text::{utf8_str, lemma_encode_utf8_concat, lemma_decode_of_encoding};

verus! {

/// Severity tag passed to the host log sink.
#[derive(Debug, Clone, Copy, PartialEq, Eq, Structural)]
pub enum LogLevel {
    Trace,
    Debug,
    Info,
    Warn,
    Error,
}

impl LogLevel {
    /// The severity's number in the host ABI.
    pub open spec fn spec_code(self) -> u32 {
        match self {
            LogLevel::Trace => 0,
            LogLevel::Debug => 1,
            LogLevel::Info => 2,
            LogLevel::Warn => 3,
            LogLevel::Error => 4,
        }
    }

    /// The numeric value handed to `saga_log` for this severity.
    pub fn code(self) -> (c: u32)
        ensures
            c == self.spec_code(),
            c < 5,
    {
        match self {
            LogLevel::Trace => 0,
            LogLevel::Debug => 1,
            LogLevel::Info => 2,
            LogLevel::Warn => 3,
            LogLevel::Error => 4,
        }
    }
}

/// Capacity, in bytes, of the buffer a formatted message is built in.
pub const LOG_BUFFER_BYTES: usize = 1024;

/// Logged in place of a formatted message that does not fit the buffer.
pub open spec fn truncated_notice() -> Seq<char> {
    "<message exceeded 1KiB log buffer; truncated>"@
}

/// A fixed buffer of [`LOG_BUFFER_BYTES`] bytes that a message is
/// formatted into, piece by piece; it refuses any piece that does not fit.
pub struct LogBuffer {
    bytes: [u8; 1024],
    len: usize,
}

impl View for LogBuffer {
    type V = Seq<char>;

    /// The text written so far.
    closed spec fn view(&self) -> Seq<char> {
        decode_utf8(self.bytes@.take(self.len as int))
    }
}

impl LogBuffer {
    #[verifier::type_invariant]
    spec fn holds_text(self) -> bool {
        &&& self.len <= LOG_BUFFER_BYTES
        &&& valid_utf8(self.bytes@.take(self.len as int))
    }

    /// An empty buffer.
    pub fn new() -> (b: Self)
        ensures
            b@ == Seq::<char>::empty(),
    {
        let b = LogBuffer { bytes: [0u8; 1024], len: 0 };
        assert(b.bytes@.take(0) =~= Seq::<u8>::empty());
        b
    }

    /// Appends `piece` when the text, with it, still fits in
    /// [`LOG_BUFFER_BYTES`] bytes; otherwise leaves the buffer unchanged.
    /// Returns whether the piece was appended.
    pub fn write_str(&mut self, piece: &str) -> (appended: bool)
        ensures
            appended <==> encode_utf8(old(self)@).len() + encode_utf8(piece@).len()
                <= LOG_BUFFER_BYTES,
            appended ==> final(self)@ == old(self)@ + piece@,
            !appended ==> final(self)@ == old(self)@,
    {
        proof {
            use_type_invariant(&*self);
        }
        let ghost prefix = self.bytes@.take(self.len as int);
        proof {
            decode_utf8_encode_utf8(prefix);
        }
        let src: &[u8] = piece.as_bytes();
        if LOG_BUFFER_BYTES - self.len < src.len() {
            return false;
        }
        let mut bytes: [u8; 1024] = self.bytes;
        let len = self.len;
        let mut i: usize = 0;
        while i < src.len()
            invariant
                i <= src.len(),
                len + src.len() <= LOG_BUFFER_BYTES,
                src@ == encode_utf8(piece@),
                bytes@.len() == LOG_BUFFER_BYTES,
                bytes@.take(len as int) == prefix,
                bytes@.subrange(len as int, len + i) == src@.take(i as int),
            decreases src.len() - i,
        {
            bytes[len + i] = src[i];
            proof {
                assert(bytes@.take(len as int) =~= prefix);
                assert(bytes@.subrange(len as int, len + i + 1) =~= src@.take(i + 1));
            }
            i += 1;
        }
        let new_len = len + src.len();
        proof {
            assert(bytes@.take(new_len as int) =~= prefix + src@) by {
                assert(bytes@.subrange(len as int, new_len as int) =~= src@);
            }
            lemma_encode_utf8_concat(decode_utf8(prefix), piece@);
            lemma_decode_of_encoding(bytes@.take(new_len as int), decode_utf8(prefix) + piece@);
        }
        *self = LogBuffer { bytes, len: new_len };
        true
    }

    /// The bytes written so far, as a string slice.
    fn text(&self) -> (t: &str)
        ensures
            t@ == self@,
            encode_utf8(t@).len() <= LOG_BUFFER_BYTES,
    {
        proof {
            use_type_invariant(self);
            decode_utf8_encode_utf8(self.bytes@.take(self.len as int));
        }
        let written: &[u8] = slice_subrange(self.bytes.as_slice(), 0, self.len);
        proof {
            assert(written@ =~= self.bytes@.take(self.len as int));
        }
        match utf8_str(written) {
            Some(t) => {
                proof {
                    lemma_decode_of_encoding(encode_utf8(t@), t@);
                }
                t
            },
            None => "<log message contained invalid UTF-8>",
        }
    }
}

/// The text `emit` hands to the host for a message formatted into `text`;
/// `formatted` tells whether the formatter finished without an error,
/// which includes every piece fitting the buffer.
pub open spec fn emitted_text(text: Seq<char>, formatted: bool) -> Seq<char> {
    if formatted {
        text
    } else {
        truncated_notice()
    }
}

/// When formatting succeeded the host is handed exactly the text written,
/// whatever it holds; otherwise it is handed the truncation notice.
pub proof fn lemma_emitted_text(text: Seq<char>, formatted: bool)
    ensures
        formatted ==> emitted_text(text, formatted) == text,
        !formatted ==> emitted_text(text, formatted)
            == "<message exceeded 1KiB log buffer; truncated>"@,
{
}

/// Severities map to the host ABI numbers 0 to 4, in order, each to its
/// own number.
pub proof fn lemma_level_codes(a: LogLevel, b: LogLevel)
    ensures
        LogLevel::Trace.spec_code() == 0,
        LogLevel::Debug.spec_code() == 1,
        LogLevel::Info.spec_code() == 2,
        LogLevel::Warn.spec_code() == 3,
        LogLevel::Error.spec_code() == 4,
        a.spec_code() == b.spec_code() ==> a == b,
{
}

/// The message that `emit` logs for a message formatted into `buffer`;
/// `formatted` tells whether the formatter finished without an error (a
/// piece that did not fit the buffer is such an error). Returns the
/// severity code and the message text to hand to `saga_log`: the formatted
/// text, or a fixed notice when formatting stopped.
pub fn emit<'a>(level: LogLevel, buffer: &'a LogBuffer, formatted: bool) -> (call: (u32, &'a str))
    ensures
        call.0 == level.spec_code(),
        call.1@ == emitted_text(buffer@, formatted),
        formatted ==> call.1@ == buffer@,
        !formatted ==> call.1@ == "<message exceeded 1KiB log buffer; truncated>"@,
        formatted ==> encode_utf8(call.1@).len() <= LOG_BUFFER_BYTES,
{
    if !formatted {
        return (level.code(), "<message exceeded 1KiB log buffer; truncated>");
    }
    (level.code(), buffer.text())
}

} // verus!
