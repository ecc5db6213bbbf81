//! The one error type of the boundary: a numeric code and a message kept as
//! a C string, whatever the failure came from.

use vstd::prelude::*;
use vstd::slice::slice_subrange;
use vstd::string::StringSliceAdditionalSpecFns;

verus! {

/// The code of a failure that has no code of its own.
pub const FAILED: i32 = 0xFFFF;

/// The bytes of a text as a C string holds them: what stands before the
/// first zero byte.
pub open spec fn c_text(bytes: Seq<u8>) -> Seq<u8> {
    match bytes.index_of_first(0u8) {
        Some(i) => bytes.take(i),
        None => bytes,
    }
}

/// Whether the buffer is a C string: it ends in its only zero byte.
pub open spec fn is_c_string(buffer: Seq<u8>) -> bool {
    &&& buffer.len() > 0
    &&& buffer.last() == 0
    &&& !buffer.drop_last().contains(0u8)
}

/// A text without a zero byte is kept whole.
pub proof fn lemma_c_text_verbatim(bytes: Seq<u8>)
    requires
        !bytes.contains(0u8),
    ensures
        c_text(bytes) == bytes,
{
    bytes.index_of_first_ensures(0u8);
}

/// A C string's text holds no zero byte and is a prefix of what it was made
/// from.
pub proof fn lemma_c_text_is_prefix(bytes: Seq<u8>)
    ensures
        c_text(bytes).len() <= bytes.len(),
        c_text(bytes) == bytes.take(c_text(bytes).len() as int),
        !c_text(bytes).contains(0u8),
        c_text(bytes).len() < bytes.len() ==> bytes[c_text(bytes).len() as int] == 0,
{
    bytes.index_of_first_ensures(0u8);
    let text = c_text(bytes);
    match bytes.index_of_first(0u8) {
        Some(i) => {
            assert forall|j: int| 0 <= j < text.len() implies text[j] != 0 by {
                assert(text[j] == bytes[j]);
            }
        },
        None => {
            assert(bytes.take(bytes.len() as int) == bytes);
        },
    }
}

/// The general failure code of the `taos_error` crate, `Code::FAILED`, as the
/// integer that its `From<Code> for i32` gives. Trusted: that it is `0xFFFF`.
#[verifier::external_body]
fn failed_code() -> (code: i32)
    ensures
        code == FAILED,
{
    i32::from(taos_error::Code::FAILED)
}

/// Copies a text into a fresh C string: the bytes before its first zero byte,
/// then the terminator.
fn c_buffer(bytes: &[u8]) -> (buffer: Vec<u8>)
    ensures
        buffer@ == c_text(bytes@).push(0u8),
        is_c_string(buffer@),
{
    let mut buffer: Vec<u8> = Vec::new();
    let mut i: usize = 0;
    while i < bytes.len() && bytes[i] != 0
        invariant
            i <= bytes.len(),
            buffer@ == bytes@.take(i as int),
            forall|j: int| 0 <= j < i ==> bytes@[j] != 0,
        decreases bytes.len() - i,
    {
        buffer.push(bytes[i]);
        i += 1;
        assert(bytes@.take(i as int) == bytes@.take(i - 1).push(bytes@[i - 1]));
    }
    proof {
        bytes@.index_of_first_ensures(0u8);
        if i < bytes.len() {
            assert(bytes@.contains(0u8));
            let first = bytes@.index_of_first(0u8)->0;
            assert(first == i);
        } else {
            assert(bytes@.take(i as int) == bytes@);
            if bytes@.contains(0u8) {
                let first = bytes@.index_of_first(0u8)->0;
                assert(bytes@[first] == 0);
            }
        }
        assert(buffer@ == c_text(bytes@));
        assert forall|j: int| 0 <= j < buffer@.len() implies buffer@[j] != 0 by {
            assert(buffer@[j] == bytes@[j]);
        }
        assert(buffer@.push(0u8).drop_last() == buffer@);
    }
    buffer.push(0);
    buffer
}

/// A failure as the boundary reports it.
#[derive(Debug)]
pub struct WsError {
    code: i32,
    /// The message as a C string, terminator included.
    message: Vec<u8>,
}

/// A failure as a value.
pub struct WsErrorView {
    pub code: i32,
    /// The message without its terminator.
    pub message: Seq<u8>,
}

impl View for WsError {
    type V = WsErrorView;

    closed spec fn view(&self) -> WsErrorView {
        WsErrorView { code: self.code, message: self.message@.drop_last() }
    }
}

impl WsError {
    #[verifier::type_invariant]
    spec fn well_formed(self) -> bool {
        is_c_string(self.message@)
    }

    /// A failure of the library's own, with the given message: it carries the
    /// general failure code.
    pub fn new(message: &str) -> (e: WsError)
        ensures
            e@ == (WsErrorView { code: FAILED, message: c_text(message.spec_bytes()) }),
    {
        let e = WsError { code: failed_code(), message: c_buffer(message.as_bytes()) };
        assert(e.message@.drop_last() == c_text(message.spec_bytes()));
        e
    }

    /// A failure that a transport reported: its code and its message are kept.
    pub fn from_transport(code: i32, message: &str) -> (e: WsError)
        ensures
            e@ == (WsErrorView { code, message: c_text(message.spec_bytes()) }),
    {
        let e = WsError { code, message: c_buffer(message.as_bytes()) };
        assert(e.message@.drop_last() == c_text(message.spec_bytes()));
        e
    }

    /// A second failure with the same code and message.
    pub fn duplicate(&self) -> (e: WsError)
        ensures
            e@ == self@,
    {
        proof {
            use_type_invariant(self);
        }
        WsError { code: self.code, message: self.message.clone() }
    }

    /// The numeric code.
    pub fn code(&self) -> (code: i32)
        ensures
            code == self@.code,
    {
        self.code
    }

    /// The message as a C string: the message, then the terminating zero.
    pub fn errstr(&self) -> (buffer: &[u8])
        ensures
            buffer@ == self@.message.push(0u8),
            is_c_string(buffer@),
            !self@.message.contains(0u8),
    {
        proof {
            use_type_invariant(self);
            assert(self.message@.drop_last().push(0u8) == self.message@);
        }
        self.message.as_slice()
    }

    /// The message without its terminator.
    pub fn message(&self) -> (text: &[u8])
        ensures
            text@ == self@.message,
    {
        proof {
            use_type_invariant(self);
        }
        slice_subrange(self.message.as_slice(), 0, self.message.len() - 1)
    }
}

} // verus!
