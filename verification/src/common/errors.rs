//! Error codes that a probe reports through its side-channel map.

use vstd::prelude::*;

verus! {

/// Errors that a probe can report. A probe writes the code, the capture
/// engine reads it back with [`SignalError::from_u32`].
#[derive(Clone, Copy, Debug, PartialEq, Eq, Structural)]
pub enum SignalError {
    /// The consumer was too slow: one or more frames were lost.
    Truncated,
    /// Two distinct flows met in one hash bucket; the frame was discarded.
    HashCollision,
    /// The packet-rate delta saturated.
    PpsOverflow,
}

/// The code that stands for `e`.
pub open spec fn error_code(e: SignalError) -> u32 {
    match e {
        SignalError::Truncated => 1,
        SignalError::HashCollision => 2,
        SignalError::PpsOverflow => 3,
    }
}

impl SignalError {
    /// The error with code `v`; `None` for a code that no error has, so that
    /// a newer probe cannot upset an older reader.
    pub fn from_u32(v: u32) -> (e: Option<SignalError>)
        ensures
            match e {
                Some(e) => error_code(e) == v,
                None => forall|any: SignalError| error_code(any) != v,
            },
    {
        match v {
            1 => Some(SignalError::Truncated),
            2 => Some(SignalError::HashCollision),
            3 => Some(SignalError::PpsOverflow),
            _ => None,
        }
    }

    /// The error's code.
    pub fn as_u32(self) -> (v: u32)
        ensures
            v == error_code(self),
    {
        match self {
            SignalError::Truncated => 1,
            SignalError::HashCollision => 2,
            SignalError::PpsOverflow => 3,
        }
    }

    /// The error's diagnostic text.
    pub fn message(&self) -> (text: &'static str)
        ensures
            text@ == match *self {
                SignalError::Truncated =>
                    "SignalError::Truncated(ring buffer overrun; frames dropped)"@,
                SignalError::HashCollision =>
                    "SignalError::HashCollision(5-tuple hash bucket collision; frame discarded)"@,
                SignalError::PpsOverflow =>
                    "SignalError::PpsOverflow(pps_delta saturated u32::MAX)"@,
            },
    {
        match self {
            SignalError::Truncated => "SignalError::Truncated(ring buffer overrun; frames dropped)",
            SignalError::HashCollision =>
                "SignalError::HashCollision(5-tuple hash bucket collision; frame discarded)",
            SignalError::PpsOverflow => "SignalError::PpsOverflow(pps_delta saturated u32::MAX)",
        }
    }
}

/// No two errors share a code, so the code that a probe writes names its
/// error to every reader.
pub proof fn error_codes_are_distinct(a: SignalError, b: SignalError)
    requires
        error_code(a) == error_code(b),
    ensures
        a == b,
{
}

/// The codes that a probe writes, and the errors that they stand for: reading
/// a written code gives back the error, and every other number is no error.
pub proof fn codes_read_back(
    e: SignalError,
    code: u32,
    read: Option<SignalError>,
    any: u32,
    of_any: Option<SignalError>,
)
    requires
        call_ensures(SignalError::as_u32, (e,), code),
        call_ensures(SignalError::from_u32, (code,), read),
        call_ensures(SignalError::from_u32, (any,), of_any),
    ensures
        read == Some(e),
        e is Truncated <==> code == 1,
        e is HashCollision <==> code == 2,
        e is PpsOverflow <==> code == 3,
        of_any is None <==> any == 0 || any > 3,
{
    error_codes_are_distinct(e, read->0);
    assert(error_code(SignalError::Truncated) == 1);
    assert(error_code(SignalError::HashCollision) == 2);
    assert(error_code(SignalError::PpsOverflow) == 3);
}

/// An error's text is its own: no two errors share one.
pub proof fn texts_tell_errors_apart(
    a: SignalError,
    b: SignalError,
    of_a: &'static str,
    of_b: &'static str,
)
    requires
        call_ensures(SignalError::message, (&a,), of_a),
        call_ensures(SignalError::message, (&b,), of_b),
    ensures
        of_a@ == of_b@ <==> a == b,
{
    reveal_strlit("SignalError::Truncated(ring buffer overrun; frames dropped)");
    reveal_strlit("SignalError::HashCollision(5-tuple hash bucket collision; frame discarded)");
    reveal_strlit("SignalError::PpsOverflow(pps_delta saturated u32::MAX)");
    assert("SignalError::Truncated(ring buffer overrun; frames dropped)"@[13] == 'T');
    assert("SignalError::HashCollision(5-tuple hash bucket collision; frame discarded)"@[13]
        == 'H');
    assert("SignalError::PpsOverflow(pps_delta saturated u32::MAX)"@[13] == 'P');
}

} // verus!
