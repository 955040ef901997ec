//! The error taxonomy and its word-level codec.
//!
//! A syscall boundary can return only a single unsigned machine word, so a
//! typed `Result` is packed into one ([`Error::mux`]) and unpacked again
//! ([`Error::demux`]): a success value travels as itself, zero-extended, and a
//! failure travels as the negation of its (strictly negative) code, which is a
//! small positive word. The decoder tells the two apart by a range test, not a
//! sign test: a word strictly between `0` and [`ERROR_TABLE_LEN`] is read as
//! an encoded failure, anything else as a success value.
//!
//! This encoding has an inherent hazard: a genuine success value that falls
//! inside the reserved window `1..ERROR_TABLE_LEN` is indistinguishable from
//! an encoded failure and will be decoded as one. Callers must keep success
//! payloads out of that window by construction.

use vstd::prelude::*;

verus! {

/// Number of entries in the description table: slot 0 describes success and
/// slots `1..=19` describe the nineteen failure kinds, indexed by the
/// negation of their code. Words strictly between `0` and this length are
/// reserved for encoded failures.
pub const ERROR_TABLE_LEN: u64 = 20;

/// The system encountered an otherwise unspecified error
/// while performing the operation.
pub const ERR_INTERNAL: i32 = -1;

/// The operation is not implemented, supported, or enabled.
pub const ERR_NOT_SUPPORTED: i32 = -2;

/// The system was unable to allocate some resource
/// needed for the operation.
pub const ERR_NO_RESOURCES: i32 = -3;

/// The system was not able to allocate memory
/// needed for the operation.
pub const ERR_NO_MEMORY: i32 = -4;

/// An argument passed was invalid.
pub const ERR_INVALID_ARG: i32 = -5;

/// A specified handle value does not refer to a valid handle.
pub const ERR_BAD_HANDLE: i32 = -6;

/// The subject of the operation is the wrong type to
/// perform the operation.
pub const ERR_WRONG_TYPE: i32 = -7;

/// An argument is outside of the valid range for
/// this operation.
pub const ERR_OUT_OF_BOUNDS: i32 = -8;

/// A caller provided buffer is too small for
/// this operation.
pub const ERR_BUFFER_TOO_SMALL: i32 = -9;

/// The operation failed because the current state
/// of the object does not allow it, or a precondition
/// of the operation is not satisfied.
pub const ERR_BAD_STATE: i32 = -10;

/// The time limit for the operation elapsed before
/// the operation completed.
pub const ERR_TIMED_OUT: i32 = -11;

/// The operation cannot be performed currently but
/// potentially could succeed if the caller waits for a prerequisite
/// to be satisfied.
pub const ERR_SHOULD_WAIT: i32 = -12;

/// The in-progress operation (e.g. a wait) has been
/// canceled.
pub const ERR_CANCELLED: i32 = -13;

/// The operation failed because the remote end of the
/// subject of the operation was closed.
pub const ERR_PEER_CLOSED: i32 = -14;

/// The requested entity is not found.
pub const ERR_NOT_FOUND: i32 = -15;

/// An object with the specified identifier
/// already exists.
pub const ERR_ALREADY_EXISTS: i32 = -16;

/// The operation failed because the named entity
/// is already owned or controlled by another entity.
pub const ERR_ALREADY_OWNED: i32 = -17;

/// The subject of the operation is currently unable
/// to perform the operation.
pub const ERR_UNAVAILABLE: i32 = -18;

/// The caller did not have permission to perform
/// the specified operation.
pub const ERR_ACCESS_DENIED: i32 = -19;

/// A failure code crossing the syscall boundary.
///
/// The code is strictly negative for every defined failure kind; `0` means
/// success by convention of the encoding and never appears inside an `Err`.
/// The codes and their table slots are a stable contract across the privilege
/// boundary and must never be renumbered.
#[derive(Clone, Copy, PartialEq, Eq, Structural, Debug, Hash)]
pub struct Error {
    pub errno: i32,
}

/// Holds of the words that the decoder reads as an encoded failure: the
/// reserved window strictly between `0` and the table length.
pub open spec fn word_encodes_error(w: int) -> bool {
    0 < w < ERROR_TABLE_LEN
}

/// The word that a typed result is packed into: a success value travels as
/// itself, a failure as the negation of its code.
pub open spec fn mux_spec(result: Result<u32, Error>) -> u64
    recommends
        (result matches Err(e) ==> e.errno < 0),
{
    match result {
        Ok(value) => value as u64,
        Err(error) => (-(error.errno as int)) as u64,
    }
}

/// The typed result a returned word is unpacked into: a word in the reserved
/// window is an encoded failure, anything else is a success value truncated
/// to the 32-bit payload.
pub open spec fn demux_spec(value: u64) -> Result<u32, Error> {
    if word_encodes_error(value as int) {
        Err(Error { errno: (-(value as int)) as i32 })
    } else {
        Ok(value as u32)
    }
}

/// `mux_spec` for the pointer-width convention, used by calls whose success
/// payload is a size or count rather than a 32-bit id.
pub open spec fn mux_size_spec(result: Result<usize, Error>) -> usize
    recommends
        (result matches Err(e) ==> e.errno < 0),
{
    match result {
        Ok(value) => value,
        Err(error) => (-(error.errno as int)) as usize,
    }
}

/// `demux_spec` for the pointer-width convention: the range test is the same,
/// and the payload is returned at full width.
pub open spec fn demux_size_spec(value: usize) -> Result<usize, Error> {
    if word_encodes_error(value as int) {
        Err(Error { errno: (-(value as int)) as i32 })
    } else {
        Ok(value)
    }
}

/// The description table, indexed by the negation of the code: slot 0
/// describes success, slots `1..=19` the nineteen failure kinds in their
/// fixed order, and every index outside the table falls back to a generic
/// sentence. The slot order is part of the cross-boundary contract and must
/// never be permuted.
pub open spec fn description_of(errno: int) -> Seq<char> {
    if errno == 0 {
        "The operation succeeded."@
    } else if errno == ERR_INTERNAL {
        "The system encountered an otherwise unspecified error while performing the operation."@
    } else if errno == ERR_NOT_SUPPORTED {
        "The operation is not implemented, supported, or enabled."@
    } else if errno == ERR_NO_RESOURCES {
        "The system was not able to allocate some resource needed for the operation."@
    } else if errno == ERR_NO_MEMORY {
        "The system was not able to allocate memory needed for the operation."@
    } else if errno == ERR_INVALID_ARG {
        "An argument passed was invalid."@
    } else if errno == ERR_BAD_HANDLE {
        "A specified handle value does not refer to a valid handle."@
    } else if errno == ERR_WRONG_TYPE {
        "The subject of the operation is the wrong type to perform the operation."@
    } else if errno == ERR_OUT_OF_BOUNDS {
        "An argument is outside of the valid range for this operation."@
    } else if errno == ERR_BUFFER_TOO_SMALL {
        "A caller provided buffer is too small for this operation."@
    } else if errno == ERR_BAD_STATE {
        "The operation failed because the current state of the object does not allow it, or a precondition of the operation is not satisfied."@
    } else if errno == ERR_TIMED_OUT {
        "The time limit for the operation elapsed before the operation completed."@
    } else if errno == ERR_SHOULD_WAIT {
        "The operation cannot be performed currently."@
    } else if errno == ERR_CANCELLED {
        "The in-progress operation (e.g. a wait) has been canceled."@
    } else if errno == ERR_PEER_CLOSED {
        "The operation failed because the remote end of the subject of the operation was closed."@
    } else if errno == ERR_NOT_FOUND {
        "The requested entity is not found."@
    } else if errno == ERR_ALREADY_EXISTS {
        "An object with the specified identifier already exists."@
    } else if errno == ERR_ALREADY_OWNED {
        "The operation failed because the specified entity is already owned or controlled."@
    } else if errno == ERR_UNAVAILABLE {
        "The subject of the operation is currently unable to perform the operation."@
    } else if errno == ERR_ACCESS_DENIED {
        "The caller did not have permission to perform the specified operation."@
    } else {
        "An Unknown error occurred."@
    }
}

impl Error {
    /// Holds of the nineteen defined failure kinds; every other code is
    /// outside the stable taxonomy.
    pub open spec fn is_defined(self) -> bool {
        ERR_ACCESS_DENIED <= self.errno <= ERR_INTERNAL
    }

    /// Wrap a raw code.
    pub fn new(errno: i32) -> (r: Error)
        ensures
            r.errno == errno,
    {
        Error { errno }
    }

    /// The shared range test of the decoders: is this word an encoded
    /// failure?
    fn word_is_error(value: u64) -> (r: bool)
        ensures
            r == word_encodes_error(value as int),
    {
        0 < value && value < ERROR_TABLE_LEN
    }

    /// Pack a typed result into a 64-bit return word.
    pub fn mux(result: Result<u32, Error>) -> (w: u64)
        requires
            (result matches Err(e) ==> e.errno < 0),
        ensures
            w == mux_spec(result),
    {
        match result {
            Ok(value) => value as u64,
            Err(error) => (-(error.errno as i64)) as u64,
        }
    }

    /// Unpack a 64-bit return word into a typed result carrying a 32-bit
    /// payload.
    pub fn demux(value: u64) -> (r: Result<u32, Error>)
        ensures
            r == demux_spec(value),
    {
        if Self::word_is_error(value) {
            Err(Error::new(-(value as i32)))
        } else {
            // A success word carries its payload in the low 32 bits.
            Ok(#[verifier::truncate] (value as u32))
        }
    }

    /// Pack a typed result into a pointer-width return word.
    pub fn mux_size(result: Result<usize, Error>) -> (w: usize)
        requires
            (result matches Err(e) ==> e.errno < 0),
        ensures
            w == mux_size_spec(result),
    {
        match result {
            Ok(value) => value,
            Err(error) => (-(error.errno as i64)) as usize,
        }
    }

    /// Unpack a pointer-width return word into a typed result carrying a
    /// pointer-width payload.
    pub fn demux_size(value: usize) -> (r: Result<usize, Error>)
        ensures
            r == demux_size_spec(value),
    {
        if Self::word_is_error(value as u64) {
            Err(Error::new(-(value as i32)))
        } else {
            Ok(value)
        }
    }

    /// The fixed description of this code: its table slot for a defined kind
    /// (or for success), and the generic fallback sentence for any code
    /// outside the table. Total: an unknown code degrades to the fallback
    /// rather than failing.
    ///
    /// The table is fixed data; it is laid out as a match so that each slot
    /// stays aligned with its code by construction.
    pub fn text(&self) -> (r: &str)
        ensures
            r@ == description_of(self.errno as int),
    {
        match self.errno {
            0 => "The operation succeeded.",
            -1 => "The system encountered an otherwise unspecified error while performing the operation.",
            -2 => "The operation is not implemented, supported, or enabled.",
            -3 => "The system was not able to allocate some resource needed for the operation.",
            -4 => "The system was not able to allocate memory needed for the operation.",
            -5 => "An argument passed was invalid.",
            -6 => "A specified handle value does not refer to a valid handle.",
            -7 => "The subject of the operation is the wrong type to perform the operation.",
            -8 => "An argument is outside of the valid range for this operation.",
            -9 => "A caller provided buffer is too small for this operation.",
            -10 => "The operation failed because the current state of the object does not allow it, or a precondition of the operation is not satisfied.",
            -11 => "The time limit for the operation elapsed before the operation completed.",
            -12 => "The operation cannot be performed currently.",
            -13 => "The in-progress operation (e.g. a wait) has been canceled.",
            -14 => "The operation failed because the remote end of the subject of the operation was closed.",
            -15 => "The requested entity is not found.",
            -16 => "An object with the specified identifier already exists.",
            -17 => "The operation failed because the specified entity is already owned or controlled.",
            -18 => "The subject of the operation is currently unable to perform the operation.",
            -19 => "The caller did not have permission to perform the specified operation.",
            _ => "An Unknown error occurred.",
        }
    }

    /// Convert an expected-but-missing value into the catch-all internal
    /// failure: a present value passes through, an absent one degrades to
    /// `ERR_INTERNAL` rather than to a kind of its own.
    pub fn ok_or_internal<T>(value: Option<T>) -> (r: Result<T, Error>)
        ensures
            (value matches Some(v) ==> r == Ok::<T, Error>(v)),
            value is None ==> (r matches Err(e) && e.errno == ERR_INTERNAL),
    {
        match value {
            Some(v) => Ok(v),
            None => Err(Error::new(ERR_INTERNAL)),
        }
    }
}

/// Round trip for failures: every defined failure kind survives encoding and
/// decoding unchanged.
pub proof fn lemma_roundtrip_err(e: Error)
    requires
        e.is_defined(),
    ensures
        demux_spec(mux_spec(Err(e))) == Err::<u32, Error>(e),
{
}

/// Round trip for successes: every 32-bit success value outside the reserved
/// failure window survives encoding and decoding unchanged.
pub proof fn lemma_roundtrip_ok(v: u32)
    requires
        !word_encodes_error(v as int),
    ensures
        demux_spec(mux_spec(Ok(v))) == Ok::<u32, Error>(v),
{
}

/// Round trip for failures on the pointer-width convention.
pub proof fn lemma_roundtrip_size_err(e: Error)
    requires
        e.is_defined(),
    ensures
        demux_size_spec(mux_size_spec(Err(e))) == Err::<usize, Error>(e),
{
}

/// Round trip for successes on the pointer-width convention.
pub proof fn lemma_roundtrip_size_ok(v: usize)
    requires
        !word_encodes_error(v as int),
    ensures
        demux_size_spec(mux_size_spec(Ok(v))) == Ok::<usize, Error>(v),
{
}

} // verus!
