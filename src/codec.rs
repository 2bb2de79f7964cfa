use vstd::prelude::*;

verus! {

/// Why a codec call produced no output.
#[derive(Clone, Copy, Debug, PartialEq, Eq, Structural)]
pub enum CodecError {
    /// The requested level lies outside the backend's documented range; no
    /// work was attempted.
    InvalidLevel,
    /// The input is not a valid stream for this decoder.
    Malformed,
    /// The encoder reported a failure.
    EncodeFailed,
    /// The backend offers no such direction.
    Unsupported,
}

/// What an optional decoded value looks like as bytes.
pub open spec fn opt_bytes(o: Option<Vec<u8>>) -> Option<Seq<u8>> {
    match o {
        Some(v) => Some(v@),
        None => None,
    }
}

/// `r` is the outcome of a decoder whose answer on the input is `d`: the
/// decoded bytes, or `Malformed` where there are none.
pub open spec fn decodes_to(r: Result<Vec<u8>, CodecError>, d: Option<Seq<u8>>) -> bool {
    match d {
        Some(v) => r matches Ok(o) && o@ == v,
        None => r == Err::<Vec<u8>, CodecError>(CodecError::Malformed),
    }
}

/// `r` is the outcome of an encoder that was handed valid arguments and
/// returned `e`: the encoded bytes, or `EncodeFailed`.
pub open spec fn encodes_to(r: Result<Vec<u8>, CodecError>, e: Option<Seq<u8>>) -> bool {
    match e {
        Some(v) => r matches Ok(o) && o@ == v,
        None => r == Err::<Vec<u8>, CodecError>(CodecError::EncodeFailed),
    }
}

/// Turns a decoder's optional answer into a result.
pub fn decoded(o: Option<Vec<u8>>) -> (r: Result<Vec<u8>, CodecError>)
    ensures
        decodes_to(r, opt_bytes(o)),
{
    match o {
        Some(v) => Ok(v),
        None => Err(CodecError::Malformed),
    }
}

/// Turns an encoder's optional answer into a result.
pub fn encoded(o: Option<Vec<u8>>) -> (r: Result<Vec<u8>, CodecError>)
    ensures
        encodes_to(r, opt_bytes(o)),
{
    match o {
        Some(v) => Ok(v),
        None => Err(CodecError::EncodeFailed),
    }
}

} // verus!
