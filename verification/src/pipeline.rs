//! The file-pipeline orchestration: a one-shot `Completion` handle that is
//! driven from the file read event to a terminal outcome, and the verified
//! decode → grayscale → encode tail it runs once the bytes are loaded.

use crate::codec::decode_rgba;
use crate::codec::decoded_rgba;
use crate::codec::encode_luma_png;
use crate::codec::png_bytes;
use crate::gray::luma_of_rgba;
use crate::gray::luma_plane;
use vstd::prelude::*;

verus! {

use vstd::string::StringExecFns;

/// The error of the one pipeline stage that failed, with its cause.
#[derive(Debug)]
pub enum PipelineError {
    /// The file handle could not be read.
    Io(String),
    /// The bytes are not a recognized, well-formed image file.
    Decode(String),
    /// The grayscale image could not be serialized as a PNG.
    Encode(String),
}

impl PipelineError {
    /// The error description, prefixed by the stage that failed.
    pub fn message(&self) -> (msg: String)
        ensures
            match self {
                PipelineError::Io(c) => msg@ == "load failed: "@ + c@,
                PipelineError::Decode(c) => msg@ == "decode failed: "@ + c@,
                PipelineError::Encode(c) => msg@ == "encode failed: "@ + c@,
            },
    {
        match self {
            PipelineError::Io(c) => String::from_str("load failed: ").concat(c.as_str()),
            PipelineError::Decode(c) => String::from_str("decode failed: ").concat(c.as_str()),
            PipelineError::Encode(c) => String::from_str("encode failed: ").concat(c.as_str()),
        }
    }
}

/// What the loaded file bytes are owed by the synchronous pipeline tail:
/// on success the PNG encoding of the decoded image's luma plane; on
/// failure an error attributable to exactly one stage, a decode error if
/// and only if the bytes do not decode. Success is owed whenever the
/// bytes decode to an image with nonzero dimensions: an encode error is
/// possible only for a decoded image with a zero width or height, the one
/// shape the PNG format refuses.
pub open spec fn loaded_outcome(bytes: Seq<u8>, r: Result<Vec<u8>, PipelineError>) -> bool {
    match r {
        Ok(out) => decoded_rgba(bytes) matches Some(img) && out@ == png_bytes(
            img.0,
            img.1,
            luma_plane(img.2),
        ),
        Err(e) => match e {
            PipelineError::Decode(_) => decoded_rgba(bytes) is None,
            PipelineError::Encode(_) => decoded_rgba(bytes) matches Some(img) && (img.0 == 0
                || img.1 == 0),
            PipelineError::Io(_) => false,
        },
    }
}

/// The synchronous tail of the file pipeline, run once the file bytes are
/// in memory: decode them, compute the luma plane of the decoded pixels,
/// and encode that plane as a PNG.
pub fn process_loaded_bytes(bytes: &Vec<u8>) -> (r: Result<Vec<u8>, PipelineError>)
    ensures
        loaded_outcome(bytes@, r),
{
    let decoded = match decode_rgba(bytes.as_slice()) {
        Ok(t) => t,
        Err(cause) => {
            return Err(PipelineError::Decode(cause));
        },
    };
    let (width, height, rgba) = decoded;
    proof {
        let wh = (width as int) * (height as int);
        assert(rgba@.len() == 4 * wh) by (nonlinear_arith)
            requires
                rgba@.len() == 4 * width * height,
                wh == (width as int) * (height as int),
        ;
        vstd::arithmetic::div_mod::lemma_mod_multiples_basic(wh, 4);
        vstd::arithmetic::div_mod::lemma_div_multiples_vanish(wh, 4);
        assert(rgba@.len() == wh * 4);
    }
    let luma = luma_of_rgba(&rgba);
    match encode_luma_png(width, height, luma) {
        Ok(out) => Ok(out),
        Err(cause) => Err(PipelineError::Encode(cause)),
    }
}

/// Law: bytes that do not decode are always rejected at the decode stage
/// and the completion never resolves.
pub proof fn lemma_undecodable_rejects(bytes: Seq<u8>, c: Completion)
    requires
        c.carries_outcome_of(bytes),
        decoded_rgba(bytes) is None,
    ensures
        c matches Completion::Rejected(e) && e is Decode,
{
}

/// Law: bytes that decode to an image with nonzero dimensions always
/// resolve; `carries_outcome_of` then pins the payload to the PNG
/// encoding of the decoded image's luma plane.
pub proof fn lemma_decodable_resolves(bytes: Seq<u8>, c: Completion)
    requires
        c.carries_outcome_of(bytes),
        decoded_rgba(bytes) matches Some(img) && img.0 >= 1 && img.1 >= 1,
    ensures
        c is Resolved,
{
}

/// A one-shot handle for the outcome of one file-pipeline invocation.
/// It moves strictly forward: `Pending` until the read request is issued,
/// `Loading` while the file bytes are on their way, then exactly one of
/// the two terminal states, which is never left again.
pub enum Completion {
    /// Created; no read request issued yet.
    Pending,
    /// The read request was issued; the pipeline awaits the bytes.
    Loading,
    /// Terminal success, carrying the encoded PNG bytes.
    Resolved(Vec<u8>),
    /// Terminal failure, carrying the stage-tagged error.
    Rejected(PipelineError),
}

impl Completion {
    /// Whether the handle has reached its final state.
    pub open spec fn is_terminal(self) -> bool {
        self is Resolved || self is Rejected
    }

    /// Whether a terminal handle carries the outcome owed to the given
    /// loaded file bytes.
    pub open spec fn carries_outcome_of(self, bytes: Seq<u8>) -> bool {
        match self {
            Completion::Resolved(out) => loaded_outcome(bytes, Ok(out)),
            Completion::Rejected(e) => loaded_outcome(bytes, Err(e)),
            _ => false,
        }
    }

    /// Creates the handle for one invocation.
    pub fn new() -> (c: Completion)
        ensures
            c is Pending,
    {
        Completion::Pending
    }

    /// Records that the read request for the file bytes was issued.
    pub fn start(&mut self)
        requires
            *old(self) is Pending,
        ensures
            *final(self) is Loading,
    {
        *self = Completion::Loading;
    }

    /// Rejects the handle after a failed read: the failure is never
    /// dropped, and no partial buffer is ever forwarded.
    pub fn on_load_failed(&mut self, cause: String)
        requires
            *old(self) is Loading,
        ensures
            *final(self) matches Completion::Rejected(PipelineError::Io(c)) && c@ == cause@,
    {
        *self = Completion::Rejected(PipelineError::Io(cause));
    }

    /// Runs the rest of the pipeline on the loaded file bytes and moves
    /// the handle to its terminal state.
    pub fn on_load_complete(&mut self, bytes: &Vec<u8>)
        requires
            *old(self) is Loading,
        ensures
            final(self).is_terminal(),
            final(self).carries_outcome_of(bytes@),
    {
        match process_loaded_bytes(bytes) {
            Ok(out) => {
                *self = Completion::Resolved(out);
            },
            Err(e) => {
                *self = Completion::Rejected(e);
            },
        }
    }
}

} // verus!
