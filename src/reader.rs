use vstd::prelude::*;

verus! {

/// How many bytes are read ahead to look for the preamble marker.
pub const HEAD_LEN: usize = 132;

/// The length of the preamble that precedes the marker.
pub const PREAMBLE_LEN: usize = 128;

/// The four-byte marker `DICM`.
pub open spec fn marker() -> Seq<u8> {
    seq![68u8, 73u8, 67u8, 77u8]
}

/// The bytes read ahead are a full head whose last four bytes are the marker.
pub open spec fn marker_found(head: Seq<u8>) -> bool {
    head.len() == HEAD_LEN && head.subrange(PREAMBLE_LEN as int, HEAD_LEN as int) == marker()
}

/// What to do with a container whose head carries no preamble marker.
#[derive(Clone, Copy, Debug, PartialEq, Eq, Structural)]
pub enum NoPreamblePolicy {
    /// Report that the marker was not found.
    Fail,
    /// Decode from the first byte anyway.
    DecodeFromStart,
}

/// Why a container could not be read.
#[derive(Debug)]
pub enum Error {
    /// The byte source failed.
    Io { message: String },
    /// The bytes do not form a valid element stream.
    Dcm { message: String },
    /// No preamble marker, and decoding without one was not asked for.
    MarkerNotFound,
}

/// Whether the head read ahead carries the preamble marker at offset 128.
pub fn has_preamble(head: &[u8]) -> (r: bool)
    ensures
        r == marker_found(head@),
{
    if head.len() != HEAD_LEN {
        return false;
    }
    let found = head[128] == 68u8 && head[129] == 73u8 && head[130] == 67u8 && head[131] == 77u8;
    proof {
        if found {
            assert(head@.subrange(128, 132) =~= marker());
        } else {
            assert(head@.subrange(128, 132) != marker() || head@.subrange(128, 132)[0] != 68u8
                || head@.subrange(128, 132)[1] != 73u8 || head@.subrange(128, 132)[2] != 67u8
                || head@.subrange(128, 132)[3] != 77u8);
        }
    }
    found
}

/// Where element decoding starts in the head read ahead: at the marker when the head
/// carries the preamble (the 128 bytes before it are dropped unread), else at the first
/// byte or not at all, as the policy says.
pub fn decode_start(head: &[u8], policy: NoPreamblePolicy) -> (r: Result<usize, Error>)
    ensures
        marker_found(head@) ==> (r matches Ok(n) && n == PREAMBLE_LEN),
        !marker_found(head@) && policy == NoPreamblePolicy::DecodeFromStart ==> (r matches Ok(n) && n == 0),
        !marker_found(head@) && policy == NoPreamblePolicy::Fail ==> (r matches Err(Error::MarkerNotFound)),
{
    if has_preamble(head) {
        Ok(PREAMBLE_LEN)
    } else {
        match policy {
            NoPreamblePolicy::Fail => Err(Error::MarkerNotFound),
            NoPreamblePolicy::DecodeFromStart => Ok(0),
        }
    }
}

} // verus!
