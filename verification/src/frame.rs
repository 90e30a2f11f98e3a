use vstd::prelude::*;

verus! {

/// Length in bytes of one complete protocol frame, terminator included.
pub const FRAME_LEN: usize = 14;

/// Carriage return, the first byte of the two-byte frame terminator.
pub const CR: u8 = 0x0D;

/// Line feed, the second byte of the two-byte frame terminator.
pub const LF: u8 = 0x0A;

/// One complete 14-byte protocol message, terminator included.
///
/// A frame is only ever built once its terminator has been confirmed;
/// it is always exactly [`FRAME_LEN`] bytes long.
pub struct Frame {
    bytes: Vec<u8>,
}

impl View for Frame {
    type V = Seq<u8>;

    closed spec fn view(&self) -> Seq<u8> {
        self.bytes@
    }
}

impl Frame {
    /// A frame is always exactly [`FRAME_LEN`] bytes.
    pub open spec fn wf(&self) -> bool {
        self@.len() == FRAME_LEN
    }

    /// Wraps a byte vector as a frame; refuses any other length.
    pub fn new(bytes: Vec<u8>) -> (r: Option<Frame>)
        ensures
            bytes@.len() == FRAME_LEN ==> (r matches Some(f) && f.wf() && f@ == bytes@),
            bytes@.len() != FRAME_LEN ==> r is None,
    {
        if bytes.len() == FRAME_LEN {
            Some(Frame { bytes })
        } else {
            None
        }
    }

    /// Wraps a byte vector already known to have the right length.
    pub(crate) fn from_bytes(bytes: Vec<u8>) -> (r: Frame)
        requires
            bytes@.len() == FRAME_LEN,
        ensures
            r.wf(),
            r@ == bytes@,
    {
        Frame { bytes }
    }

    /// The frame's bytes, oldest first, terminator included.
    pub fn bytes(&self) -> (r: &Vec<u8>)
        ensures
            r@ == self@,
    {
        &self.bytes
    }
}

} // verus!
