//! A data frame: an identifier and up to eight payload bytes.
use vstd::prelude::*;

use crate::id::Id;
use crate::{PDU_MAX_LENGTH, PDU_NOT_AVAILABLE};

verus! {

/// Data frame.
#[derive(Clone, Copy, Debug)]
pub struct Frame {
    /// Frame ID.
    id: Id,
    /// PDU.
    pdu: [u8; PDU_MAX_LENGTH],
    /// PDU length.
    pdu_length: usize,
}

/// The payload of a frame: the bytes in use, at most eight.
impl View for Frame {
    type V = Seq<u8>;

    closed spec fn view(&self) -> Seq<u8> {
        self.pdu@.subrange(0, self.pdu_length as int)
    }
}

impl Frame {
    #[verifier::type_invariant]
    spec fn length_in_range(self) -> bool {
        self.pdu_length <= PDU_MAX_LENGTH
    }

    /// The identifier of the frame.
    pub closed spec fn spec_id(self) -> Id {
        self.id
    }

    /// Construct a new frame with the eight bytes of `pdu` as payload.
    pub fn new(id: Id, pdu: [u8; PDU_MAX_LENGTH]) -> (r: Self)
        ensures
            r.spec_id() == id,
            r@ == pdu@,
    {
        let r = Self { id, pdu, pdu_length: PDU_MAX_LENGTH };
        assert(r@ =~= pdu@);
        r
    }

    /// Construct a new frame from a raw identifier, masked to 29 bits, and eight payload bytes.
    pub fn from_raw(id: u32, pdu: [u8; PDU_MAX_LENGTH]) -> (r: Self)
        ensures
            r.spec_id()@ == id & crate::ID_BIT_MASK,
            r@ == pdu@,
    {
        Self::new(Id::new(id), pdu)
    }

    /// Get the ID of the frame.
    pub fn id(&self) -> (r: &Id)
        ensures
            *r == self.spec_id(),
    {
        &self.id
    }

    /// Returns the PDU data in use.
    pub fn pdu(&self) -> (r: &[u8])
        ensures
            r@ == self@,
    {
        proof {
            use_type_invariant(self);
        }
        vstd::slice::slice_subrange(self.pdu.as_slice(), 0, self.pdu_length)
    }

    /// Returns the length of the PDU data.
    pub fn len(&self) -> (r: usize)
        ensures
            r == self@.len(),
            r <= PDU_MAX_LENGTH,
    {
        proof {
            use_type_invariant(self);
        }
        self.pdu_length
    }

    /// Returns `true` if the PDU data is empty.
    pub fn is_empty(&self) -> (r: bool)
        ensures
            r == (self@.len() == 0),
    {
        proof {
            use_type_invariant(self);
        }
        self.pdu_length == 0
    }

    /// Returns the payload byte at `index`.
    pub fn byte(&self, index: usize) -> (r: u8)
        requires
            index < self@.len(),
        ensures
            r == self@[index as int],
    {
        proof {
            use_type_invariant(self);
        }
        self.pdu[index]
    }
}

/// Builder of a frame: an identifier, an eight-byte buffer that starts out as not-available
/// bytes, and the number of bytes in use.
pub struct FrameBuilder {
    /// Frame ID.
    id: Id,
    /// Protocol Data Unit.
    pdu: [u8; PDU_MAX_LENGTH],
    /// PDU length.
    pdu_length: usize,
}

impl AsRef<[u8]> for Frame {
    fn as_ref(&self) -> &[u8] {
        self.pdu()
    }
}

impl FrameBuilder {
    pub closed spec fn spec_id(self) -> Id {
        self.id
    }

    /// All eight bytes of the buffer, in use or not.
    pub closed spec fn spec_buffer(self) -> Seq<u8> {
        self.pdu@
    }

    /// The number of bytes in use; the buffer's own bound caps it.
    pub closed spec fn spec_len(self) -> nat {
        if self.pdu_length <= PDU_MAX_LENGTH {
            self.pdu_length as nat
        } else {
            PDU_MAX_LENGTH as nat
        }
    }

    /// Construct new frame builder.
    pub fn new(id: Id) -> (r: Self)
        ensures
            r.spec_id() == id,
            r.spec_buffer() == Seq::new(8, |_i: int| PDU_NOT_AVAILABLE),
            r.spec_len() == 0,
    {
        Self::default().id(id)
    }

    /// Set the frame ID.
    pub fn id(self, id: Id) -> (r: Self)
        ensures
            r.spec_id() == id,
            r.spec_buffer() == self.spec_buffer(),
            r.spec_len() == self.spec_len(),
    {
        Self { id, ..self }
    }

    /// Copy PDU data from a slice of at most eight bytes; the copied bytes become the bytes in
    /// use.
    pub fn copy_from_slice(self, src: &[u8]) -> (r: Self)
        requires
            src@.len() <= PDU_MAX_LENGTH,
        ensures
            r.spec_id() == self.spec_id(),
            r.spec_buffer() == src@ + self.spec_buffer().subrange(src@.len() as int, 8),
            r.spec_len() == src@.len(),
    {
        let mut pdu = self.pdu;
        let n = src.len();
        let mut i: usize = 0;
        while i < n
            invariant
                n == src@.len(),
                n <= PDU_MAX_LENGTH,
                i <= n,
                pdu@.len() == 8,
                forall|k: int| 0 <= k < i ==> pdu@[k] == src@[k],
                forall|k: int| i <= k < 8 ==> pdu@[k] == self.pdu@[k],
            decreases n - i,
        {
            pdu[i] = src[i];
            i = i + 1;
        }
        assert(pdu@ =~= src@ + self.pdu@.subrange(n as int, 8));
        Self { id: self.id, pdu, pdu_length: n }
    }

    /// Set PDU length; lengths above eight are clamped to eight.
    pub fn set_len(self, len: usize) -> (r: Self)
        ensures
            r.spec_id() == self.spec_id(),
            r.spec_buffer() == self.spec_buffer(),
            r.spec_len() == if len <= PDU_MAX_LENGTH { len } else { PDU_MAX_LENGTH },
    {
        let n = if len <= PDU_MAX_LENGTH { len } else { PDU_MAX_LENGTH };
        Self { pdu_length: n, ..self }
    }

    /// Construct frame.
    pub fn build(self) -> (r: Frame)
        ensures
            r.spec_id() == self.spec_id(),
            r@ == self.spec_buffer().subrange(0, self.spec_len() as int),
    {
        let n = if self.pdu_length <= PDU_MAX_LENGTH { self.pdu_length } else { PDU_MAX_LENGTH };
        Frame { id: self.id, pdu: self.pdu, pdu_length: n }
    }
}

impl Default for FrameBuilder {
    fn default() -> (r: Self)
        ensures
            r.spec_id()@ == 0,
            r.spec_buffer() == Seq::new(8, |_i: int| PDU_NOT_AVAILABLE),
            r.spec_len() == 0,
    {
        assert(0u32 & 0x1fffffff == 0) by (bit_vector);
        let r = Self { id: Id::new(0), pdu: [PDU_NOT_AVAILABLE; PDU_MAX_LENGTH], pdu_length: 0 };
        assert(r.pdu@ =~= Seq::new(8, |_i: int| PDU_NOT_AVAILABLE));
        r
    }
}

impl AsMut<[u8]> for FrameBuilder {
    fn as_mut(&mut self) -> &mut [u8] {
        &mut self.pdu
    }
}

} // verus!
