//! The flag pair of a TCP connection: which flags were seen, and which of
//! those bits are meaningful.

use vstd::prelude::*;
use crate::error::Cause;
use crate::error::ParseError;
use crate::nla::Emitable;

verus! {

/// Number of bytes of a flag pair: one for the flags, one for the mask.
pub const TCP_FLAGS_LEN: usize = 2;

/// A flag pair.
#[derive(Debug, PartialEq, Eq, Clone, Copy)]
pub struct TCPFlags {
    pub flags: u8,
    pub mask: u8,
}

impl TCPFlags {
    /// The pair that two bytes hold; any other number of bytes is refused.
    pub open spec fn decode(value: Seq<u8>) -> Result<TCPFlags, ParseError> {
        if value.len() == TCP_FLAGS_LEN {
            Ok(TCPFlags { flags: value[0], mask: value[1] })
        } else {
            Err(ParseError { attribute: None, cause: Cause::ValueLength })
        }
    }

    /// Reads a pair from exactly two bytes.
    pub fn parse(payload: &[u8]) -> (r: Result<TCPFlags, ParseError>)
        ensures
            r == TCPFlags::decode(payload@),
    {
        if payload.len() != TCP_FLAGS_LEN {
            return Err(ParseError { attribute: None, cause: Cause::ValueLength });
        }
        Ok(TCPFlags { flags: payload[0], mask: payload[1] })
    }

    /// A pair that was written is read back as it was.
    pub proof fn lemma_decode_encoding(self)
        ensures
            TCPFlags::decode(self.encoding()) == Ok::<TCPFlags, ParseError>(self),
    {
    }

    /// Two bytes hold a pair, flags first and mask second; no other number
    /// of bytes does.
    pub proof fn lemma_decode_needs_two_bytes(value: Seq<u8>)
        ensures
            TCPFlags::decode(value) is Ok <==> value.len() == 2,
            value.len() == 2 ==> TCPFlags::decode(value) == Ok::<TCPFlags, ParseError>(
                TCPFlags { flags: value[0], mask: value[1] },
            ),
            value.len() != 2 ==> TCPFlags::decode(value) == Err::<TCPFlags, ParseError>(
                ParseError { attribute: None, cause: Cause::ValueLength },
            ),
    {
    }
}

impl Emitable for TCPFlags {
    /// The two bytes of the pair: flags first, then the mask.
    open spec fn encoding(&self) -> Seq<u8> {
        seq![self.flags, self.mask]
    }

    open spec fn emittable(&self) -> bool {
        true
    }

    fn buffer_len(&self) -> (n: usize) {
        TCP_FLAGS_LEN
    }

    fn emit(&self, buffer: &mut [u8]) {
        buffer[0] = self.flags;
        buffer[1] = self.mask;
        assert(buffer@ =~= self.encoding() + old(buffer)@.skip(2));
    }
}

} // verus!
