use crate::error::BoardError;
use crate::text::is_utf8;
use vstd::prelude::*;
use vstd::utf8::valid_utf8;

verus! {

/// A decoded instruction for this handler.
///
/// The wire form is a tag byte selecting the variant, followed by the
/// variant's payload; unknown tags are invalid.
#[derive(Debug)]
pub enum MessageBoardInstruction {
    /// Provision a new board bound to an asset, pointing at a URL.
    CreateBoard {
        /// 32-byte identifier of the asset the caller must hold.
        token: Vec<u8>,
        /// The board's URL, as UTF-8 bytes.
        url: Vec<u8>,
    },
}

/// Mathematical image of an instruction.
#[verifier::ext_equal]
pub ghost enum InstructionV {
    CreateBoard { token: Seq<u8>, url: Seq<u8> },
}

impl View for MessageBoardInstruction {
    type V = InstructionV;

    open spec fn view(&self) -> InstructionV {
        match self {
            MessageBoardInstruction::CreateBoard { token, url } => InstructionV::CreateBoard {
                token: token@,
                url: url@,
            },
        }
    }
}

/// What decoding a raw payload yields: `None` stands for a malformed
/// payload (empty or short payload, unknown tag, or a URL that is not
/// valid UTF-8).
///
/// Wire layout, little-endian, no padding: byte 0 is the variant tag
/// (0 selects `CreateBoard`), bytes 1..33 are the asset identifier, and
/// every remaining byte belongs to the URL.
pub open spec fn spec_unpack(bytes: Seq<u8>) -> Option<InstructionV> {
    if bytes.len() < 33 {
        None
    } else if bytes[0] != 0 {
        None
    } else if !valid_utf8(bytes.skip(33)) {
        None
    } else {
        Some(
            InstructionV::CreateBoard { token: bytes.subrange(1, 33), url: bytes.skip(33) },
        )
    }
}

impl MessageBoardInstruction {
    /// The asset identifier is 32 bytes and the URL is UTF-8.
    pub open spec fn wf(&self) -> bool {
        match self {
            MessageBoardInstruction::CreateBoard { token, url } => token@.len() == 32
                && valid_utf8(url@),
        }
    }

    /// Decode a raw payload into a typed instruction.
    ///
    /// Fails with `MalformedInstruction` exactly when the payload is shorter
    /// than a tag plus a 32-byte asset identifier, carries an unknown tag,
    /// or its trailing bytes are not valid UTF-8.
    pub fn unpack(input: &[u8]) -> (r: Result<Self, BoardError>)
        ensures
            match r {
                Ok(inst) => spec_unpack(input@) == Some(inst@) && inst.wf(),
                Err(e) => spec_unpack(input@) is None && e == BoardError::MalformedInstruction,
            },
    {
        if input.len() < 33 {
            return Err(BoardError::MalformedInstruction);
        }
        if input[0] != 0 {
            return Err(BoardError::MalformedInstruction);
        }
        let mut token: Vec<u8> = Vec::new();
        let mut i: usize = 1;
        while i < 33
            invariant
                1 <= i <= 33,
                input@.len() >= 33,
                token@ == input@.subrange(1, i as int),
            decreases 33 - i,
        {
            token.push(input[i]);
            proof {
                assert(token@ =~= input@.subrange(1, i + 1));
            }
            i += 1;
        }
        let mut url: Vec<u8> = Vec::new();
        let mut j: usize = 33;
        while j < input.len()
            invariant
                33 <= j <= input@.len(),
                url@ == input@.subrange(33, j as int),
            decreases input@.len() - j,
        {
            url.push(input[j]);
            proof {
                assert(url@ =~= input@.subrange(33, j + 1));
            }
            j += 1;
        }
        proof {
            assert(url@ =~= input@.skip(33));
        }
        if !is_utf8(&url) {
            return Err(BoardError::MalformedInstruction);
        }
        Ok(MessageBoardInstruction::CreateBoard { token, url })
    }
}

} // verus!
