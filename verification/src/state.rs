use crate::bytes_util::{append_bytes, copy_range};
use crate::error::BoardError;
use crate::text::is_utf8;
use vstd::bytes::{
    lemma_auto_spec_u32_to_from_le_bytes, spec_u32_from_le_bytes, spec_u32_to_le_bytes,
    u32_from_le_bytes, u32_to_le_bytes,
};
use vstd::prelude::*;
use vstd::slice::slice_subrange;
use vstd::utf8::valid_utf8;

verus! {

/// Number of serialized bytes that precede the URL's own bytes: one
/// initialization flag, two 32-byte identifiers, and a four-byte URL length.
pub const RECORD_HEADER_LEN: usize = 69;

/// The persisted board entity. It is created exactly once per successful
/// `CreateBoard` call and written into caller-designated storage; no update
/// or delete operation exists.
pub struct MessageBoardInfo {
    /// Set when the record has been written.
    pub is_initialized: bool,
    /// 32-byte identifier of the caller that created the board.
    pub owner: Vec<u8>,
    /// 32-byte identifier of the asset the board is bound to.
    pub token: Vec<u8>,
    /// The board's URL, as UTF-8 bytes.
    pub url: Vec<u8>,
}

/// Mathematical image of a board record.
#[verifier::ext_equal]
pub ghost struct BoardV {
    pub is_initialized: bool,
    pub owner: Seq<u8>,
    pub token: Seq<u8>,
    pub url: Seq<u8>,
}

impl View for MessageBoardInfo {
    type V = BoardV;

    open spec fn view(&self) -> BoardV {
        BoardV {
            is_initialized: self.is_initialized,
            owner: self.owner@,
            token: self.token@,
            url: self.url@,
        }
    }
}

/// Identifiers are 32 bytes and the URL is UTF-8.
pub open spec fn wf_board(v: BoardV) -> bool {
    v.owner.len() == 32 && v.token.len() == 32 && valid_utf8(v.url)
}

/// The serialized form of a record, little-endian, no padding: a flag byte
/// (1 when initialized), the owner, the token, the URL's byte length as four
/// little-endian bytes, then the URL bytes themselves.
pub open spec fn spec_serialized(v: BoardV) -> Seq<u8>
    recommends
        v.url.len() <= u32::MAX,
{
    seq![if v.is_initialized { 1u8 } else { 0u8 }] + v.owner + v.token + spec_u32_to_le_bytes(
        v.url.len() as u32,
    ) + v.url
}

/// What decoding a byte buffer as a board record yields. Bytes past the
/// record are ignored, so a record can be read back out of a storage buffer
/// larger than itself.
pub open spec fn spec_decode(bytes: Seq<u8>) -> Option<BoardV> {
    if bytes.len() < 69 {
        None
    } else if bytes[0] != 0 && bytes[0] != 1 {
        None
    } else {
        let n = spec_u32_from_le_bytes(bytes.subrange(65, 69)) as int;
        if bytes.len() < 69 + n {
            None
        } else if !valid_utf8(bytes.subrange(69, 69 + n)) {
            None
        } else {
            Some(
                BoardV {
                    is_initialized: bytes[0] == 1,
                    owner: bytes.subrange(1, 33),
                    token: bytes.subrange(33, 65),
                    url: bytes.subrange(69, 69 + n),
                },
            )
        }
    }
}

/// Serialize a record given by its parts.
fn serialize_parts(is_initialized: bool, owner: &Vec<u8>, token: &Vec<u8>, url: &Vec<u8>) -> (r:
    Vec<u8>)
    requires
        owner@.len() == 32,
        token@.len() == 32,
        url@.len() <= u32::MAX,
    ensures
        r@ == spec_serialized(
            (BoardV { is_initialized, owner: owner@, token: token@, url: url@ }),
        ),
        r@.len() == 69 + url@.len(),
{
    let mut out: Vec<u8> = Vec::new();
    out.push(if is_initialized { 1u8 } else { 0u8 });
    append_bytes(&mut out, owner);
    append_bytes(&mut out, token);
    let len_bytes = u32_to_le_bytes(url.len() as u32);
    append_bytes(&mut out, &len_bytes);
    append_bytes(&mut out, url);
    proof {
        lemma_auto_spec_u32_to_from_le_bytes();
        let v = BoardV { is_initialized, owner: owner@, token: token@, url: url@ };
        assert(out@ =~= spec_serialized(v));
    }
    out
}

impl MessageBoardInfo {
    /// Identifiers are 32 bytes and the URL is UTF-8.
    pub open spec fn wf(&self) -> bool {
        wf_board(self@)
    }

    /// Serialize this record.
    pub fn serialize(&self) -> (r: Vec<u8>)
        requires
            self.wf(),
            self.url@.len() <= u32::MAX,
        ensures
            r@ == spec_serialized(self@),
            r@.len() == 69 + self.url@.len(),
    {
        serialize_parts(self.is_initialized, &self.owner, &self.token, &self.url)
    }

    /// Decode a record from the front of a byte buffer; trailing bytes are
    /// ignored. Returns `None` exactly when the buffer is too short for the
    /// header or the URL it announces, carries a flag byte other than 0
    /// or 1, or holds URL bytes that are not valid UTF-8.
    pub fn deserialize(bytes: &[u8]) -> (r: Option<MessageBoardInfo>)
        ensures
            match r {
                Some(rec) => spec_decode(bytes@) == Some(rec@) && rec.wf(),
                None => spec_decode(bytes@) is None,
            },
    {
        if bytes.len() < RECORD_HEADER_LEN {
            return None;
        }
        let tag = bytes[0];
        if tag != 0 && tag != 1 {
            return None;
        }
        let n32 = u32_from_le_bytes(slice_subrange(bytes, 65, 69));
        let n = n32 as usize;
        if bytes.len() - RECORD_HEADER_LEN < n {
            return None;
        }
        let owner = copy_range(bytes, 1, 33);
        let token = copy_range(bytes, 33, 65);
        let url = copy_range(bytes, 69, 69 + n);
        if !is_utf8(&url) {
            return None;
        }
        Some(MessageBoardInfo { is_initialized: tag == 1, owner, token, url })
    }
}

/// Decoding tolerates trailing bytes: a serialized record followed by any
/// suffix decodes back to exactly that record. This is why a record can be
/// read out of a storage buffer allocated larger than the record itself.
pub proof fn lemma_serialized_decodes(v: BoardV, extra: Seq<u8>)
    requires
        wf_board(v),
        v.url.len() <= u32::MAX,
    ensures
        spec_decode(spec_serialized(v) + extra) == Some(v),
{
    lemma_auto_spec_u32_to_from_le_bytes();
    let s = spec_serialized(v) + extra;
    let lb = spec_u32_to_le_bytes(v.url.len() as u32);
    assert(lb.len() == 4);
    assert(s.len() == 69 + v.url.len() + extra.len());
    assert(s.subrange(65, 69) =~= lb);
    assert(spec_u32_from_le_bytes(s.subrange(65, 69)) == v.url.len() as u32);
    let n = spec_u32_from_le_bytes(s.subrange(65, 69)) as int;
    assert(n == v.url.len());
    assert(s.subrange(1, 33) =~= v.owner);
    assert(s.subrange(33, 65) =~= v.token);
    assert(s.subrange(69, 69 + n) =~= v.url);
    assert(spec_decode(s) matches Some(w) && w =~= v);
}

/// Round trip: serializing a board record and decoding the resulting bytes
/// reproduces the identical record, for any pair of 32-byte owner and token
/// identifiers and any UTF-8 URL whose length fits its four-byte field.
pub proof fn lemma_serialize_round_trip(v: BoardV)
    requires
        wf_board(v),
        v.url.len() <= u32::MAX,
    ensures
        spec_decode(spec_serialized(v)) == Some(v),
{
    lemma_serialized_decodes(v, Seq::empty());
    assert(spec_serialized(v) + Seq::empty() =~= spec_serialized(v));
}

/// Build the board record for `owner` and `token` and serialize it into
/// `storage` in place; storage bytes past the record keep their old value.
///
/// Fails with `SerializationFailure` exactly when the storage buffer is
/// smaller than the serialized record (or the URL's length cannot be
/// represented in its four-byte field), in which case the storage is left
/// unchanged. An already-initialized record in `storage` is overwritten:
/// no re-initialization guard exists here.
pub fn write_board(storage: &mut Vec<u8>, owner: &Vec<u8>, token: &Vec<u8>, url: &Vec<u8>) -> (r:
    Result<(), BoardError>)
    requires
        owner@.len() == 32,
        token@.len() == 32,
        valid_utf8(url@),
    ensures
        match r {
            Ok(()) => {
                &&& url@.len() <= u32::MAX
                &&& old(storage)@.len() >= 69 + url@.len()
                &&& final(storage)@ == spec_serialized(
                    (BoardV { is_initialized: true, owner: owner@, token: token@, url: url@ }),
                ) + old(storage)@.skip(69 + url@.len() as int)
                &&& final(storage)@.len() == old(storage)@.len()
            },
            Err(e) => {
                &&& e == BoardError::SerializationFailure
                &&& final(storage)@ == old(storage)@
                &&& (url@.len() > u32::MAX || old(storage)@.len() < 69 + url@.len())
            },
        },
{
    if url.len() > u32::MAX as usize {
        return Err(BoardError::SerializationFailure);
    }
    if storage.len() < RECORD_HEADER_LEN || storage.len() - RECORD_HEADER_LEN < url.len() {
        return Err(BoardError::SerializationFailure);
    }
    let mut out = serialize_parts(true, owner, token, url);
    let ghost base = out@;
    let total = storage.len();
    let rec_len = out.len();
    let mut k: usize = rec_len;
    while k < total
        invariant
            rec_len <= k <= total,
            out@.len() == k,
            total == storage@.len(),
            storage@ == old(storage)@,
            out@ == base + storage@.subrange(rec_len as int, k as int),
            base.len() == rec_len,
        decreases total - k,
    {
        out.push(storage[k]);
        proof {
            assert(out@ =~= base + storage@.subrange(rec_len as int, k + 1));
        }
        k += 1;
    }
    proof {
        assert(out@ =~= base + old(storage)@.skip(rec_len as int));
    }
    *storage = out;
    Ok(())
}

} // verus!
