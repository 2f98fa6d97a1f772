use solana_program::program_pack::Pack;
use vstd::bytes::spec_u64_from_le_bytes;
use vstd::prelude::*;

verus! {

/// What the handler reads out of an external token-holding record: the
/// asset it records, who holds it, and the held amount. The holding
/// program's records carry more fields, but this handler needs no others.
pub struct TokenHolding {
    /// 32-byte identifier of the asset the holding records.
    pub mint: Vec<u8>,
    /// 32-byte identifier of the holder.
    pub owner: Vec<u8>,
    /// The held amount.
    pub amount: u64,
}

/// Mathematical image of a token holding.
#[verifier::ext_equal]
pub ghost struct HoldingV {
    pub mint: Seq<u8>,
    pub owner: Seq<u8>,
    pub amount: u64,
}

impl View for TokenHolding {
    type V = HoldingV;

    open spec fn view(&self) -> HoldingV {
        HoldingV { mint: self.mint@, owner: self.owner@, amount: self.amount }
    }
}

/// A well-formed optional-field marker in the holding layout: four
/// little-endian bytes holding 0 (field absent) or 1 (field present).
pub open spec fn coption_tag_valid(s: Seq<u8>) -> bool {
    s.len() == 4 && (s[0] == 0 || s[0] == 1) && s[1] == 0 && s[2] == 0 && s[3] == 0
}

/// What decoding a holding account's raw bytes yields, per the holding
/// program's fixed 165-byte layout: the mint at 0..32, the holder at
/// 32..64, the amount as a little-endian u64 at 64..72, an optional
/// delegate at 72..108, a state byte at 108 (0 uninitialized,
/// 1 initialized, 2 frozen), an optional native marker at 109..121, a
/// delegated amount at 121..129 and an optional close authority at
/// 129..165. Decoding fails unless the buffer is exactly 165 bytes long,
/// every optional-field marker is well formed, and the state byte marks an
/// initialized (or frozen) holding.
pub open spec fn spec_token_holding(data: Seq<u8>) -> Option<HoldingV> {
    if data.len() != 165 {
        None
    } else if !coption_tag_valid(data.subrange(72, 76)) {
        None
    } else if data[108] != 1 && data[108] != 2 {
        None
    } else if !coption_tag_valid(data.subrange(109, 113)) {
        None
    } else if !coption_tag_valid(data.subrange(129, 133)) {
        None
    } else {
        Some(
            HoldingV {
                mint: data.subrange(0, 32),
                owner: data.subrange(32, 64),
                amount: spec_u64_from_le_bytes(data.subrange(64, 72)),
            },
        )
    }
}

/// Relies on `spl_token::state::Account::unpack`: it decodes a holding
/// exactly from a 165-byte buffer whose optional-field markers are well
/// formed and whose state byte marks an initialized (or frozen) holding,
/// reading the mint, the holder and the little-endian amount from the
/// fixed offsets that `spec_token_holding` states; every other input is
/// rejected.
#[verifier::external_body]
pub(crate) fn unpack_token_holding(data: &Vec<u8>) -> (r: Option<TokenHolding>)
    ensures
        (r is Some) == (spec_token_holding(data@) is Some),
        r matches Some(h) ==> Some(h@) == spec_token_holding(data@),
{
    match spl_token::state::Account::unpack(data.as_slice()) {
        Ok(a) => Some(
            TokenHolding {
                mint: a.mint.to_bytes().to_vec(),
                owner: a.owner.to_bytes().to_vec(),
                amount: a.amount,
            },
        ),
        Err(_) => None,
    }
}

} // verus!
