use crate::account::{AccountV, AccountView};
use crate::bytes_util::bytes_eq;
use crate::error::BoardError;
use crate::token::{spec_token_holding, unpack_token_holding};
use vstd::prelude::*;

verus! {

/// The authorization rule, as a pure predicate over supplied state.
///
/// The checks run in order and the first violation decides the error:
/// the sender must have signed; the holding account must be owned by the
/// declared holding program (otherwise its data cannot be trusted); the
/// holding's bytes must decode; and the decoded holding must belong to the
/// sender, record the requested asset, and hold a non-zero amount.
pub open spec fn spec_authorize(
    sender: AccountV,
    holding: AccountV,
    holding_program: AccountV,
    token: Seq<u8>,
) -> Result<(), BoardError> {
    if !sender.is_signer {
        Err(BoardError::MissingSignature)
    } else if holding.owner != holding_program.key {
        Err(BoardError::WrongOwnerProgram)
    } else {
        match spec_token_holding(holding.data) {
            None => Err(BoardError::MalformedTokenAccount),
            Some(h) => if h.owner != sender.key || h.mint != token || h.amount == 0 {
                Err(BoardError::UnauthorizedOrEmptyHolding)
            } else {
                Ok(())
            },
        }
    }
}

/// Enforce the authorization preconditions for creating a board.
///
/// Returns exactly what `spec_authorize` states. Three consequences are
/// spelled out separately below: a sender that did not sign is refused
/// with `MissingSignature` no matter what every other field holds, and a
/// holding that records a different asset, or records a zero amount, is
/// refused with `UnauthorizedOrEmptyHolding`.
pub fn authorize(
    sender: &AccountView,
    holding: &AccountView,
    holding_program: &AccountView,
    token: &Vec<u8>,
) -> (r: Result<(), BoardError>)
    ensures
        r == spec_authorize(sender@, holding@, holding_program@, token@),
        !sender@.is_signer ==> r == Err::<(), BoardError>(BoardError::MissingSignature),
        ({
            &&& sender@.is_signer
            &&& holding@.owner == holding_program@.key
            &&& spec_token_holding(holding@.data) matches Some(h)
            &&& h.owner == sender@.key
            &&& h.mint == token@
            &&& h.amount == 0
        }) ==> r == Err::<(), BoardError>(BoardError::UnauthorizedOrEmptyHolding),
        ({
            &&& sender@.is_signer
            &&& holding@.owner == holding_program@.key
            &&& spec_token_holding(holding@.data) matches Some(h)
            &&& h.mint != token@
        }) ==> r == Err::<(), BoardError>(BoardError::UnauthorizedOrEmptyHolding),
{
    if !sender.is_signer {
        return Err(BoardError::MissingSignature);
    }
    if !bytes_eq(&holding.owner, &holding_program.key) {
        return Err(BoardError::WrongOwnerProgram);
    }
    match unpack_token_holding(&holding.data) {
        None => Err(BoardError::MalformedTokenAccount),
        Some(h) => {
            if !bytes_eq(&h.owner, &sender.key) || !bytes_eq(&h.mint, token) || h.amount == 0 {
                Err(BoardError::UnauthorizedOrEmptyHolding)
            } else {
                Ok(())
            }
        },
    }
}

} // verus!
