//! A ledger instruction handler that provisions message boards.
//!
//! The handler accepts a single instruction, `CreateBoard`: after checking
//! that the caller signed the transaction and holds a non-zero balance of a
//! designated fungible asset, it plans the allocation of a fresh storage
//! account and serializes a board record into it.
//!
//! One invocation runs decode, validate, provision, write, in that order,
//! each stage short-circuiting the whole operation on failure. The two host
//! actions — executing the returned creation request and exposing the new
//! account's storage — stand between provisioning and writing and belong to
//! the embedding program, which calls [`process_instruction`] and then
//! [`state::write_board`].

use vstd::prelude::*;

pub mod account;
pub mod bytes_util;
pub mod error;
pub mod instruction;
pub mod provision;
pub mod state;
mod text;
pub mod token;
pub mod validate;

use crate::account::{AccountV, AccountView};
use crate::error::BoardError;
use crate::instruction::{spec_unpack, InstructionV, MessageBoardInstruction};
use crate::provision::{plan_board_account, spec_rent_usable, ProvisionPlan, BOARD_RECORD_SPACE};
use crate::state::{spec_decode, spec_serialized, wf_board, BoardV};
use crate::token::spec_token_holding;
use crate::validate::{authorize, spec_authorize};
use vstd::utf8::valid_utf8;

verus! {

/// What the handler promises at the provisioning hand-off, given the
/// decoded asset identifier: either authorization failed with its own
/// error; or it passed, and then the result is a pinned creation request
/// exactly when the rent calculator's account is usable, and
/// `ProvisioningFailure` exactly when it is not.
pub open spec fn spec_create_board_outcome(
    program_id: Seq<u8>,
    sender: AccountV,
    board: AccountV,
    holding: AccountV,
    holding_program: AccountV,
    rent: AccountV,
    token: Seq<u8>,
    r: Result<ProvisionPlan, BoardError>,
) -> bool {
    match r {
        Ok(p) => {
            &&& spec_authorize(sender, holding, holding_program, token) is Ok
            &&& spec_rent_usable(rent)
            &&& p@.payer == sender.key
            &&& p@.new_account == board.key
            &&& p@.space == BOARD_RECORD_SPACE
            &&& p@.owner_program == program_id
        },
        Err(e) => {
            ||| spec_authorize(sender, holding, holding_program, token) == Err::<(), BoardError>(e)
            ||| ({
                &&& spec_authorize(sender, holding, holding_program, token) is Ok
                &&& e == BoardError::ProvisioningFailure
                &&& !spec_rent_usable(rent)
            })
        },
    }
}

/// Authorize the caller's claim to `token` and plan the creation of one
/// board account.
///
/// The positional account contract is the interface: `accounts` holds, in
/// order, the sender (a signer), the board storage to create, the token
/// holding, the holding program, the account-creation primitive, and the
/// rent calculator. The creation primitive's account is passed through to
/// the host unread.
pub fn create_board(program_id: &Vec<u8>, accounts: &Vec<AccountView>, token: &Vec<u8>) -> (r:
    Result<ProvisionPlan, BoardError>)
    requires
        accounts@.len() >= 6,
        forall|k: int| 0 <= k < 6 ==> accounts@[k].wf(),
    ensures
        spec_create_board_outcome(
            program_id@,
            accounts@[0]@,
            accounts@[1]@,
            accounts@[2]@,
            accounts@[3]@,
            accounts@[5]@,
            token@,
            r,
        ),
{
    let sender = &accounts[0];
    let board_account = &accounts[1];
    let token_account = &accounts[2];
    let token_program = &accounts[3];
    let rent_sysvar_account = &accounts[5];
    match authorize(sender, token_account, token_program, token) {
        Err(e) => Err(e),
        Ok(()) => plan_board_account(program_id, sender, board_account, rent_sysvar_account),
    }
}

/// Handle one raw instruction against the supplied accounts: decode the
/// payload, authorize the caller, and plan the provisioning of the new
/// board.
///
/// On success the caller receives the decoded instruction together with
/// the creation request to perform; after executing the request it lays
/// the record down with [`state::write_board`], handing it the sender's
/// address and the instruction's asset identifier and URL.
pub fn process_instruction(
    program_id: &Vec<u8>,
    accounts: &Vec<AccountView>,
    instruction_data: &[u8],
) -> (r: Result<(MessageBoardInstruction, ProvisionPlan), BoardError>)
    requires
        accounts@.len() >= 6,
        forall|k: int| 0 <= k < 6 ==> accounts@[k].wf(),
    ensures
        match spec_unpack(instruction_data@) {
            None => r == Err::<(MessageBoardInstruction, ProvisionPlan), BoardError>(
                BoardError::MalformedInstruction,
            ),
            Some(iv) => match r {
                Ok((inst, p)) => inst@ == iv && inst.wf() && spec_create_board_outcome(
                    program_id@,
                    accounts@[0]@,
                    accounts@[1]@,
                    accounts@[2]@,
                    accounts@[3]@,
                    accounts@[5]@,
                    iv->CreateBoard_token,
                    Ok(p),
                ),
                Err(e) => spec_create_board_outcome(
                    program_id@,
                    accounts@[0]@,
                    accounts@[1]@,
                    accounts@[2]@,
                    accounts@[3]@,
                    accounts@[5]@,
                    iv->CreateBoard_token,
                    Err::<ProvisionPlan, BoardError>(e),
                ),
            },
        },
{
    let instruction = match MessageBoardInstruction::unpack(instruction_data) {
        Ok(i) => i,
        Err(e) => {
            return Err(e);
        },
    };
    let plan = match &instruction {
        MessageBoardInstruction::CreateBoard { token, url: _ } => {
            match create_board(program_id, accounts, token) {
                Ok(p) => p,
                Err(e) => {
                    return Err(e);
                },
            }
        },
    };
    Ok((instruction, plan))
}

/// The success law: for every well-formed payload — tag 0, a 32-byte asset
/// identifier, a UTF-8 URL that fits its length field — and every account
/// set where the sender signed, the holding account is owned by the
/// declared holding program, and the holding records the sender as holder
/// of a non-zero amount of the payload's asset: decoding yields the
/// payload's instruction, authorization passes, and the record the writer
/// lays down — initialized, owned by the sender, bound to the payload's
/// asset and URL — decodes back from storage to exactly that record,
/// whatever bytes trail it in the storage buffer.
pub proof fn lemma_create_board_success(
    payload: Seq<u8>,
    sender: AccountV,
    holding: AccountV,
    holding_program: AccountV,
    extra: Seq<u8>,
)
    requires
        payload.len() >= 33,
        payload.len() <= 33 + u32::MAX,
        payload[0] == 0,
        valid_utf8(payload.skip(33)),
        sender.is_signer,
        sender.key.len() == 32,
        holding.owner == holding_program.key,
        ({
            &&& spec_token_holding(holding.data) matches Some(h)
            &&& h.owner == sender.key
            &&& h.mint == payload.subrange(1, 33)
            &&& h.amount > 0
        }),
    ensures
        spec_unpack(payload) == Some(
            (InstructionV::CreateBoard { token: payload.subrange(1, 33), url: payload.skip(33) }),
        ),
        spec_authorize(sender, holding, holding_program, payload.subrange(1, 33)) is Ok,
        ({
            let board = BoardV {
                is_initialized: true,
                owner: sender.key,
                token: payload.subrange(1, 33),
                url: payload.skip(33),
            };
            spec_decode(spec_serialized(board) + extra) == Some(board)
        }),
{
    let board = BoardV {
        is_initialized: true,
        owner: sender.key,
        token: payload.subrange(1, 33),
        url: payload.skip(33),
    };
    assert(wf_board(board));
    crate::state::lemma_serialized_decodes(board, extra);
}

} // verus!
