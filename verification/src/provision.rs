use crate::account::{AccountV, AccountView};
use crate::bytes_util::copy_bytes;
use crate::error::BoardError;
use solana_program::account_info::AccountInfo;
use solana_program::pubkey::Pubkey;
use solana_program::rent::Rent;
use solana_program::sysvar::Sysvar;
use vstd::bytes::spec_u64_from_le_bytes;
use vstd::prelude::*;

verus! {

/// Number of storage bytes requested for a new board account.
///
/// The provisioner requests this fixed, compile-time size rather than the
/// serialized length of the record actually being written; whether the
/// record truly fits is checked at write time, where a URL too long for
/// the allocation surfaces as `SerializationFailure`.
pub const BOARD_RECORD_SPACE: u64 = 96;

/// The rent sysvar's fixed 32-byte address. Only an account at this
/// address carries the host's rent configuration.
pub const RENT_SYSVAR_ID: [u8; 32] = [
    6, 167, 213, 23, 25, 44, 92, 81, 33, 140, 201, 76, 61, 74, 241, 127, 88, 218, 238, 8, 155,
    161, 253, 68, 227, 219, 217, 138, 0, 0, 0, 0,
];

#[verifier::external_type_specification]
#[verifier::external_body]
pub struct ExRent(Rent);

/// A rent configuration as read from the rent sysvar account, paired with
/// its rental rate as a plain value. Only `read_rent` builds one, so
/// `rate` is always the configuration's own `lamports_per_byte_year`.
struct RentConfig {
    cfg: Rent,
    rate: u64,
}

/// When the provisioning stage is owed success: the rent calculator's
/// account carries the rent sysvar's address and at least the
/// configuration's 17 bytes (a little-endian u64 rate, an 8-byte exemption
/// threshold, a burn byte), and its rate is small enough that the cost
/// computation cannot overflow.
pub open spec fn spec_rent_usable(a: AccountV) -> bool {
    &&& a.key == RENT_SYSVAR_ID@
    &&& a.data.len() >= 17
    &&& spec_u64_from_le_bytes(a.data.subrange(0, 8)) as int <= u64::MAX as int / (
        128 + BOARD_RECORD_SPACE as int
    )
}

/// Relies on `Rent::from_account_info` (via the `Sysvar` trait) and the
/// rent wire layout: the call returns the configuration exactly when the
/// account's address is the rent sysvar's and the data holds at least the
/// configuration's 17 bytes, read fixed-width little-endian with trailing
/// bytes ignored; any eight-byte pattern is a valid threshold and any byte
/// a valid burn value, so no further input is rejected. The rate paired
/// with the configuration is its own `lamports_per_byte_year`: the u64
/// read from the first eight data bytes.
#[verifier::external_body]
fn read_rent(key: &Vec<u8>, data: &Vec<u8>) -> (r: Option<RentConfig>)
    requires
        key@.len() == 32,
    ensures
        (r is Some) == (key@ == RENT_SYSVAR_ID@ && data@.len() >= 17),
        r matches Some(c) ==> c.rate == spec_u64_from_le_bytes(data@.subrange(0, 8)),
{
    let arr: [u8; 32] = match key.as_slice().try_into() {
        Ok(a) => a,
        Err(_) => return None,
    };
    let pk = Pubkey::new_from_array(arr);
    let owner = Pubkey::default();
    let mut lamports: u64 = 0;
    let mut buf = data.clone();
    let info = AccountInfo::new(&pk, false, false, &mut lamports, buf.as_mut_slice(), &owner, false, 0);
    match <Rent as Sysvar>::from_account_info(&info) {
        Ok(cfg) => Some(RentConfig { rate: cfg.lamports_per_byte_year, cfg }),
        Err(_) => None,
    }
}

/// Relies on `Rent::minimum_balance`: the smallest balance that keeps an
/// account of `space` bytes persistent under the given configuration. The
/// host multiplies the configuration's rate by `space` plus a fixed
/// overhead of 128 bytes in u64 before applying its floating-point rule,
/// which this library does not restate, so nothing is assumed about the
/// returned amount; the `requires` keeps that product within u64, so the
/// call cannot overflow (`rate` is the configuration's own, see
/// `RentConfig`).
#[verifier::external_body]
fn rent_minimum_balance(rent: &RentConfig, space: u64) -> (r: u64)
    requires
        space as int <= u64::MAX as int - 128,
        rent.rate as int <= u64::MAX as int / (128 + space as int),
{
    rent.cfg.minimum_balance(space as usize)
}

/// The request the handler hands the account-creation primitive: create
/// `new_account` with `lamports` starting balance and `space` bytes of
/// storage, owned by `owner_program` and paid for by `payer`.
#[derive(Debug)]
pub struct ProvisionPlan {
    /// 32-byte address of the account that funds the creation.
    pub payer: Vec<u8>,
    /// 32-byte address of the account to create.
    pub new_account: Vec<u8>,
    /// Starting balance for the new account.
    pub lamports: u64,
    /// Number of storage bytes to allocate.
    pub space: u64,
    /// 32-byte address of the program that will own the new account.
    pub owner_program: Vec<u8>,
}

/// Mathematical image of a creation request.
#[verifier::ext_equal]
pub ghost struct PlanV {
    pub payer: Seq<u8>,
    pub new_account: Seq<u8>,
    pub lamports: u64,
    pub space: u64,
    pub owner_program: Seq<u8>,
}

impl View for ProvisionPlan {
    type V = PlanV;

    open spec fn view(&self) -> PlanV {
        PlanV {
            payer: self.payer@,
            new_account: self.new_account@,
            lamports: self.lamports,
            space: self.space,
            owner_program: self.owner_program@,
        }
    }
}

/// Assemble the creation request once the cost calculator has answered:
/// whatever balance `lamports` the calculator named, the rest of the plan
/// is pinned to the payer, the new account, the owning program, and the
/// fixed record space.
pub fn plan_with_min_balance(
    program_id: &Vec<u8>,
    payer_key: &Vec<u8>,
    new_account_key: &Vec<u8>,
    lamports: u64,
) -> (p: ProvisionPlan)
    ensures
        p@ == (PlanV {
            payer: payer_key@,
            new_account: new_account_key@,
            lamports,
            space: BOARD_RECORD_SPACE,
            owner_program: program_id@,
        }),
{
    let p = ProvisionPlan {
        payer: copy_bytes(payer_key),
        new_account: copy_bytes(new_account_key),
        lamports,
        space: BOARD_RECORD_SPACE,
        owner_program: copy_bytes(program_id),
    };
    proof {
        assert(p@ =~= (PlanV {
            payer: payer_key@,
            new_account: new_account_key@,
            lamports,
            space: BOARD_RECORD_SPACE,
            owner_program: program_id@,
        }));
    }
    p
}

/// Compute the storage size and cost for a new board and assemble the
/// creation request.
///
/// Succeeds exactly when the rent calculator is usable (see
/// `spec_rent_usable`): its account carries the rent sysvar's address, at
/// least the configuration's 17 bytes, and a rate with which the cost
/// computation cannot overflow. Otherwise the provisioning stage fails
/// with `ProvisioningFailure`. Whatever balance the calculator answers,
/// the rest of the plan is pinned.
pub fn plan_board_account(
    program_id: &Vec<u8>,
    payer: &AccountView,
    new_account: &AccountView,
    rent_account: &AccountView,
) -> (r: Result<ProvisionPlan, BoardError>)
    requires
        rent_account.wf(),
    ensures
        match r {
            Ok(p) => {
                &&& spec_rent_usable(rent_account@)
                &&& p@.payer == payer@.key
                &&& p@.new_account == new_account@.key
                &&& p@.space == BOARD_RECORD_SPACE
                &&& p@.owner_program == program_id@
            },
            Err(e) => {
                &&& e == BoardError::ProvisioningFailure
                &&& !spec_rent_usable(rent_account@)
            },
        },
{
    let rent = match read_rent(&rent_account.key, &rent_account.data) {
        Some(rent) => rent,
        None => {
            return Err(BoardError::ProvisioningFailure);
        },
    };
    // the calculator multiplies the rate by the size plus a fixed overhead
    // of 128 bytes; a configuration under which that product would not fit
    // a u64 is unusable
    if rent.rate > u64::MAX / (128 + BOARD_RECORD_SPACE) {
        return Err(BoardError::ProvisioningFailure);
    }
    let lamports = rent_minimum_balance(&rent, BOARD_RECORD_SPACE);
    Ok(plan_with_min_balance(program_id, &payer.key, &new_account.key, lamports))
}

} // verus!
