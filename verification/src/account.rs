use vstd::prelude::*;

verus! {

/// One host-managed account, as the handler sees it: the fields the ledger
/// host hands a program for each account named by an instruction.
///
/// Write capability is conferred by data convention, not by the type system:
/// the handler must check the owning program of any account whose contents
/// it trusts.
#[derive(Clone)]
pub struct AccountView {
    /// The account's 32-byte address.
    pub key: Vec<u8>,
    /// Address of the program that owns the account and may rewrite its data.
    pub owner: Vec<u8>,
    /// Whether the transaction carries this account's signature.
    pub is_signer: bool,
    /// The account's raw data bytes.
    pub data: Vec<u8>,
}

/// Mathematical image of an account.
#[verifier::ext_equal]
pub ghost struct AccountV {
    pub key: Seq<u8>,
    pub owner: Seq<u8>,
    pub is_signer: bool,
    pub data: Seq<u8>,
}

impl View for AccountView {
    type V = AccountV;

    open spec fn view(&self) -> AccountV {
        AccountV {
            key: self.key@,
            owner: self.owner@,
            is_signer: self.is_signer,
            data: self.data@,
        }
    }
}

impl AccountView {
    /// Addresses on the host are exactly 32 bytes.
    pub open spec fn wf(&self) -> bool {
        self.key@.len() == 32 && self.owner@.len() == 32
    }
}

} // verus!
