use vstd::prelude::*;
use crate::pda::{address_view, config_address, derive_config_address};
use crate::pubkey::Pubkey;
use crate::state::config::Config;

verus! {

/// A party to a call, as the runtime presents it: its address, and whether it
/// co-signed the call.
#[derive(Clone, Copy, Debug, PartialEq, Eq)]
pub struct AccountInfo {
    pub key: Pubkey,
    pub is_signer: bool,
}

/// An account that stores data of the program, as the runtime presents it:
/// its address, and what it holds.
#[derive(Copy, Debug, PartialEq, Eq)]
pub struct Account<T> {
    pub key: Pubkey,
    pub data: T,
}

impl<T: Clone> Clone for Account<T> {
    fn clone(&self) -> (res: Account<T>)
        ensures
            res.key == self.key,
    {
        Account { key: self.key, data: self.data.clone() }
    }
}

/// What an instruction runs on: the identity of the program and the accounts
/// of the call.
#[derive(Copy, Debug, PartialEq, Eq)]
pub struct Context<T> {
    pub program_id: Pubkey,
    pub accounts: T,
}

impl<T: Clone> Clone for Context<T> {
    fn clone(&self) -> (res: Context<T>)
        ensures
            res.program_id == self.program_id,
    {
        Context { program_id: self.program_id, accounts: self.accounts.clone() }
    }
}

impl Account<Config> {
    /// The address that the record claims for itself under the program
    /// `program_id`: the one derived from the admin and the bump stored in it.
    pub open spec fn derived_address(self, program_id: Pubkey) -> Option<Seq<u8>> {
        config_address(self.data.admin@, self.data.bump[0], program_id@)
    }

    /// Derives anew the address that the record claims for itself.
    pub fn derive_address(&self, program_id: &Pubkey) -> (res: Option<Pubkey>)
        ensures
            address_view(res) == self.derived_address(*program_id),
    {
        derive_config_address(&self.data.admin, self.data.bump[0], program_id)
    }
}

} // verus!
