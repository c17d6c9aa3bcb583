use vstd::prelude::*;
use vstd::bytes::spec_u64_to_le_bytes;
use crate::pubkey::Pubkey;

verus! {

/// One account that an instruction touches, and how.
#[derive(Clone, Copy, Debug, PartialEq, Eq)]
pub struct AccountMeta {
    pub pubkey: Pubkey,
    pub is_signer: bool,
    pub is_writable: bool,
}

/// A request to a program of the host: which program, on which accounts,
/// with which data.
#[derive(Debug, PartialEq, Eq)]
pub struct Instruction {
    pub program_id: Pubkey,
    pub accounts: Vec<AccountMeta>,
    pub data: Vec<u8>,
}

impl Clone for Instruction {
    fn clone(&self) -> (res: Instruction)
        ensures
            res.program_id == self.program_id,
            res.accounts@ == self.accounts@,
            res.data@ == self.data@,
    {
        let mut accounts: Vec<AccountMeta> = Vec::new();
        let mut i: usize = 0;
        while i < self.accounts.len()
            invariant
                i <= self.accounts.len(),
                accounts@ == self.accounts@.subrange(0, i as int),
            decreases self.accounts.len() - i,
        {
            accounts.push(self.accounts[i]);
            i += 1;
        }
        assert(self.accounts@.subrange(0, i as int) =~= self.accounts@);
        Instruction { program_id: self.program_id, accounts, data: self.data.clone() }
    }
}

/// The address of the host's system program, which moves native value:
/// thirty-two zero bytes.
pub open spec fn system_program_id() -> Seq<u8> {
    Seq::new(32, |i: int| 0u8)
}

/// The data of a transfer request: the number of the request among those
/// the system program takes, in four bytes, then the amount in eight, each
/// with its low byte first.
pub open spec fn transfer_data(lamports: u64) -> Seq<u8> {
    seq![2u8, 0u8, 0u8, 0u8] + spec_u64_to_le_bytes(lamports)
}

/// Whether `ix` asks the system program to move `lamports` units from
/// `from`, which signs and is debited, to `to`, which is credited.
pub open spec fn is_transfer(ix: Instruction, from: Pubkey, to: Pubkey, lamports: u64) -> bool {
    &&& ix.program_id@ == system_program_id()
    &&& ix.accounts@ == seq![
        AccountMeta { pubkey: from, is_signer: true, is_writable: true },
        AccountMeta { pubkey: to, is_signer: false, is_writable: true },
    ]
    &&& ix.data@ == transfer_data(lamports)
}

/// Calls `system_instruction::transfer` of `anchor_lang::solana_program`.
///
/// Trusted: the instruction it builds is addressed to the system program,
/// names the sender as a writable signer and the recipient as writable, in
/// this order, and carries the request number 2 and the amount, encoded as
/// `transfer_data` says.
#[verifier::external_body]
pub(crate) fn transfer(from: &Pubkey, to: &Pubkey, lamports: u64) -> (ix: Instruction)
    ensures
        is_transfer(ix, *from, *to, lamports),
{
    let sender = anchor_lang::prelude::Pubkey::new_from_array(from.bytes);
    let recipient = anchor_lang::prelude::Pubkey::new_from_array(to.bytes);
    let ix = anchor_lang::solana_program::system_instruction::transfer(&sender, &recipient, lamports);
    Instruction {
        program_id: Pubkey { bytes: ix.program_id.to_bytes() },
        accounts: ix.accounts.iter().map(|meta| AccountMeta {
            pubkey: Pubkey { bytes: meta.pubkey.to_bytes() },
            is_signer: meta.is_signer,
            is_writable: meta.is_writable,
        }).collect(),
        data: ix.data,
    }
}

} // verus!
