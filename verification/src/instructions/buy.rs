use vstd::prelude::*;
use crate::access::{require_address, require_operator, require_signer};
use crate::accounts::{Account, AccountInfo, Context};
use crate::errors::PixelMarketErrorCode;
use crate::pda::address_view;
use crate::pubkey::Pubkey;
use crate::state::config::Config;
use crate::system_instruction::{is_transfer, transfer, Instruction};

verus! {

/// The accounts of a purchase.
#[derive(Clone, Copy, Debug, PartialEq, Eq)]
pub struct Buy {
    /// The buyer. It has to co-sign, and it funds the transfer.
    pub authority: AccountInfo,
    /// The record, under the address it was presented at.
    pub config_account: Account<Config>,
    /// The account to be paid. It has to be the operator of the record.
    pub operator_account: AccountInfo,
}

/// The notification of a purchase.
#[derive(Debug, PartialEq, Eq)]
pub struct BuyEvent {
    /// What was bought, as the buyer named it.
    pub id: String,
}

/// A purchase that passed and waits for the host to move the value.
#[derive(Debug, PartialEq, Eq)]
pub struct Purchase {
    /// The transfer to ask of the host.
    pub transfer: Instruction,
    /// The notification to emit once the transfer is through.
    pub event: BuyEvent,
}

impl Clone for BuyEvent {
    fn clone(&self) -> (res: BuyEvent)
        ensures
            res == *self,
    {
        BuyEvent { id: self.id.clone() }
    }
}

impl Clone for Purchase {
    fn clone(&self) -> (res: Purchase)
        ensures
            res.transfer.program_id == self.transfer.program_id,
            res.transfer.accounts@ == self.transfer.accounts@,
            res.transfer.data@ == self.transfer.data@,
            res.event == self.event,
    {
        Purchase { transfer: self.transfer.clone(), event: self.event.clone() }
    }
}

impl Buy {
    /// The verdict on the accounts, given the address that the record's admin
    /// and bump derive: the buyer has signed, the record stands at the
    /// derived address, and the account to be paid is the record's operator.
    /// The first of these that fails names the error.
    pub open spec fn check(self, derived: Option<Seq<u8>>) -> Result<(), PixelMarketErrorCode> {
        if !self.authority.is_signer {
            Err(PixelMarketErrorCode::MissingSignature)
        } else if derived != Some(self.config_account.key@) {
            Err(PixelMarketErrorCode::AddressDerivationMismatch)
        } else if self.operator_account.key@ != self.config_account.data.operator@ {
            Err(PixelMarketErrorCode::WrongOperator)
        } else {
            Ok(())
        }
    }

    /// Whether `res` is what a purchase of `id` comes to. Where the accounts
    /// pass it is a purchase that transfers exactly the record's price from
    /// the buyer to the operator and notifies of `id`; where they do not it is
    /// the error of the verdict, and no transfer is asked for.
    pub open spec fn yields(
        self,
        derived: Option<Seq<u8>>,
        id: String,
        res: Result<Purchase, PixelMarketErrorCode>,
    ) -> bool {
        match self.check(derived) {
            Ok(_) => {
                &&& res matches Ok(purchase)
                &&& is_transfer(
                    purchase.transfer,
                    self.authority.key,
                    self.operator_account.key,
                    self.config_account.data.price,
                )
                &&& purchase.event.id == id
            },
            Err(e) => res == Err::<Purchase, PixelMarketErrorCode>(e),
        }
    }

    /// Checks the accounts against the derived address.
    pub fn try_accounts(&self, derived: Option<Pubkey>) -> (res: Result<(), PixelMarketErrorCode>)
        ensures
            res == self.check(address_view(derived)),
    {
        match require_signer(&self.authority) {
            Ok(()) => match require_address(&self.config_account.key, derived) {
                Ok(()) => require_operator(&self.operator_account, &self.config_account.data),
                Err(e) => Err(e),
            },
            Err(e) => Err(e),
        }
    }

    /// Prepares the purchase where the accounts pass. The record is only
    /// read.
    pub fn process(&self, derived: Option<Pubkey>, id: String) -> (res: Result<
        Purchase,
        PixelMarketErrorCode,
    >)
        ensures
            self.yields(address_view(derived), id, res),
    {
        match self.try_accounts(derived) {
            Ok(()) => {
                let transfer = transfer(
                    &self.authority.key,
                    &self.operator_account.key,
                    self.config_account.data.price,
                );
                Ok(Purchase { transfer, event: BuyEvent { id } })
            },
            Err(e) => Err(e),
        }
    }

    /// Operator-gating: where the buyer signed and the record stands at its
    /// derived address, an account to be paid that is not the record's
    /// operator is turned away with `WrongOperator`: nothing but that error
    /// comes back, so no transfer is asked for.
    pub proof fn lemma_wrong_operator(
        self,
        derived: Option<Seq<u8>>,
        id: String,
        res: Result<Purchase, PixelMarketErrorCode>,
    )
        requires
            self.authority.is_signer,
            derived == Some(self.config_account.key@),
            self.operator_account.key@ != self.config_account.data.operator@,
            self.yields(derived, id, res),
        ensures
            res == Err::<Purchase, PixelMarketErrorCode>(PixelMarketErrorCode::WrongOperator),
    {
    }

    /// Address binding: a record that a buyer who signed presents under
    /// another address than the one its admin and bump derive is refused
    /// with `AddressDerivationMismatch`, whoever is to be paid.
    pub proof fn lemma_address_binding(
        self,
        derived: Option<Seq<u8>>,
        id: String,
        res: Result<Purchase, PixelMarketErrorCode>,
    )
        requires
            self.authority.is_signer,
            derived != Some(self.config_account.key@),
            self.yields(derived, id, res),
        ensures
            res == Err::<Purchase, PixelMarketErrorCode>(
                PixelMarketErrorCode::AddressDerivationMismatch,
            ),
    {
    }
}

impl Purchase {
    /// What the purchase comes to, given what the host said of the transfer:
    /// the notification where the transfer went through, and the host's
    /// failure where it did not.
    pub open spec fn settled(self, outcome: Result<(), u64>) -> Result<
        BuyEvent,
        PixelMarketErrorCode,
    > {
        match outcome {
            Ok(_) => Ok(self.event),
            Err(code) => Err(PixelMarketErrorCode::TransferFailure(code)),
        }
    }

    /// Closes the purchase once the host has answered. The notification is
    /// handed out for emission only if the transfer went through; a failed
    /// transfer fails the purchase with the host's code, and nothing is
    /// emitted.
    pub fn settle(self, outcome: Result<(), u64>) -> (res: Result<BuyEvent, PixelMarketErrorCode>)
        ensures
            res == self.settled(outcome),
    {
        match outcome {
            Ok(_) => Ok(self.event),
            Err(code) => Err(PixelMarketErrorCode::TransferFailure(code)),
        }
    }

    /// Buy atomicity: a notification comes out exactly when the transfer
    /// went through, and it is the one that was prepared.
    pub proof fn lemma_emits_only_after_transfer(self, outcome: Result<(), u64>)
        ensures
            self.settled(outcome) is Ok <==> outcome is Ok,
            outcome is Ok ==> self.settled(outcome) == Ok::<BuyEvent, PixelMarketErrorCode>(
                self.event,
            ),
            outcome matches Err(code) ==> self.settled(outcome) == Err::<
                BuyEvent,
                PixelMarketErrorCode,
            >(PixelMarketErrorCode::TransferFailure(code)),
    {
    }
}

/// Checks a purchase and prepares it: the buyer pays the record's price to
/// the record's operator.
///
/// The address of the record is derived anew from the admin and the bump
/// stored in it, and compared with the address it was presented under.
pub fn exec(ctx: &Context<Buy>, id: String) -> (res: Result<Purchase, PixelMarketErrorCode>)
    ensures
        ctx.accounts.yields(ctx.accounts.config_account.derived_address(ctx.program_id), id, res),
{
    let derived = ctx.accounts.config_account.derive_address(&ctx.program_id);
    ctx.accounts.process(derived, id)
}

} // verus!
