use vstd::prelude::*;
use crate::access::{require_address, require_admin, require_signer};
use crate::accounts::{Account, AccountInfo, Context};
use crate::errors::PixelMarketErrorCode;
use crate::pda::address_view;
use crate::pubkey::Pubkey;
use crate::state::config::Config;

verus! {

/// The accounts of a call that replaces the operator of a record.
#[derive(Clone, Copy, Debug, PartialEq, Eq)]
pub struct ChangeOperator {
    /// The caller. It has to be the admin of the record and to co-sign.
    pub authority: AccountInfo,
    /// The record, under the address it was presented at.
    pub config_account: Account<Config>,
}

impl ChangeOperator {
    /// The verdict on the accounts, given the address that the record's admin
    /// and bump derive: the caller has signed, is the record's admin, and the
    /// record stands at the derived address. The first of these that fails
    /// names the error.
    pub open spec fn check(self, derived: Option<Seq<u8>>) -> Result<(), PixelMarketErrorCode> {
        if !self.authority.is_signer {
            Err(PixelMarketErrorCode::MissingSignature)
        } else if self.authority.key@ != self.config_account.data.admin@ {
            Err(PixelMarketErrorCode::OnlyAdmin)
        } else if derived != Some(self.config_account.key@) {
            Err(PixelMarketErrorCode::AddressDerivationMismatch)
        } else {
            Ok(())
        }
    }

    /// The accounts after the operator was replaced: nothing else differs.
    pub open spec fn applied(self, new_operator: Pubkey) -> ChangeOperator {
        ChangeOperator {
            config_account: Account {
                data: Config { operator: new_operator, ..self.config_account.data },
                ..self.config_account
            },
            ..self
        }
    }

    /// What a call comes to: the accounts after it, and its result. The
    /// operator is replaced where the verdict is `Ok`; a call that is refused
    /// leaves the accounts as they were.
    pub open spec fn outcome(self, derived: Option<Seq<u8>>, new_operator: Pubkey) -> (
        ChangeOperator,
        Result<(), PixelMarketErrorCode>,
    ) {
        match self.check(derived) {
            Ok(_) => (self.applied(new_operator), Ok(())),
            Err(e) => (self, Err(e)),
        }
    }

    /// Checks the accounts against the derived address.
    pub fn try_accounts(&self, derived: Option<Pubkey>) -> (res: Result<(), PixelMarketErrorCode>)
        ensures
            res == self.check(address_view(derived)),
    {
        match require_signer(&self.authority) {
            Ok(()) => match require_admin(&self.authority, &self.config_account.data) {
                Ok(()) => require_address(&self.config_account.key, derived),
                Err(e) => Err(e),
            },
            Err(e) => Err(e),
        }
    }

    /// Replaces the operator where the accounts pass, and leaves everything
    /// as it was where they do not.
    pub fn process(&mut self, derived: Option<Pubkey>, new_operator: Pubkey) -> (res: Result<
        (),
        PixelMarketErrorCode,
    >)
        ensures
            (*final(self), res) == old(self).outcome(address_view(derived), new_operator),
    {
        match self.try_accounts(derived) {
            Ok(()) => self.config_account.data.change_operator(new_operator),
            Err(e) => Err(e),
        }
    }

    /// Admin-gating: a caller that signed and is not the record's admin is
    /// turned away with `OnlyAdmin`, and the accounts stay as they were,
    /// whatever address was derived and whatever operator was asked for.
    pub proof fn lemma_only_admin(self, derived: Option<Seq<u8>>, new_operator: Pubkey)
        requires
            self.authority.is_signer,
            self.authority.key@ != self.config_account.data.admin@,
        ensures
            self.outcome(derived, new_operator) == (
                self,
                Err::<(), PixelMarketErrorCode>(PixelMarketErrorCode::OnlyAdmin),
            ),
    {
    }

    /// Address binding: a record that its admin presents under another
    /// address than the one its admin and bump derive is refused with
    /// `AddressDerivationMismatch`, and the accounts stay as they were.
    pub proof fn lemma_address_binding(self, derived: Option<Seq<u8>>, new_operator: Pubkey)
        requires
            self.authority.is_signer,
            self.authority.key@ == self.config_account.data.admin@,
            derived != Some(self.config_account.key@),
        ensures
            self.outcome(derived, new_operator) == (
                self,
                Err::<(), PixelMarketErrorCode>(PixelMarketErrorCode::AddressDerivationMismatch),
            ),
    {
    }

    /// Whatever the call, the admin, the bump, the price and the address of
    /// the record stay, and so does the caller; and the operator changes only
    /// for the admin, who signed, on a record at its derived address.
    pub proof fn lemma_changes_only_the_operator(
        self,
        derived: Option<Seq<u8>>,
        new_operator: Pubkey,
    )
        ensures
            ({
                let after = self.outcome(derived, new_operator).0;
                &&& after.authority == self.authority
                &&& after.config_account.key == self.config_account.key
                &&& after.config_account.data.admin == self.config_account.data.admin
                &&& after.config_account.data.bump == self.config_account.data.bump
                &&& after.config_account.data.price == self.config_account.data.price
                &&& after.config_account.data.operator != self.config_account.data.operator ==> {
                    &&& self.authority.is_signer
                    &&& self.authority.key@ == self.config_account.data.admin@
                    &&& derived == Some(self.config_account.key@)
                    &&& after.config_account.data.operator == new_operator
                }
            }),
    {
    }
}

/// What `exec` comes to on `ctx`: the outcome of the call for the address
/// that the record in `ctx` claims under the program of `ctx`.
pub open spec fn exec_outcome(ctx: Context<ChangeOperator>, new_operator: Pubkey) -> (
    Context<ChangeOperator>,
    Result<(), PixelMarketErrorCode>,
) {
    let (accounts, res) = ctx.accounts.outcome(
        ctx.accounts.config_account.derived_address(ctx.program_id),
        new_operator,
    );
    (Context { program_id: ctx.program_id, accounts }, res)
}

/// Replaces the operator of the record on behalf of its admin.
///
/// The address of the record is derived anew from the admin and the bump
/// stored in it, and compared with the address it was presented under.
pub fn exec(ctx: &mut Context<ChangeOperator>, new_operator: Pubkey) -> (res: Result<
    (),
    PixelMarketErrorCode,
>)
    ensures
        (*final(ctx), res) == exec_outcome(*old(ctx), new_operator),
{
    let derived = ctx.accounts.config_account.derive_address(&ctx.program_id);
    ctx.accounts.process(derived, new_operator)
}

} // verus!
