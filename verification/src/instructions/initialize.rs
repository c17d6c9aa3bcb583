use vstd::prelude::*;
use crate::access::{require_address, require_signer};
use crate::accounts::{Account, AccountInfo, Context};
use crate::errors::PixelMarketErrorCode;
use crate::pda::{
    address_view, canonical_config_address, config_address, derive_config_address,
    find_config_address, found_view,
};
use crate::pubkey::Pubkey;
use crate::state::config::Config;

verus! {

/// The accounts of a call that creates the record of an admin.
#[derive(Clone, Copy, Debug, PartialEq, Eq)]
pub struct Initialize {
    /// Who pays for the storage. It has to co-sign.
    pub fee_payer: AccountInfo,
    /// The admin of the record to be. It has to co-sign.
    pub authority: AccountInfo,
    /// The account the record goes to, with what the storage holds there:
    /// `None` while no record was created at this address.
    pub config_account: Account<Option<Config>>,
}

impl Initialize {
    /// The verdict on the accounts, given the address and bump found for the
    /// admin and the address that the admin and `bump` derive: both parties
    /// have signed; the account stands at the address found, `bump` is the
    /// bump found, and it derives that address; and the account holds no
    /// record yet. The first of these that fails names the error.
    pub open spec fn check(
        self,
        found: Option<(Seq<u8>, u8)>,
        derived: Option<Seq<u8>>,
        bump: u8,
    ) -> Result<(), PixelMarketErrorCode> {
        if !self.fee_payer.is_signer || !self.authority.is_signer {
            Err(PixelMarketErrorCode::MissingSignature)
        } else if found != Some((self.config_account.key@, bump)) || derived != Some(
            self.config_account.key@,
        ) {
            Err(PixelMarketErrorCode::AddressDerivationMismatch)
        } else if self.config_account.data is Some {
            Err(PixelMarketErrorCode::AlreadyInitialized)
        } else {
            Ok(())
        }
    }

    /// The accounts after the record was created: the account holds the
    /// record with the caller as admin and the other values as given.
    pub open spec fn applied(self, bump: u8, operator: Pubkey, price: u64) -> Initialize {
        Initialize {
            config_account: Account {
                data: Some(Config { bump: [bump], admin: self.authority.key, operator, price }),
                ..self.config_account
            },
            ..self
        }
    }

    /// What a call comes to: the accounts after it, and its result. The
    /// record is created where the verdict is `Ok`; a call that is refused
    /// leaves the accounts as they were.
    pub open spec fn outcome(
        self,
        found: Option<(Seq<u8>, u8)>,
        derived: Option<Seq<u8>>,
        bump: u8,
        operator: Pubkey,
        price: u64,
    ) -> (Initialize, Result<(), PixelMarketErrorCode>) {
        match self.check(found, derived, bump) {
            Ok(_) => (self.applied(bump, operator, price), Ok(())),
            Err(e) => (self, Err(e)),
        }
    }

    /// Checks the accounts against the address and bump found for the admin
    /// and the address derived from the admin and `bump`.
    pub fn try_accounts(
        &self,
        found: Option<(Pubkey, u8)>,
        derived: Option<Pubkey>,
        bump: u8,
    ) -> (res: Result<(), PixelMarketErrorCode>)
        ensures
            res == self.check(found_view(found), address_view(derived), bump),
    {
        match require_signer(&self.fee_payer) {
            Ok(()) => {},
            Err(e) => {
                return Err(e);
            },
        }
        match require_signer(&self.authority) {
            Ok(()) => {},
            Err(e) => {
                return Err(e);
            },
        }
        match found {
            Some((address, canonical)) => {
                if address != self.config_account.key || canonical != bump {
                    return Err(PixelMarketErrorCode::AddressDerivationMismatch);
                }
            },
            None => {
                return Err(PixelMarketErrorCode::AddressDerivationMismatch);
            },
        }
        match require_address(&self.config_account.key, derived) {
            Ok(()) => {},
            Err(e) => {
                return Err(e);
            },
        }
        if self.config_account.data.is_some() {
            return Err(PixelMarketErrorCode::AlreadyInitialized);
        }
        Ok(())
    }

    /// Creates the record where the accounts pass, and leaves everything as
    /// it was where they do not.
    pub fn process(
        &mut self,
        found: Option<(Pubkey, u8)>,
        derived: Option<Pubkey>,
        bump: u8,
        operator: Pubkey,
        price: u64,
    ) -> (res: Result<(), PixelMarketErrorCode>)
        ensures
            (*final(self), res) == old(self).outcome(
                found_view(found),
                address_view(derived),
                bump,
                operator,
                price,
            ),
    {
        match self.try_accounts(found, derived, bump) {
            Ok(()) => {
                let mut record = Config::zeroed();
                let res = record.init(bump, self.authority.key, operator, price);
                self.config_account.data = Some(record);
                res
            },
            Err(e) => Err(e),
        }
    }

    /// A call on an account that holds a record never succeeds, and leaves
    /// the record as it was.
    pub proof fn lemma_occupied_stays(
        self,
        found: Option<(Seq<u8>, u8)>,
        derived: Option<Seq<u8>>,
        bump: u8,
        operator: Pubkey,
        price: u64,
    )
        requires
            self.config_account.data is Some,
        ensures
            self.outcome(found, derived, bump, operator, price).0 == self,
            self.outcome(found, derived, bump, operator, price).1 is Err,
    {
    }

    /// One address for each admin: two calls that pass for the same address
    /// and bump found target the same account and bring the same bump.
    pub proof fn lemma_one_address(
        self,
        derived: Option<Seq<u8>>,
        bump: u8,
        other: Initialize,
        other_derived: Option<Seq<u8>>,
        other_bump: u8,
        found: Option<(Seq<u8>, u8)>,
    )
        requires
            self.check(found, derived, bump) is Ok,
            other.check(found, other_derived, other_bump) is Ok,
        ensures
            self.config_account.key == other.config_account.key,
            bump == other_bump,
    {
        Pubkey::lemma_view_injective(self.config_account.key, other.config_account.key);
    }
}

/// What `exec` comes to on `ctx`: the outcome of the call for the address
/// and bump found for the admin under the program of `ctx`, and for the
/// address that the admin and `bump` derive under it.
pub open spec fn exec_outcome(ctx: Context<Initialize>, bump: u8, operator: Pubkey, price: u64) -> (
    Context<Initialize>,
    Result<(), PixelMarketErrorCode>,
) {
    let (accounts, res) = ctx.accounts.outcome(
        canonical_config_address(ctx.accounts.authority.key@, ctx.program_id@),
        config_address(ctx.accounts.authority.key@, bump, ctx.program_id@),
        bump,
        operator,
        price,
    );
    (Context { program_id: ctx.program_id, accounts }, res)
}

/// Initialize uniqueness: once `exec` has created the record of an admin, a
/// second signed call for the same admin under the same program, on the
/// account as the first call left it, fails whatever values it brings:
/// with `AlreadyInitialized` where it brings the same bump, with
/// `AddressDerivationMismatch` where it brings another. The record keeps the
/// values of the first call.
pub proof fn lemma_second_call_fails(
    first: Context<Initialize>,
    bump: u8,
    operator: Pubkey,
    price: u64,
    second: Context<Initialize>,
    second_bump: u8,
    second_operator: Pubkey,
    second_price: u64,
)
    requires
        exec_outcome(first, bump, operator, price).1 is Ok,
        second.program_id == first.program_id,
        second.accounts.authority.key == first.accounts.authority.key,
        second.accounts.config_account == exec_outcome(
            first,
            bump,
            operator,
            price,
        ).0.accounts.config_account,
        second.accounts.fee_payer.is_signer,
        second.accounts.authority.is_signer,
    ensures
        exec_outcome(second, second_bump, second_operator, second_price) == (
            second,
            Err::<(), PixelMarketErrorCode>(
                if second_bump == bump {
                    PixelMarketErrorCode::AlreadyInitialized
                } else {
                    PixelMarketErrorCode::AddressDerivationMismatch
                },
            ),
        ),
        second.accounts.config_account.data == Some(
            Config { bump: [bump], admin: first.accounts.authority.key, operator, price },
        ),
{
}

/// Address binding: where `exec` succeeds, the account of the record stands
/// at the address that the namespace tag, the admin and `bump` derive, and
/// the record holds that admin and that bump: it claims the address it is
/// stored at.
pub proof fn lemma_created_record_is_bound(
    ctx: Context<Initialize>,
    bump: u8,
    operator: Pubkey,
    price: u64,
)
    requires
        exec_outcome(ctx, bump, operator, price).1 is Ok,
    ensures
        ({
            let created = exec_outcome(ctx, bump, operator, price).0.accounts.config_account;
            &&& created.key == ctx.accounts.config_account.key
            &&& created.data == Some(
                Config { bump: [bump], admin: ctx.accounts.authority.key, operator, price },
            )
            &&& config_address(ctx.accounts.authority.key@, bump, ctx.program_id@) == Some(
                created.key@,
            )
        }),
{
}

/// Creates the record of the admin that co-signs the call, at the address
/// found for that admin, and sets its values as given.
pub fn exec(ctx: &mut Context<Initialize>, bump: u8, operator: Pubkey, price: u64) -> (res: Result<
    (),
    PixelMarketErrorCode,
>)
    ensures
        (*final(ctx), res) == exec_outcome(*old(ctx), bump, operator, price),
{
    let found = find_config_address(&ctx.accounts.authority.key, &ctx.program_id);
    let derived = derive_config_address(&ctx.accounts.authority.key, bump, &ctx.program_id);
    ctx.accounts.process(found, derived, bump, operator, price)
}

} // verus!
