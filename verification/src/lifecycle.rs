use vstd::prelude::*;
use crate::accounts::{Account, AccountInfo, Context};
use crate::errors::PixelMarketErrorCode;
use crate::instructions::buy::Buy;
use crate::instructions::change_operator::ChangeOperator;
use crate::instructions::initialize::Initialize;
use crate::instructions::update_price::UpdatePrice;
use crate::instructions::{change_operator, initialize, update_price};
use crate::pda::config_address;
use crate::pubkey::Pubkey;
use crate::state::config::Config;

verus! {

/// The call by which the admin of `record` replaces its operator, where the
/// record is presented under `key`.
pub open spec fn admin_changes_operator(program_id: Pubkey, key: Pubkey, record: Config) -> Context<
    ChangeOperator,
> {
    Context {
        program_id,
        accounts: ChangeOperator {
            authority: AccountInfo { key: record.admin, is_signer: true },
            config_account: Account { key, data: record },
        },
    }
}

/// The call by which the admin of `record` replaces its price, where the
/// record is presented under `key`.
pub open spec fn admin_updates_price(program_id: Pubkey, key: Pubkey, record: Config) -> Context<
    UpdatePrice,
> {
    Context {
        program_id,
        accounts: UpdatePrice {
            authority: AccountInfo { key: record.admin, is_signer: true },
            config_account: Account { key, data: record },
        },
    }
}

/// The call by which `buyer`, who signed, buys from the operator of `record`,
/// where the record is presented under `key`.
pub open spec fn buyer_pays_operator(
    program_id: Pubkey,
    key: Pubkey,
    record: Config,
    buyer: Pubkey,
) -> Context<Buy> {
    Context {
        program_id,
        accounts: Buy {
            authority: AccountInfo { key: buyer, is_signer: true },
            config_account: Account { key, data: record },
            operator_account: AccountInfo { key: record.operator, is_signer: false },
        },
    }
}

/// Address binding, from creation on: the record that a successful
/// `initialize` created is accepted by every later instruction that presents
/// it, as it was stored, under the address it was created at.
pub proof fn lemma_created_record_is_accepted(
    ctx: Context<Initialize>,
    bump: u8,
    operator: Pubkey,
    price: u64,
    new_operator: Pubkey,
    new_price: u64,
    buyer: Pubkey,
)
    requires
        initialize::exec_outcome(ctx, bump, operator, price).1 is Ok,
    ensures
        ({
            let key = ctx.accounts.config_account.key;
            let record = Config { bump: [bump], admin: ctx.accounts.authority.key, operator, price };
            let change = admin_changes_operator(ctx.program_id, key, record);
            let update = admin_updates_price(ctx.program_id, key, record);
            let buy = buyer_pays_operator(ctx.program_id, key, record, buyer);
            &&& initialize::exec_outcome(ctx, bump, operator, price).0.accounts.config_account
                == Account { key, data: Some(record) }
            &&& change_operator::exec_outcome(change, new_operator).1 is Ok
            &&& update_price::exec_outcome(update, new_price).1 is Ok
            &&& buy.accounts.check(buy.accounts.config_account.derived_address(buy.program_id))
                is Ok
        }),
{
}

/// Address binding, for every later call: a record whose admin and bump do
/// not derive the address it is presented under is refused with
/// `AddressDerivationMismatch` by every instruction that loads it, and stays
/// as it was. So a record that was created under one bump and is presented
/// with another is accepted only if that other bump derives the same
/// address.
pub proof fn lemma_unbound_record_is_refused(
    program_id: Pubkey,
    key: Pubkey,
    record: Config,
    new_operator: Pubkey,
    new_price: u64,
    buyer: Pubkey,
)
    requires
        config_address(record.admin@, record.bump[0], program_id@) != Some(key@),
    ensures
        ({
            let change = admin_changes_operator(program_id, key, record);
            let update = admin_updates_price(program_id, key, record);
            let buy = buyer_pays_operator(program_id, key, record, buyer);
            let mismatch = Err::<(), PixelMarketErrorCode>(
                PixelMarketErrorCode::AddressDerivationMismatch,
            );
            &&& change_operator::exec_outcome(change, new_operator) == (change, mismatch)
            &&& update_price::exec_outcome(update, new_price) == (update, mismatch)
            &&& buy.accounts.check(buy.accounts.config_account.derived_address(buy.program_id))
                == mismatch
        }),
{
}

/// The admin of a record never changes: neither instruction that writes a
/// record touches the admin, the bump or the address, whoever calls.
pub proof fn lemma_admin_never_changes(
    change: Context<ChangeOperator>,
    new_operator: Pubkey,
    update: Context<UpdatePrice>,
    new_price: u64,
)
    ensures
        ({
            let changed = change_operator::exec_outcome(change, new_operator).0;
            let updated = update_price::exec_outcome(update, new_price).0;
            &&& changed.program_id == change.program_id
            &&& changed.accounts.config_account.key == change.accounts.config_account.key
            &&& changed.accounts.config_account.data.admin
                == change.accounts.config_account.data.admin
            &&& changed.accounts.config_account.data.bump
                == change.accounts.config_account.data.bump
            &&& updated.program_id == update.program_id
            &&& updated.accounts.config_account.key == update.accounts.config_account.key
            &&& updated.accounts.config_account.data.admin
                == update.accounts.config_account.data.admin
            &&& updated.accounts.config_account.data.bump
                == update.accounts.config_account.data.bump
        }),
{
}

} // verus!
