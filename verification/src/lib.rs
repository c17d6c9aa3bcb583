//! A pricing registry gated by identity.
//!
//! Each admin has one configuration record, stored at an address derived
//! from a namespace tag, the admin and a bump. The admin alone replaces the
//! operator and the price of its record; a purchase pays the price to the
//! operator and is announced once the host has moved the value.
//!
//! The functions here decide; they take what the runtime presents of a call
//! as plain values and say what is to be stored, transferred and emitted.

use vstd::prelude::*;

pub mod access;
pub mod accounts;
pub mod constants;
pub mod errors;
pub mod instructions;
pub mod lifecycle;
pub mod pda;
pub mod pubkey;
pub mod state;
pub mod system_instruction;

pub use crate::accounts::{Account, AccountInfo, Context};
pub use crate::errors::PixelMarketErrorCode;
pub use crate::instructions::buy::{Buy, BuyEvent, Purchase};
pub use crate::instructions::change_operator::ChangeOperator;
pub use crate::instructions::initialize::Initialize;
pub use crate::instructions::update_price::UpdatePrice;
pub use crate::pubkey::Pubkey;
pub use crate::state::config::Config;

verus! {

/// The instruction that creates the record of an admin.
pub fn initialize(ctx: &mut Context<Initialize>, bump: u8, operator: Pubkey, price: u64) -> (res:
    Result<(), PixelMarketErrorCode>)
    ensures
        (*final(ctx), res) == instructions::initialize::exec_outcome(
            *old(ctx),
            bump,
            operator,
            price,
        ),
{
    instructions::initialize::exec(ctx, bump, operator, price)
}

/// The instruction that replaces the operator of a record.
pub fn change_operator(ctx: &mut Context<ChangeOperator>, new_operator: Pubkey) -> (res: Result<
    (),
    PixelMarketErrorCode,
>)
    ensures
        (*final(ctx), res) == instructions::change_operator::exec_outcome(*old(ctx), new_operator),
{
    instructions::change_operator::exec(ctx, new_operator)
}

/// The instruction that replaces the price of a record.
pub fn update_price(ctx: &mut Context<UpdatePrice>, new_price: u64) -> (res: Result<
    (),
    PixelMarketErrorCode,
>)
    ensures
        (*final(ctx), res) == instructions::update_price::exec_outcome(*old(ctx), new_price),
{
    instructions::update_price::exec(ctx, new_price)
}

/// The instruction that prepares a purchase; `Purchase::settle` closes it
/// once the host has answered the transfer.
pub fn buy(ctx: &Context<Buy>, id: String) -> (res: Result<Purchase, PixelMarketErrorCode>)
    ensures
        ctx.accounts.yields(ctx.accounts.config_account.derived_address(ctx.program_id), id, res),
{
    instructions::buy::exec(ctx, id)
}

} // verus!
