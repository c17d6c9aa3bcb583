use vstd::prelude::*;
use crate::accounts::AccountInfo;
use crate::errors::PixelMarketErrorCode;
use crate::pda::address_view;
use crate::pubkey::Pubkey;
use crate::state::config::Config;

verus! {

/// Passes exactly when the party co-signed the call.
pub fn require_signer(party: &AccountInfo) -> (res: Result<(), PixelMarketErrorCode>)
    ensures
        res == if party.is_signer {
            Ok::<(), PixelMarketErrorCode>(())
        } else {
            Err(PixelMarketErrorCode::MissingSignature)
        },
{
    if party.is_signer {
        Ok(())
    } else {
        Err(PixelMarketErrorCode::MissingSignature)
    }
}

/// Passes exactly when the caller is the admin stored in the record.
pub fn require_admin(caller: &AccountInfo, record: &Config) -> (res: Result<(), PixelMarketErrorCode>)
    ensures
        res == if caller.key@ == record.admin@ {
            Ok::<(), PixelMarketErrorCode>(())
        } else {
            Err(PixelMarketErrorCode::OnlyAdmin)
        },
{
    if caller.key == record.admin {
        Ok(())
    } else {
        Err(PixelMarketErrorCode::OnlyAdmin)
    }
}

/// Passes exactly when the account to be paid is the operator stored in the
/// record.
pub fn require_operator(payee: &AccountInfo, record: &Config) -> (res: Result<
    (),
    PixelMarketErrorCode,
>)
    ensures
        res == if payee.key@ == record.operator@ {
            Ok::<(), PixelMarketErrorCode>(())
        } else {
            Err(PixelMarketErrorCode::WrongOperator)
        },
{
    if payee.key == record.operator {
        Ok(())
    } else {
        Err(PixelMarketErrorCode::WrongOperator)
    }
}

/// Passes exactly when an address was derived and it is the address the
/// account was presented under.
pub fn require_address(key: &Pubkey, derived: Option<Pubkey>) -> (res: Result<
    (),
    PixelMarketErrorCode,
>)
    ensures
        res == if address_view(derived) == Some(key@) {
            Ok::<(), PixelMarketErrorCode>(())
        } else {
            Err(PixelMarketErrorCode::AddressDerivationMismatch)
        },
{
    match derived {
        Some(address) => {
            if address == *key {
                Ok(())
            } else {
                Err(PixelMarketErrorCode::AddressDerivationMismatch)
            }
        },
        None => Err(PixelMarketErrorCode::AddressDerivationMismatch),
    }
}

} // verus!
