use vstd::prelude::*;

verus! {

/// Why an instruction was refused. Whatever the kind, the call leaves the
/// record untouched, moves no value and emits no notification.
#[derive(Clone, Copy, Debug, PartialEq, Eq, Structural)]
pub enum PixelMarketErrorCode {
    /// The caller of an admin-gated instruction is not the record's admin.
    OnlyAdmin,
    /// The operator account handed to a purchase is not the record's operator.
    WrongOperator,
    /// The address of the record account is not the one derived from the
    /// namespace tag, the admin and the bump.
    AddressDerivationMismatch,
    /// The address targeted by an initialization already holds a record.
    AlreadyInitialized,
    /// A party that has to co-sign the call did not.
    MissingSignature,
    /// The host refused the transfer; the field is the code it gave.
    TransferFailure(u64),
}

} // verus!
