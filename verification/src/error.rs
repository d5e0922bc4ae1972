use vstd::prelude::*;

verus! {

/// The failures a command or query can report.  Every error aborts the
/// whole command: no partial mutation is ever visible afterwards.
#[derive(Clone, Copy, Debug, PartialEq, Eq)]
pub enum ContractError {
    /// The caller is not the current owner.
    Unauthorized,
    /// The supplied identity string is not a well-formed address.
    InvalidAddress,
    /// Accumulation would exceed the integer width.
    ArithmeticOverflow,
    /// The configuration record is missing: the store was never initialized.
    NotFound,
}

} // verus!
