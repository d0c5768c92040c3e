use vstd::prelude::*;

verus! {

/// Failures reported when a quote record or an indicator is constructed.
#[derive(Debug, Clone, Copy, PartialEq, Eq, Structural)]
pub enum TaError {
    /// At least one of the five quote fields was never supplied.
    DataItemIncomplete,
    /// All quote fields were supplied but they are mutually inconsistent.
    DataItemInvalid,
    /// A period or another construction parameter is outside its domain.
    InvalidParameter,
}

pub type Result<T> = core::result::Result<T, TaError>;

} // verus!
