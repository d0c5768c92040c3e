use vstd::prelude::*;

use crate::errors::{Result, TaError};

verus! {

/// The five fields of a quote record, each present only once supplied.
///
/// This is the optional-until-built state of a quote builder: setting a field
/// replaces any earlier value of it, and nothing is checked until the fields
/// are taken out together.
#[derive(Clone, Copy, Debug, PartialEq, Eq, Structural)]
pub struct QuoteFields<T> {
    pub open: Option<T>,
    pub high: Option<T>,
    pub low: Option<T>,
    pub close: Option<T>,
    pub volume: Option<T>,
}

impl<T: Copy> QuoteFields<T> {
    /// Whether all five fields were supplied.
    pub open spec fn is_complete(&self) -> bool {
        &&& self.open is Some
        &&& self.high is Some
        &&& self.low is Some
        &&& self.close is Some
        &&& self.volume is Some
    }

    /// No field supplied yet.
    pub fn new() -> (r: Self)
        ensures
            r.open is None,
            r.high is None,
            r.low is None,
            r.close is None,
            r.volume is None,
    {
        QuoteFields { open: None, high: None, low: None, close: None, volume: None }
    }

    pub fn with_open(self, val: T) -> (r: Self)
        ensures
            r == (QuoteFields { open: Some(val), ..self }),
    {
        QuoteFields { open: Some(val), ..self }
    }

    pub fn with_high(self, val: T) -> (r: Self)
        ensures
            r == (QuoteFields { high: Some(val), ..self }),
    {
        QuoteFields { high: Some(val), ..self }
    }

    pub fn with_low(self, val: T) -> (r: Self)
        ensures
            r == (QuoteFields { low: Some(val), ..self }),
    {
        QuoteFields { low: Some(val), ..self }
    }

    pub fn with_close(self, val: T) -> (r: Self)
        ensures
            r == (QuoteFields { close: Some(val), ..self }),
    {
        QuoteFields { close: Some(val), ..self }
    }

    pub fn with_volume(self, val: T) -> (r: Self)
        ensures
            r == (QuoteFields { volume: Some(val), ..self }),
    {
        QuoteFields { volume: Some(val), ..self }
    }

    /// The supplied fields as `(open, high, low, close, volume)`, or
    /// `DataItemIncomplete` when any of them is missing.
    pub fn complete(&self) -> (r: Result<(T, T, T, T, T)>)
        ensures
            r is Ok <==> self.is_complete(),
            r is Ok ==> r == Ok::<(T, T, T, T, T), TaError>(
                (
                    self.open.unwrap(),
                    self.high.unwrap(),
                    self.low.unwrap(),
                    self.close.unwrap(),
                    self.volume.unwrap(),
                ),
            ),
            r is Err ==> r == Err::<(T, T, T, T, T), TaError>(TaError::DataItemIncomplete),
    {
        match (self.open, self.high, self.low, self.close, self.volume) {
            (Some(open), Some(high), Some(low), Some(close), Some(volume)) => Ok(
                (open, high, low, close, volume),
            ),
            _ => Err(TaError::DataItemIncomplete),
        }
    }
}

} // verus!
