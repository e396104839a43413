use vstd::prelude::*;

verus! {

/// The errors of trials and dispenses. `E` is the error type of the scale
/// driver.
#[derive(Debug)]
pub enum Error<E> {
    /// The requested kind of trial is not implemented.
    NotImplemented,
    /// The scale failed.
    Libra(E),
}

} // verus!
