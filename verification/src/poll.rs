use vstd::prelude::*;

verus! {

/// Whether a value is there yet.
#[derive(PartialEq, Eq, Debug)]
pub enum Async<T> {
    /// The value is there.
    Ready(T),
    /// The value is still to come.
    NotReady,
}

} // verus!
