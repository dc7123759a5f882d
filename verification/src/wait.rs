//! Waits that race an operation against the shutdown signal.

use vstd::prelude::*;

verus! {

/// How such a wait ended: the operation completed first, with its result,
/// or the shutdown signal came first and the operation was abandoned.
#[derive(Debug)]
pub enum Waited<T> {
    Completed(T),
    Shutdown,
}

} // verus!
