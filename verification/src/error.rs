//! Why a message cannot be rebuilt.

use vstd::prelude::*;

verus! {

/// Why a header has no place in the rebuilt message.
#[derive(Clone, Copy, Debug, PartialEq, Eq)]
pub enum HeaderFault {
    /// An address of the header lacks its address string.
    MissingAddress,
    /// The value is a group of addresses.
    Group,
    /// The value is a list of groups of addresses.
    GroupList,
    /// The header has no value.
    Empty,
}

/// Why the reconstruction of a message stopped.
#[derive(Clone, Copy, Debug, PartialEq, Eq)]
pub enum ReconstructError {
    /// The header at `index` cannot be carried over.
    Header { index: usize, fault: HeaderFault },
    /// The message has no text body.
    MissingTextBody,
    /// The message has no identifier.
    MissingMessageId,
}

/// The view of what a function returned: that of the value, or the error.
pub open spec fn result_view<T: DeepView, E>(result: Result<T, E>) -> Result<T::V, E> {
    match result {
        Ok(value) => Ok(value.deep_view()),
        Err(error) => Err(error),
    }
}

} // verus!
