//! One sample of a recording: a measured value and the moment it was taken.

use vstd::prelude::*;

use crate::utils::DateTime;
use crate::value::Value;

verus! {

/// One retrieved recording sample.
#[derive(Clone, Copy, Debug, PartialEq, Eq)]
pub struct RecordDataItem {
    pub value: Value,
    pub timestamp: DateTime,
}

} // verus!
