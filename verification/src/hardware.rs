/* SPDX-License-Identifier: MIT
 * Copyright (c) 2023 Louis Mayencourt
 */

//! The error that the device's collaborators report.

use vstd::prelude::*;

verus! {

/// Failure of a collaborator to carry out an operation.
#[derive(Debug, PartialEq, Eq, Structural, Clone, Copy)]
pub enum HardwareError {
    /// The hardware, the network or the storage did not carry out the
    /// operation.
    OperationFailed,
    /// The operation was refused because of the value it was given.
    InvalidArgument,
}

} // verus!
