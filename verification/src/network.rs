/* SPDX-License-Identifier: MIT
 * Copyright (c) 2023 Louis Mayencourt
 */

//! The network capability that the orchestrator connects through.

use vstd::prelude::*;
use crate::hardware::HardwareError;

verus! {

/// Interface to interact with network connection.
///
/// # Errors
/// The functions will return an error if the hardware fails to carry the
/// operation.
pub trait Network {
    /// Set the credentials of the network to join.
    fn configure(&mut self, ssid: &str, password: &str) -> Result<(), HardwareError>;

    /// Join the configured network.
    fn connect(&mut self) -> Result<(), HardwareError>;

    /// Leave the network.
    fn disconnect(&mut self) -> Result<(), HardwareError>;

    /// Whether the device is on the network.
    fn is_connected(&self) -> bool;

    /// Offer a network of the device's own under the given name.
    fn setup_access_point(&mut self, ssid: &str) -> Result<(), HardwareError>;
}

} // verus!
