/* SPDX-License-Identifier: MIT
 * Copyright (c) 2023 Louis Mayencourt
 */

//! The capability that fetches and installs a new firmware image.

use vstd::prelude::*;
use crate::hardware::HardwareError;
use crate::version::Version;

verus! {

/// Interface to perform a firmware update.
pub trait FirmwareUpdate {
    /// Return the version of the latest update available to download.
    ///
    /// # Errors
    /// Return an error if HTTP request or file parsing fails.
    fn read_update_version(&self) -> Result<Version, HardwareError>;

    /// Fetch the update and write it to the update partition.
    fn download_update(&self) -> Result<(), HardwareError>;

    /// Restart the device into the downloaded image.
    fn reboot_to_new_image(&self);
}

} // verus!
