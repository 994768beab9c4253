/* SPDX-License-Identifier: MIT
 * Copyright (c) 2023 Louis Mayencourt
 */

//! What is read back from the non-volatile storage: a text in a buffer that a
//! zero byte ends.

use vstd::prelude::*;
use crate::hardware::HardwareError;

verus! {

/// Size of the buffer into which a stored text is read.
pub const NVS_STRING_READ_BUFFER_SIZE: usize = 180;

/// Where the first zero byte of a buffer stands, if it holds one.
pub open spec fn first_nul(buffer: Seq<u8>, at: int) -> bool {
    &&& 0 <= at < buffer.len()
    &&& buffer[at] == 0
    &&& forall|k: int| 0 <= k < at ==> #[trigger] buffer[k] != 0
}

/// The length of the text in a buffer: where its first zero byte stands, or
/// `None` for a buffer that holds no zero byte.
pub fn text_length(buffer: &[u8]) -> (length: Option<usize>)
    ensures
        length matches Some(at) ==> first_nul(buffer@, at as int),
        length is None ==> forall|k: int| 0 <= k < buffer@.len() ==> #[trigger] buffer@[k] != 0,
{
    let mut at: usize = 0;
    while at < buffer.len()
        invariant
            at <= buffer@.len(),
            forall|k: int| 0 <= k < at ==> #[trigger] buffer@[k] != 0,
        decreases buffer@.len() - at,
    {
        if buffer[at] == 0 {
            return Some(at);
        }
        at = at + 1;
    }
    None
}

/// The bytes of the text in a buffer: those before its first zero byte.
///
/// # Errors
/// `HardwareError::OperationFailed` for a buffer that holds no zero byte:
/// the text did not fit.
pub fn text_bytes(buffer: &[u8]) -> (r: Result<Vec<u8>, HardwareError>)
    ensures
        r matches Ok(bytes) ==> first_nul(buffer@, bytes@.len() as int) && bytes@
            == buffer@.subrange(0, bytes@.len() as int),
        r is Err ==> r == Err::<Vec<u8>, HardwareError>(HardwareError::OperationFailed) && forall|
            k: int,
        |
            0 <= k < buffer@.len() ==> #[trigger] buffer@[k] != 0,
{
    match text_length(buffer) {
        None => Err(HardwareError::OperationFailed),
        Some(length) => {
            let mut bytes: Vec<u8> = Vec::new();
            let mut i: usize = 0;
            while i < length
                invariant
                    i <= length < buffer@.len(),
                    bytes@ == buffer@.subrange(0, i as int),
                decreases length - i,
            {
                bytes.push(buffer[i]);
                i = i + 1;
                proof {
                    assert(bytes@ == buffer@.subrange(0, i as int));
                }
            }
            Ok(bytes)
        },
    }
}

/// The credentials of a wireless network.
#[derive(Debug, PartialEq)]
pub struct WifiConfiguration {
    pub ssid: String,
    pub password: String,
}

impl WifiConfiguration {
    /// The credentials with the given name and password.
    pub fn new(ssid: &str, password: &str) -> (configuration: Self)
        ensures
            configuration.ssid@ == ssid@,
            configuration.password@ == password@,
    {
        Self { ssid: String::from_str(ssid), password: String::from_str(password) }
    }

    /// Whether credentials are stored, from the length under which the
    /// storage holds the network name: they are if the name is not empty.
    ///
    /// # Errors
    /// `HardwareError::OperationFailed` if the storage holds no name.
    pub fn do_exist(stored_length: Option<usize>) -> (r: Result<bool, HardwareError>)
        ensures
            r == (match stored_length {
                Some(length) => Ok::<bool, HardwareError>(length != 0),
                None => Err::<bool, HardwareError>(HardwareError::OperationFailed),
            }),
    {
        if let Some(len) = stored_length {
            Ok(len != 0)
        } else {
            Err(HardwareError::OperationFailed)
        }
    }
}

} // verus!
