/* SPDX-License-Identifier: MIT
 * Copyright (c) 2023 Louis Mayencourt
 */

//! The rules of an over-the-air update: how the download of an image goes on
//! from one segment to the next, when it counts as complete, and the summary
//! that is logged of the slots and of the image.

use vstd::prelude::*;

verus! {

/// HTTP read buffer size.
pub const WRITE_DATA_BUF_SIZE: usize = 8196;

/// HTTP transmit buffer size.
pub const TX_BUF_SIZE: usize = 4096;

/// What is known of a firmware image.
#[derive(Debug, PartialEq)]
pub struct FirmwareInfo {
    pub version: String,
    pub released: String,
    pub description: Option<String>,
}

/// A partition that holds, or can take, a firmware image.
#[derive(Debug, PartialEq)]
pub struct Slot {
    pub label: String,
    pub firmware: Option<FirmwareInfo>,
}

/// What to do with a segment that was read.
#[derive(Debug, PartialEq, Eq, Structural, Clone, Copy)]
pub struct SegmentStep {
    /// Read the meta data of the image out of this segment and check it.
    pub check_header: bool,
    /// Write the segment to the update partition.
    pub write: bool,
    /// This was the last segment: stop reading.
    pub last: bool,
}

/// How far a download has come.
#[derive(Debug, PartialEq, Eq, Structural, Clone, Copy)]
pub struct Download {
    pub bytes_read_total: usize,
    pub image_header_was_checked: bool,
}

/// What to do with a segment of `data_read` bytes, read into a buffer of
/// `buffer_len` bytes, when the meta data of an image take `header_len`
/// bytes. The header is checked in the first segment that holds more than
/// the meta data; a segment is written unless it is empty; a segment that
/// does not fill the buffer is the last.
pub open spec fn segment_step(
    download: Download,
    data_read: usize,
    buffer_len: usize,
    header_len: usize,
) -> SegmentStep {
    SegmentStep {
        check_header: !download.image_header_was_checked && data_read > header_len,
        write: data_read > 0,
        last: buffer_len > data_read,
    }
}

/// The download after a segment of `data_read` bytes.
pub open spec fn after_segment(download: Download, data_read: usize, header_len: usize) -> Download {
    Download {
        bytes_read_total: if download.bytes_read_total + data_read <= usize::MAX {
            (download.bytes_read_total + data_read) as usize
        } else {
            usize::MAX
        },
        image_header_was_checked: download.image_header_was_checked || data_read > header_len,
    }
}

impl Download {
    /// A download of which nothing was read yet.
    pub fn new() -> (download: Self)
        ensures
            download == (Download { bytes_read_total: 0, image_header_was_checked: false }),
    {
        Download { bytes_read_total: 0, image_header_was_checked: false }
    }

    /// Take note of a segment that was read, and tell what to do with it: see
    /// `segment_step` and `after_segment`.
    pub fn segment_read(&mut self, data_read: usize, buffer_len: usize, header_len: usize) -> (step:
        SegmentStep)
        ensures
            step == segment_step(*old(self), data_read, buffer_len, header_len),
            *final(self) == after_segment(*old(self), data_read, header_len),
    {
        let check_header = !self.image_header_was_checked && data_read > header_len;
        if check_header {
            self.image_header_was_checked = true;
        }
        self.bytes_read_total = self.bytes_read_total.saturating_add(data_read);
        SegmentStep { check_header, write: data_read > 0, last: buffer_len > data_read }
    }

    /// Whether the download is complete: as many bytes were read as the
    /// server announced.
    pub fn is_complete(&self, content_length: usize) -> (complete: bool)
        ensures
            complete == (self.bytes_read_total == content_length),
    {
        self.bytes_read_total == content_length
    }
}

/// What the summary says of a firmware image: its version and the date of
/// its release, and its description where it has one; nothing for no image.
pub open spec fn firmware_text(firmware: Option<FirmwareInfo>) -> Seq<char> {
    match firmware {
        None => Seq::empty(),
        Some(fw) => fw.version@ + ", "@ + fw.released@ + (match fw.description {
            Some(description) => ", "@ + description@,
            None => Seq::empty(),
        }),
    }
}

/// The summary of an update: the three slots, each with its label and its
/// image, and the image that was downloaded.
pub open spec fn summary_text(
    boot_slot: Slot,
    run_slot: Slot,
    update_slot: Slot,
    ota_image_info: FirmwareInfo,
) -> Seq<char> {
    "OTA Update Summary\n"@ + "==================\n"@ + "Boot   partition: "@ + boot_slot.label@
        + ", "@ + firmware_text(boot_slot.firmware) + "\nRun    partition: "@ + run_slot.label@
        + ", "@ + firmware_text(run_slot.firmware) + "\nUpdate partition: "@ + update_slot.label@
        + ", "@ + firmware_text(update_slot.firmware) + "\n"@ + "\nDownloaded FW  : "@
        + firmware_text(Some(ota_image_info)) + "\n"@
}

/// Add to a summary what is known of a firmware image: see `firmware_text`.
pub fn add_firmware_info(update_summary: &mut String, firmware: Option<FirmwareInfo>)
    ensures
        final(update_summary)@ == old(update_summary)@ + firmware_text(firmware),
{
    if let Some(fw) = firmware {
        update_summary.append(fw.version.as_str());
        update_summary.append(", ");
        update_summary.append(fw.released.as_str());
        if let Some(desc) = fw.description {
            update_summary.append(", ");
            update_summary.append(desc.as_str());
        }
        proof {
            assert(update_summary@ == old(update_summary)@ + firmware_text(firmware));
        }
    } else {
        proof {
            assert(update_summary@ == old(update_summary)@ + firmware_text(firmware));
        }
    }
}

/// Add to a text the summary of an update: see `summary_text`.
pub fn format_update_summary(
    update_summary: &mut String,
    boot_slot: Slot,
    run_slot: Slot,
    update_slot: Slot,
    ota_image_info: FirmwareInfo,
)
    ensures
        final(update_summary)@ == old(update_summary)@ + summary_text(
            boot_slot,
            run_slot,
            update_slot,
            ota_image_info,
        ),
{
    update_summary.append("OTA Update Summary\n");
    update_summary.append("==================\n");
    update_summary.append("Boot   partition: ");
    update_summary.append(boot_slot.label.as_str());
    update_summary.append(", ");
    add_firmware_info(update_summary, boot_slot.firmware);

    update_summary.append("\nRun    partition: ");
    update_summary.append(run_slot.label.as_str());
    update_summary.append(", ");
    add_firmware_info(update_summary, run_slot.firmware);

    update_summary.append("\nUpdate partition: ");
    update_summary.append(update_slot.label.as_str());
    update_summary.append(", ");
    add_firmware_info(update_summary, update_slot.firmware);
    update_summary.append("\n");

    update_summary.append("\nDownloaded FW  : ");
    add_firmware_info(update_summary, Some(ota_image_info));
    update_summary.append("\n");
    proof {
        assert(update_summary@ == old(update_summary)@ + summary_text(
            boot_slot,
            run_slot,
            update_slot,
            ota_image_info,
        ));
    }
}

} // verus!
