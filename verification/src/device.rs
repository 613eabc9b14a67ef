//! USB identity constants for the two Openterface endpoints.
//!
//! The Openterface presents two independent USB endpoints that share nothing
//! but the cable: an **MS2109** HDMI capture device (UVC / MJPEG video) and a
//! **CH9329** USB-serial HID bridge (mouse + keyboard). Discovery prefers
//! matching on the driver and advertised format, using these constants as a
//! secondary signal.

use vstd::prelude::*;

verus! {

/// USB vendor id of the CH340/CH9329 serial bridge (WCH, `1a86`).
pub const SERIAL_VENDOR_ID: u16 = 0x1A86;

/// Known serial-bridge product ids: `7523` (classic CH340) or `fe0c` (newer
/// Openterface firmware).
pub const SERIAL_PRODUCT_IDS: [u16; 2] = [0x7523, 0xFE0C];

/// USB vendor id of the MS2109 UVC capture on the validated hardware (`345f`).
pub const VIDEO_VENDOR_ID: u16 = 0x345F;

/// Alternate/upstream MS2109 vendor id (MacroSilicon, `534d`).
pub const VIDEO_VENDOR_ID_ALT: u16 = 0x534D;

/// USB product id of the MS2109 capture (`2109`).
pub const VIDEO_PRODUCT_ID: u16 = 0x2109;

/// The VID/PID of an Openterface serial bridge.
pub open spec fn spec_is_serial_device(vendor_id: u16, product_id: u16) -> bool {
    vendor_id == SERIAL_VENDOR_ID && (product_id == 0x7523u16 || product_id == 0xFE0Cu16)
}

/// The VID/PID of an Openterface video capture endpoint.
pub open spec fn spec_is_video_device(vendor_id: u16, product_id: u16) -> bool {
    (vendor_id == VIDEO_VENDOR_ID || vendor_id == VIDEO_VENDOR_ID_ALT) && product_id
        == VIDEO_PRODUCT_ID
}

/// Returns `true` if the given USB VID/PID identifies an Openterface serial
/// bridge.
pub fn is_serial_device(vendor_id: u16, product_id: u16) -> (r: bool)
    ensures
        r == spec_is_serial_device(vendor_id, product_id),
{
    let ids = SERIAL_PRODUCT_IDS;
    vendor_id == SERIAL_VENDOR_ID && (product_id == ids[0] || product_id == ids[1])
}

/// Returns `true` if the given USB VID/PID identifies an Openterface video
/// capture endpoint (either the validated or the upstream vendor id).
pub fn is_video_device(vendor_id: u16, product_id: u16) -> (r: bool)
    ensures
        r == spec_is_video_device(vendor_id, product_id),
{
    (vendor_id == VIDEO_VENDOR_ID || vendor_id == VIDEO_VENDOR_ID_ALT) && product_id
        == VIDEO_PRODUCT_ID
}

} // verus!
