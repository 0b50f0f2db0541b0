//! A controller that is fed by device reads alone.

pub use crate::registry::{Button, KeyInfo};
use crate::registry::key_info;
use crate::report::{delivered, ReportPair, Reports};
use vstd::prelude::*;
use vstd::utf8::{decode_utf8, encode_utf8, encode_utf8_decode_utf8};

verus! {

/// Vendor number of the controller.
pub const VID: u16 = 10462;

/// Product number of the controller.
pub const PID: u16 = 4613;

/// Path under which the controller is listed.
pub const DEVICE_PATH: &'static str = "/dev/hidraw3";

/// A listed device is the controller where its vendor number, its product
/// number and its path are the expected ones.
pub open spec fn names_target(vendor_id: u16, product_id: u16, path: Seq<char>) -> bool {
    vendor_id == VID && product_id == PID && path == DEVICE_PATH@
}

/// Tells whether two strings hold the same text.
fn same_text(left: &str, right: &str) -> (same: bool)
    ensures
        same == (left@ == right@),
{
    let left_bytes = left.as_bytes();
    let right_bytes = right.as_bytes();
    proof {
        encode_utf8_decode_utf8(left@);
        encode_utf8_decode_utf8(right@);
    }
    if left_bytes.len() != right_bytes.len() {
        return false;
    }
    for i in 0..left_bytes.len()
        invariant
            left_bytes@.len() == right_bytes@.len(),
            left_bytes@ == encode_utf8(left@),
            right_bytes@ == encode_utf8(right@),
            decode_utf8(encode_utf8(left@)) == left@,
            decode_utf8(encode_utf8(right@)) == right@,
            forall|j: int| 0 <= j < i ==> left_bytes@[j] == right_bytes@[j],
    {
        if left_bytes[i] != right_bytes[i] {
            return false;
        }
    }
    assert(left_bytes@ =~= right_bytes@);
    true
}

/// Tells whether a listed device is the controller.
pub fn is_target(vendor_id: u16, product_id: u16, path: &str) -> (hit: bool)
    ensures
        hit == names_target(vendor_id, product_id, path@),
{
    vendor_id == VID && product_id == PID && same_text(path, DEVICE_PATH)
}

/// The report pair of a physical device, with the edge query over it.
pub struct Device {
    pair: ReportPair,
}

impl View for Device {
    type V = Reports;

    closed spec fn view(&self) -> Reports {
        self.pair@
    }
}

impl Device {
    /// A device with two blank reports.
    pub fn new() -> (device: Device)
        ensures
            device@ == Reports::blank(),
    {
        Device { pair: ReportPair::new() }
    }

    /// Both reports of a device have the length of a report.
    pub proof fn lemma_wf(&self)
        ensures
            self@.wf(),
    {
        self.pair.lemma_wf();
    }

    /// Tells whether `button` went down between the previous report and the
    /// current one.
    pub fn is_pressed(&self, button: Button) -> (pressed: bool)
        ensures
            pressed == self@.pressed(button),
    {
        let key_info = key_info(&button);
        let now_buf = self.pair.now_buf();
        let prev_buf = self.pair.prev_buf();
        !key_info.is_pressed(prev_buf) && key_info.is_pressed(now_buf)
    }

    /// Takes in the outcome of one read of the device: the bytes that
    /// arrived, or `None` where the read failed.
    pub fn read(&mut self, report: Option<&[u8]>)
        ensures
            final(self)@ == old(self)@.after_read(delivered(report)),
    {
        self.pair.read(report);
    }
}

} // verus!
