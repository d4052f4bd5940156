//! Identity filtering for device discovery.
//!
//! Discovery enumerates candidate device nodes, probes each one's
//! vendor/product identity, and keeps only members of the recognized
//! controller family. Enumeration and probing are I/O and live outside the
//! library; the retention rule itself is here.

use vstd::prelude::*;
use crate::events::{VENDOR_NINTENDO, PRODUCT_LEFT_JOYCON, PRODUCT_RIGHT_JOYCON, PRODUCT_PROCON};

verus! {

/// The identity of one opened physical device, as the kernel reports it,
/// together with `slot`, an opaque tag the I/O layer assigns so it can find
/// the open handle this record stands for.
#[derive(Clone, Copy, PartialEq, Eq, Structural, Debug)]
pub struct DeviceInfo {
    pub vendor: u16,
    pub product: u16,
    pub slot: usize,
}

/// The recognized identity set: Nintendo vendor with a left Joy-Con,
/// right Joy-Con, or Pro Controller product id.
pub open spec fn recognized(vendor: u16, product: u16) -> bool {
    vendor == VENDOR_NINTENDO && (product == PRODUCT_LEFT_JOYCON
        || product == PRODUCT_RIGHT_JOYCON || product == PRODUCT_PROCON)
}

/// Whether a probed device belongs to the recognized identity set.
pub open spec fn device_recognized(d: DeviceInfo) -> bool {
    recognized(d.vendor, d.product)
}

/// Decides retention for one probed identity.
pub fn is_recognized(vendor: u16, product: u16) -> (r: bool)
    ensures
        r == recognized(vendor, product),
{
    vendor == VENDOR_NINTENDO && (product == PRODUCT_LEFT_JOYCON
        || product == PRODUCT_RIGHT_JOYCON || product == PRODUCT_PROCON)
}

/// Retains exactly the recognized devices of a probed pool, in enumeration
/// order; every other device is excluded.
pub fn filter_recognized(devices: &Vec<DeviceInfo>) -> (r: Vec<DeviceInfo>)
    ensures
        r@ == devices@.filter(|d: DeviceInfo| device_recognized(d)),
{
    let mut r: Vec<DeviceInfo> = Vec::new();
    let mut i: usize = 0;
    while i < devices.len()
        invariant
            i <= devices@.len(),
            r@ == devices@.take(i as int).filter(|d: DeviceInfo| device_recognized(d)),
        decreases devices@.len() - i,
    {
        let d = devices[i];
        proof {
            reveal(Seq::filter);
            assert(devices@.take(i + 1).drop_last() =~= devices@.take(i as int));
            assert(devices@.take(i + 1).last() == d);
        }
        if is_recognized(d.vendor, d.product) {
            r.push(d);
        }
        i = i + 1;
    }
    proof {
        assert(devices@.take(devices@.len() as int) =~= devices@);
    }
    r
}

} // verus!
