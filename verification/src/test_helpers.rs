//! Ready-made device identities for examples and tests.

use vstd::prelude::*;
use vstd::string::*;
use crate::device::{DeviceDetails, DeviceOrigin};

verus! {

/// The details of a test device: "Test Device", identified as `test_device`,
/// made by "Test Mfg" at version 1.0.0, not shown through another device.
pub fn create_device_details() -> (r: DeviceDetails)
    ensures
        r.name@ == "Test Device"@,
        r.identifier@ == "test_device"@,
        r.manufacturer@ == "Test Mfg"@,
        r.sw_version@ == "1.0.0"@,
        r.via_device is None,
{
    DeviceDetails {
        name: "Test Device".to_owned(),
        identifier: "test_device".to_owned(),
        manufacturer: "Test Mfg".to_owned(),
        sw_version: "1.0.0".to_owned(),
        via_device: None,
    }
}

/// The origin of a test device: "test-origin" at version 1.0.0, from
/// `http://example.com`.
pub fn create_device_origin() -> (r: DeviceOrigin)
    ensures
        r.name@ == "test-origin"@,
        r.sw@ == "1.0.0"@,
        r.url@ == "http://example.com"@,
{
    DeviceOrigin {
        name: "test-origin".to_owned(),
        sw: "1.0.0".to_owned(),
        url: "http://example.com".to_owned(),
    }
}

} // verus!
