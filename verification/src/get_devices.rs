//! Device enumeration: filters raw PCI descriptor records down to the
//! NVIDIA GPUs and returns their bus addresses and device ids as two
//! index-aligned sequences.

use vstd::prelude::*;

use crate::strings::str_eq;
use crate::strings::trim_spec;
use crate::strings::trim_str;

verus! {

/// Raw descriptor contents of one PCI device, as read from its sysfs
/// directory: the directory name (the bus address) and the `vendor`,
/// `class` and `device` descriptor files. An unreadable descriptor file
/// is handed over as the empty string rather than aborting the scan.
pub struct PciDeviceInfo {
    pub bus_address: String,
    pub vendor: String,
    pub class: String,
    pub device_id: String,
}

/// Mathematical image of a [`PciDeviceInfo`].
pub ghost struct PciDeviceInfoView {
    pub bus_address: Seq<char>,
    pub vendor: Seq<char>,
    pub class: Seq<char>,
    pub device_id: Seq<char>,
}

impl View for PciDeviceInfo {
    type V = PciDeviceInfoView;

    open spec fn view(&self) -> PciDeviceInfoView {
        PciDeviceInfoView {
            bus_address: self.bus_address@,
            vendor: self.vendor@,
            class: self.class@,
            device_id: self.device_id@,
        }
    }
}

impl DeepView for PciDeviceInfo {
    type V = PciDeviceInfoView;

    open spec fn deep_view(&self) -> PciDeviceInfoView {
        self.view()
    }
}

/// A device passes the filter when its trimmed vendor id is the NVIDIA
/// code and its trimmed class id is VGA controller or 3D controller.
pub open spec fn is_nvidia_gpu(d: PciDeviceInfoView) -> bool {
    trim_spec(d.vendor) == "0x10de"@ && (trim_spec(d.class) == "0x030000"@ || trim_spec(d.class)
        == "0x030200"@)
}

/// Bus addresses of the devices passing the filter, in scan order.
pub open spec fn gpu_bdfs_spec(devs: Seq<PciDeviceInfoView>) -> Seq<Seq<char>>
    decreases devs.len(),
{
    if devs.len() == 0 {
        Seq::empty()
    } else {
        let rest = gpu_bdfs_spec(devs.drop_last());
        if is_nvidia_gpu(devs.last()) {
            rest.push(devs.last().bus_address)
        } else {
            rest
        }
    }
}

/// Trimmed device ids of the devices passing the filter, in scan order.
pub open spec fn gpu_devids_spec(devs: Seq<PciDeviceInfoView>) -> Seq<Seq<char>>
    decreases devs.len(),
{
    if devs.len() == 0 {
        Seq::empty()
    } else {
        let rest = gpu_devids_spec(devs.drop_last());
        if is_nvidia_gpu(devs.last()) {
            rest.push(trim_spec(devs.last().device_id))
        } else {
            rest
        }
    }
}

/// The two enumeration results are index-aligned: one entry of each per
/// device that passes the filter.
pub proof fn lemma_enumeration_aligned(devs: Seq<PciDeviceInfoView>)
    ensures
        gpu_bdfs_spec(devs).len() == gpu_devids_spec(devs).len(),
    decreases devs.len(),
{
    if devs.len() > 0 {
        lemma_enumeration_aligned(devs.drop_last());
    }
}

/// Scans the handed-over PCI descriptor records and returns the bus
/// addresses and trimmed device ids of exactly the devices that match the
/// NVIDIA vendor code and an accepted class code, index-aligned and in
/// scan order. No matching device is a valid result, not an error.
pub fn get_gpu_devices(devices: &Vec<PciDeviceInfo>) -> (r: (Vec<String>, Vec<String>))
    ensures
        r.0.deep_view() == gpu_bdfs_spec(devices.deep_view()),
        r.1.deep_view() == gpu_devids_spec(devices.deep_view()),
        r.0@.len() == r.1@.len(),
{
    let mut gpu_bdfs: Vec<String> = Vec::new();
    let mut gpu_device_ids: Vec<String> = Vec::new();
    let mut i: usize = 0;
    proof {
        assert(devices.deep_view().subrange(0, 0) =~= Seq::<PciDeviceInfoView>::empty());
    }
    while i < devices.len()
        invariant
            i <= devices@.len(),
            gpu_bdfs.deep_view() == gpu_bdfs_spec(devices.deep_view().subrange(0, i as int)),
            gpu_device_ids.deep_view() == gpu_devids_spec(
                devices.deep_view().subrange(0, i as int),
            ),
            gpu_bdfs@.len() == gpu_device_ids@.len(),
        decreases devices@.len() - i,
    {
        let ghost prefix = devices.deep_view().subrange(0, i as int);
        let ghost extended = devices.deep_view().subrange(0, i + 1);
        proof {
            assert(extended.drop_last() =~= prefix);
            assert(extended.last() == devices.deep_view()[i as int]);
        }
        let d = &devices[i];
        let vendor_trimmed = trim_str(d.vendor.as_str());
        let class_trimmed = trim_str(d.class.as_str());
        if str_eq(vendor_trimmed, "0x10de") && (str_eq(class_trimmed, "0x030000") || str_eq(
            class_trimmed,
            "0x030200",
        )) {
            gpu_bdfs.push(d.bus_address.clone());
            let device_id_trimmed = trim_str(d.device_id.as_str());
            gpu_device_ids.push(device_id_trimmed.to_owned());
            proof {
                assert(gpu_bdfs.deep_view() =~= gpu_bdfs_spec(extended));
                assert(gpu_device_ids.deep_view() =~= gpu_devids_spec(extended));
            }
        } else {
            proof {
                assert(!is_nvidia_gpu(devices.deep_view()[i as int]));
            }
        }
        i += 1;
    }
    proof {
        assert(devices.deep_view().subrange(0, devices@.len() as int) =~= devices.deep_view());
    }
    (gpu_bdfs, gpu_device_ids)
}

} // verus!
