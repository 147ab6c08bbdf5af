//! The control-group plan derived from a run request.
//!
//! Each resource knob of the request populates one controller: the memory
//! ceiling, the cpu shares, and — because weight-based block-io control is
//! disabled on modern kernels — a per-device read and write throttle applied
//! uniformly to every block device of type "disk".  Creating the directories
//! under the controller hierarchies and enumerating the block devices is
//! filesystem work done outside the library; the plan computed here says
//! exactly which knobs to write.

use crate::service::RunRequest;
use vstd::prelude::*;
use vstd::string::StringExecFns;

verus! {

/// One block device as the kernel's block subsystem shows it: its device
/// number, and its type ("disk" for whole devices, "partition" for parts).
#[derive(Debug, Clone)]
pub struct BlockDevice {
    pub devnum: Option<u64>,
    pub devtype: Option<String>,
}

/// A read-and-write byte-per-second throttle for one device, addressed by
/// major and minor number.
#[derive(Clone, Copy, Debug, PartialEq, Eq, Structural)]
pub struct DeviceThrottle {
    pub major: u16,
    pub minor: u16,
    pub bps: u64,
}

/// The throttle entry for the device number `devnum`: the major number
/// lives in bits 8..16, and the minor number is taken from the remaining
/// bits, truncated to 16 bits.
pub open spec fn throttle_of(devnum: u64, bps: u64) -> DeviceThrottle {
    DeviceThrottle {
        major: ((devnum & 0xFF00) >> 8) as u16,
        minor: (devnum & 0xFFFF00FF) as u16,
        bps,
    }
}

/// The throttles for every device of type "disk" with a known device
/// number, in the order the devices were enumerated.
pub open spec fn throttles_spec(s: Seq<BlockDevice>, bps: u64) -> Seq<DeviceThrottle>
    decreases s.len(),
{
    if s.len() == 0 {
        Seq::<DeviceThrottle>::empty()
    } else {
        let rest = throttles_spec(s.drop_last(), bps);
        let d = s.last();
        match (d.devnum, d.devtype) {
            (Some(num), Some(t)) => if t@ == "disk"@ {
                rest.push(throttle_of(num, bps))
            } else {
                rest
            },
            _ => rest,
        }
    }
}

/// Computes the throttle list of [`throttles_spec`] for an enumerated set
/// of block devices.
pub fn disk_throttles(devices: &Vec<BlockDevice>, bps: u64) -> (r: Vec<DeviceThrottle>)
    ensures
        r@ == throttles_spec(devices@, bps),
{
    let disk_label = String::from_str("disk");
    let mut r: Vec<DeviceThrottle> = Vec::new();
    let mut i: usize = 0;
    let n = devices.len();
    proof {
        assert(devices@.take(0) =~= Seq::<BlockDevice>::empty());
    }
    while i < n
        invariant
            i <= n,
            n == devices@.len(),
            disk_label@ == "disk"@,
            r@ == throttles_spec(devices@.take(i as int), bps),
        decreases n - i,
    {
        let d = &devices[i];
        match (&d.devnum, &d.devtype) {
            (Some(num), Some(t)) => {
                if *t == disk_label {
                    r.push(DeviceThrottle {
                        major: ((*num & 0xFF00) >> 8) as u16,
                        minor: (*num & 0xFFFF00FF) as u16,
                        bps,
                    });
                }
            },
            _ => {},
        }
        proof {
            assert(devices@.take(i as int + 1).drop_last() =~= devices@.take(i as int));
            assert(devices@.take(i as int + 1).last() == devices@[i as int]);
        }
        i = i + 1;
    }
    proof {
        assert(devices@.take(n as int) =~= devices@);
    }
    r
}

/// What a run request asks of each controller.  Controllers without a knob
/// in the request stay unconstrained.
#[derive(Debug, Clone)]
pub struct CgroupPlan {
    /// `memory.limit_in_bytes` of the memory controller.
    pub memory_limit_in_bytes: Option<u64>,
    /// `cpu.shares` of the cpu controller.
    pub cpu_shares: Option<u64>,
    /// `blkio.throttle.read_bps_device` and `blkio.throttle.write_bps_device`
    /// entries of the blkio controller, one per disk device.
    pub disk_throttles: Option<Vec<DeviceThrottle>>,
}

/// Derives the control-group plan for one run request, throttling every
/// enumerated disk device when a disk limit was asked for.
pub fn create_cgroups(request: &RunRequest, devices: &Vec<BlockDevice>) -> (r: CgroupPlan)
    ensures
        r.memory_limit_in_bytes == request.memory,
        r.cpu_shares == request.cpu,
        request.disk matches Some(bps) ==> (r.disk_throttles matches Some(v) && v@
            == throttles_spec(devices@, bps)),
        request.disk is None ==> r.disk_throttles is None,
{
    let disk_throttles = match request.disk {
        Some(bps) => Some(disk_throttles(devices, bps)),
        None => None,
    };
    CgroupPlan { memory_limit_in_bytes: request.memory, cpu_shares: request.cpu, disk_throttles }
}

} // verus!
