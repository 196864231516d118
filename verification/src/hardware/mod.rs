//! Device-side state machine: the events the device liveness loop reacts
//! to, the heartbeat eviction of failed devices, and the dispatch of one
//! update-value command to every surviving device. The surrounding task
//! owns the heartbeat timer and performs the HID writes; every decision
//! about the active device set is made here.

pub mod devices;

use vstd::prelude::*;
use crate::telemetry::Telemetry;
use devices::{update_command_for, Device};

verus! {

/// The fixed heartbeat cadence, in milliseconds. Evictions happen at most
/// this long after a physical disconnect, because the liveness loop never
/// blocks on the absence of events longer than this.
pub const HEARTBEAT_INTERVAL_MS: u64 = 150;

/// What the consumer sends toward the device liveness loop.
pub enum HwBoundEvent {
    /// Dispatch an update derived from this snapshot to every device.
    UpdateTelemetry(Telemetry),
    /// Replace the active set with a fresh discovery result.
    RequestDeviceList,
}

/// What the device liveness loop reports back.
pub enum AppBoundEvent {
    UpdateDeviceList(Vec<Device>),
}

/// The devices that survive one heartbeat tick: those whose keep-alive
/// write succeeded, in their original order.
pub open spec fn surviving(devices: Seq<Device>, heartbeat_ok: Seq<bool>) -> Seq<Device>
    recommends
        devices.len() == heartbeat_ok.len(),
    decreases devices.len(),
{
    if devices.len() == 0 {
        Seq::empty()
    } else {
        surviving(devices.drop_last(), heartbeat_ok.drop_last()) + if heartbeat_ok.len() > 0
            && heartbeat_ok.last() {
            seq![devices.last()]
        } else {
            Seq::empty()
        }
    }
}

/// One heartbeat tick's eviction step: `heartbeat_ok[i]` says whether
/// device `i`'s keep-alive write succeeded; any device whose write failed
/// is dropped (connection presumed lost), the rest are retained in order.
pub fn prune_failed_devices(devices: Vec<Device>, heartbeat_ok: &Vec<bool>) -> (r: Vec<Device>)
    requires
        devices@.len() == heartbeat_ok@.len(),
    ensures
        r@ == surviving(devices@, heartbeat_ok@),
{
    let mut out: Vec<Device> = Vec::new();
    let mut i: usize = 0;
    while i < devices.len()
        invariant
            i <= devices@.len(),
            devices@.len() == heartbeat_ok@.len(),
            out@ == surviving(devices@.subrange(0, i as int), heartbeat_ok@.subrange(0, i as int)),
        decreases devices@.len() - i,
    {
        if heartbeat_ok[i] {
            out.push(devices[i]);
        }
        proof {
            let dev_prefix = devices@.subrange(0, i + 1);
            let ok_prefix = heartbeat_ok@.subrange(0, i + 1);
            assert(dev_prefix.drop_last() =~= devices@.subrange(0, i as int));
            assert(ok_prefix.drop_last() =~= heartbeat_ok@.subrange(0, i as int));
            assert(dev_prefix.last() == devices@[i as int]);
            assert(ok_prefix.last() == heartbeat_ok@[i as int]);
        }
        i = i + 1;
    }
    proof {
        assert(devices@.subrange(0, devices@.len() as int) =~= devices@);
        assert(heartbeat_ok@.subrange(0, heartbeat_ok@.len() as int) =~= heartbeat_ok@);
    }
    out
}

/// A device whose keep-alive write failed is gone after the tick: the
/// surviving set is the same one that eviction builds without that device.
pub proof fn lemma_failed_device_evicted(devices: Seq<Device>, heartbeat_ok: Seq<bool>, i: int)
    requires
        devices.len() == heartbeat_ok.len(),
        0 <= i < devices.len(),
        !heartbeat_ok[i],
    ensures
        surviving(devices, heartbeat_ok) == surviving(
            devices.remove(i),
            heartbeat_ok.remove(i),
        ),
    decreases devices.len(),
{
    if i == devices.len() - 1 {
        assert(devices.remove(i) =~= devices.drop_last());
        assert(heartbeat_ok.remove(i) =~= heartbeat_ok.drop_last());
    } else {
        lemma_failed_device_evicted(devices.drop_last(), heartbeat_ok.drop_last(), i);
        assert(devices.remove(i).drop_last() =~= devices.drop_last().remove(i));
        assert(heartbeat_ok.remove(i).drop_last() =~= heartbeat_ok.drop_last().remove(i));
        assert(devices.remove(i).last() == devices.last());
        assert(heartbeat_ok.remove(i).last() == heartbeat_ok.last());
    }
}

/// A device whose keep-alive write succeeded is still in the set after the
/// tick.
pub proof fn lemma_healthy_device_retained(devices: Seq<Device>, heartbeat_ok: Seq<bool>, i: int)
    requires
        devices.len() == heartbeat_ok.len(),
        0 <= i < devices.len(),
        heartbeat_ok[i],
    ensures
        surviving(devices, heartbeat_ok).contains(devices[i]),
    decreases devices.len(),
{
    if i == devices.len() - 1 {
        let all = surviving(devices, heartbeat_ok);
        assert(all.last() == devices[i]);
        assert(all.contains(all[all.len() - 1]));
    } else {
        lemma_healthy_device_retained(devices.drop_last(), heartbeat_ok.drop_last(), i);
        let prefix = surviving(devices.drop_last(), heartbeat_ok.drop_last());
        let j = choose|j: int| 0 <= j < prefix.len() && prefix[j] == devices[i];
        assert(surviving(devices, heartbeat_ok)[j] == prefix[j]);
        assert(surviving(devices, heartbeat_ok).contains(prefix[j]));
    }
}

/// One telemetry dispatch step: encodes the update-value command for every
/// device currently in the set, in order. The surrounding task performs the
/// writes; a failed write is logged there and does not stop the dispatch to
/// the remaining devices.
pub fn dispatch_update_commands(devices: &Vec<Device>, rpm: u16) -> (r: Vec<Vec<u8>>)
    ensures
        r@.len() == devices@.len(),
        forall|i: int|
            0 <= i < devices@.len() ==> r@[i]@ == update_command_for(devices@[i], rpm),
{
    let mut out: Vec<Vec<u8>> = Vec::new();
    let mut i: usize = 0;
    while i < devices.len()
        invariant
            i <= devices@.len(),
            out@.len() == i,
            forall|j: int| 0 <= j < i ==> out@[j]@ == update_command_for(devices@[j], rpm),
        decreases devices@.len() - i,
    {
        out.push(devices[i].update_rpm(rpm));
        i = i + 1;
    }
    out
}

} // verus!
