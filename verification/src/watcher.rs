//! Device watcher logic: turning discovered descriptors into candidates,
//! and reacting to hot-plug connect/disconnect notifications by updating the
//! shared tables and deciding what the surrounding program must do (spawn a
//! task, cancel one, deregister from the sink).

use vstd::prelude::*;
use vstd::string::StringExecFns;
use crate::mappings::{CandidateDevice, DEVICE_NAMESPACE, Kind, kind_of};
use crate::registry::Registry;

verus! {

/// What enumeration and hot-plug notifications carry about one physical
/// device, as plain values.
#[derive(Debug, Clone)]
pub struct DeviceDescriptor {
    pub vendor_id: u16,
    pub product_id: u16,
    pub serial_number: Option<String>,
}

/// The namespaced device id built from a serial number.
pub open spec fn spec_serial_to_id(serial: Seq<char>) -> Seq<char> {
    DEVICE_NAMESPACE@ + "-"@ + serial
}

/// Builds the namespaced device id for a serial number.
pub fn serial_to_id(serial: &String) -> (r: String)
    ensures
        r@ == spec_serial_to_id(serial@),
{
    let mut id = String::from_str(DEVICE_NAMESPACE);
    id.append("-");
    id.append(serial.as_str());
    id
}

/// Whether a descriptor names a candidate: it carries a serial number and
/// its vendor/product pair matches a known model.
pub open spec fn spec_is_candidate(d: DeviceDescriptor) -> bool {
    d.serial_number is Some && kind_of(d.vendor_id, d.product_id) is Some
}

/// How a candidate relates to the descriptor it came from, view-level.
pub open spec fn candidate_matches(c: CandidateDevice, d: DeviceDescriptor) -> bool {
    &&& c.id@ == spec_serial_to_id(d.serial_number->0@)
    &&& c.vendor_id == d.vendor_id
    &&& c.product_id == d.product_id
    &&& c.serial@ == d.serial_number->0@
    &&& Some(c.kind) == kind_of(d.vendor_id, d.product_id)
}

/// Turns one discovered descriptor into a candidate: it must carry a serial
/// number (for the namespaced id) and match a known model; anything else is
/// silently excluded from candidacy.
pub fn device_info_to_candidate(dev: &DeviceDescriptor) -> (r: Option<CandidateDevice>)
    ensures
        r is Some <==> spec_is_candidate(*dev),
        r matches Some(c) ==> candidate_matches(c, *dev),
{
    let serial = match &dev.serial_number {
        Some(s) => s,
        None => {
            return None;
        },
    };
    let kind = match Kind::from_vid_pid(dev.vendor_id, dev.product_id) {
        Some(k) => k,
        None => {
            return None;
        },
    };
    let id = serial_to_id(serial);
    Some(
        CandidateDevice {
            id,
            vendor_id: dev.vendor_id,
            product_id: dev.product_id,
            serial: serial.clone(),
            kind,
        },
    )
}

/// Everything the contracts track of one candidate: id, vendor id,
/// product id, serial and model.
pub open spec fn candidate_view(c: CandidateDevice) -> (Seq<char>, u16, u16, Seq<char>, Kind) {
    (c.id@, c.vendor_id, c.product_id, c.serial@, c.kind)
}

/// The candidate a matching descriptor turns into, view-level.
pub open spec fn descriptor_candidate_view(d: DeviceDescriptor) -> (
    Seq<char>,
    u16,
    u16,
    Seq<char>,
    Kind,
)
    recommends
        spec_is_candidate(d),
{
    (
        spec_serial_to_id(d.serial_number->0@),
        d.vendor_id,
        d.product_id,
        d.serial_number->0@,
        kind_of(d.vendor_id, d.product_id)->0,
    )
}

/// The candidates a discovery scan yields, in scan order: the matching
/// descriptors, each turned into its candidate.
pub open spec fn expected_candidates(devices: Seq<DeviceDescriptor>) -> Seq<
    (Seq<char>, u16, u16, Seq<char>, Kind),
>
    decreases devices.len(),
{
    if devices.len() == 0 {
        Seq::empty()
    } else {
        let front = expected_candidates(devices.drop_last());
        if spec_is_candidate(devices.last()) {
            front.push(descriptor_candidate_view(devices.last()))
        } else {
            front
        }
    }
}

/// Filters a discovery scan down to the candidates, in scan order.
pub fn get_candidates(devices: &Vec<DeviceDescriptor>) -> (r: Vec<CandidateDevice>)
    ensures
        r@.map_values(|c: CandidateDevice| candidate_view(c)) == expected_candidates(devices@),
{
    let mut candidates: Vec<CandidateDevice> = Vec::new();
    let n = devices.len();
    let mut i: usize = 0;
    while i < n
        invariant
            i <= n,
            n == devices@.len(),
            candidates@.map_values(|c: CandidateDevice| candidate_view(c)) == expected_candidates(
                devices@.subrange(0, i as int),
            ),
        decreases n - i,
    {
        let ghost pre = candidates@;
        let ghost sub_next = devices@.subrange(0, i + 1);
        proof {
            assert(sub_next.drop_last() =~= devices@.subrange(0, i as int));
            assert(sub_next.last() == devices@[i as int]);
        }
        match device_info_to_candidate(&devices[i]) {
            Some(candidate) => {
                let ghost cv = candidate_view(candidate);
                candidates.push(candidate);
                proof {
                    assert(spec_is_candidate(devices@[i as int]));
                    assert(cv == descriptor_candidate_view(devices@[i as int]));
                    assert(candidates@.map_values(|c: CandidateDevice| candidate_view(c)) =~= pre
                        .map_values(|c: CandidateDevice| candidate_view(c)).push(cv));
                }
            },
            None => {
                proof {
                    assert(!spec_is_candidate(devices@[i as int]));
                }
            },
        }
        i = i + 1;
    }
    proof {
        assert(devices@.subrange(0, n as int) =~= devices@);
    }
    candidates
}

/// Reaction to a hot-plug connect notification: a new candidate whose id is
/// not yet registered gets a fresh cancellation signal and a spawned device
/// task; a duplicate or a non-candidate is skipped.
pub fn on_device_connected(reg: &mut Registry, dev: &DeviceDescriptor) -> (spawn: Option<
    CandidateDevice,
>)
    requires
        old(reg).wf(),
    ensures
        final(reg).wf(),
        spawn is Some <==> (spec_is_candidate(*dev) && !old(reg).has_device(
            spec_serial_to_id(dev.serial_number->0@),
        )),
        spawn matches Some(c) ==> {
            &&& candidate_matches(c, *dev)
            &&& final(reg).has_signal(c.id@)
            &&& !final(reg).signal_fired(c.id@)
            &&& forall|x: Seq<char>|
                #[trigger] final(reg).has_signal(x) == (old(reg).has_signal(x) || x == c.id@)
            &&& forall|x: Seq<char>|
                x != c.id@ ==> #[trigger] final(reg).signal_fired(x) == old(reg).signal_fired(x)
            &&& final(reg).devices@ == old(reg).devices@
        },
        spawn is None ==> final(reg).devices@ == old(reg).devices@ && final(reg).signals@ == old(
            reg,
        ).signals@,
{
    let candidate = match device_info_to_candidate(dev) {
        Some(c) => c,
        None => {
            return None;
        },
    };
    if reg.contains_device(&candidate.id) {
        return None;
    }
    reg.insert_signal(&candidate.id);
    Some(candidate)
}

/// What a hot-plug disconnect notification led to.
#[derive(Debug, Clone, Copy, PartialEq, Eq, Structural)]
pub struct DisconnectOutcome {
    /// A cancellation signal existed for the id and was fired and removed.
    pub cancelled: bool,
    /// The id must be deregistered from the sink.
    pub deregister: bool,
}

/// Reaction to a hot-plug disconnect notification: without a serial number
/// it is ignored; otherwise the id's cancellation signal (if any) is fired
/// and dropped, its registry entry is removed, and the sink is told.
pub fn on_device_disconnected(reg: &mut Registry, serial_number: Option<&String>) -> (r:
    DisconnectOutcome)
    requires
        old(reg).wf(),
    ensures
        final(reg).wf(),
        serial_number is None ==> !r.cancelled && !r.deregister && final(reg).devices@ == old(
            reg,
        ).devices@ && final(reg).signals@ == old(reg).signals@,
        serial_number matches Some(s) ==> {
            let id = spec_serial_to_id(s@);
            &&& r.deregister
            &&& r.cancelled == old(reg).has_signal(id)
            &&& !final(reg).has_device(id)
            &&& !final(reg).has_signal(id)
            &&& forall|x: Seq<char>|
                x != id ==> #[trigger] final(reg).has_device(x) == old(reg).has_device(x)
            &&& forall|x: Seq<char>|
                x != id ==> #[trigger] final(reg).has_signal(x) == old(reg).has_signal(x)
            &&& forall|x: Seq<char>|
                x != id ==> #[trigger] final(reg).signal_fired(x) == old(reg).signal_fired(x)
        },
{
    let serial = match serial_number {
        Some(s) => s,
        None => {
            return DisconnectOutcome { cancelled: false, deregister: false };
        },
    };
    let id = serial_to_id(serial);
    let cancelled = reg.remove_signal(&id);
    reg.remove_device(&id);
    DisconnectOutcome { cancelled, deregister: true }
}

} // verus!
