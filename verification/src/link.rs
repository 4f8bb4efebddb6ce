//! The link to the physical tablet: which device it is, which endpoint
//! carries its reports, how it is switched to its full mode, and what the
//! result of a read means.

use vstd::prelude::*;

verus! {

/// Lets verified code name `rusb::Error` and its variants, as rusb defines
/// them.
#[verifier::external_type_specification]
pub struct ExUsbError(rusb::Error);

/// Lets verified code name `rusb::TransferType` and its variants, as rusb
/// defines them.
#[verifier::external_type_specification]
pub struct ExTransferType(rusb::TransferType);

/// The interface class of human interface devices.
pub const HID_CLASS: u8 = 3;

/// The packet size of the endpoint that carries the tablet's reports.
pub const REPORT_PACKET_SIZE: u16 = 64;

/// Request type of the control transfer that sets a report.
pub const SET_REPORT_REQUEST_TYPE: u8 = 0x21;

/// Request of the control transfer that sets a report.
pub const SET_REPORT_REQUEST: u8 = 0x09;

/// Value of the control transfer that sets a report.
pub const SET_REPORT_VALUE: u16 = 0x0308;

/// Index of the control transfer that sets a report.
pub const SET_REPORT_INDEX: u16 = 2;

/// Milliseconds after which a control transfer is given up.
pub const SET_REPORT_TIMEOUT_MS: u64 = 250;

/// Milliseconds after which a read of a report is given up.
pub const READ_TIMEOUT_MS: u64 = 1000;

/// The ids by which a device tells what it is.
#[derive(Clone, Copy, Debug, PartialEq, Eq, Structural)]
pub struct DeviceId {
    pub vendor_id: u16,
    pub product_id: u16,
}

/// What an endpoint's descriptor tells.
#[derive(Clone, Copy, Debug)]
pub struct EndpointInfo {
    pub address: u8,
    pub transfer_type: rusb::TransferType,
    pub max_packet_size: u16,
}

/// What an interface's descriptor tells.
#[derive(Debug)]
pub struct InterfaceInfo {
    pub interface_number: u8,
    pub class_code: u8,
    pub endpoints: Vec<EndpointInfo>,
}

/// What one read from the tablet came to.
#[derive(Clone, Copy, Debug, PartialEq, Eq, Structural)]
pub enum ReadOutcome {
    /// A report of so many bytes arrived.
    Report(usize),
    /// Nothing arrived in time: the tablet is idle.
    Timeout,
    /// The transfer failed: the tablet is gone.
    Disconnected,
}

/// Whether a device with the ids `device`, if they could be read, is the
/// one with `vid` and `pid`.
pub open spec fn is_target(vid: u16, pid: u16, device: Option<DeviceId>) -> bool {
    match device {
        Some(id) => id.vendor_id == vid && id.product_id == pid,
        None => false,
    }
}

/// Whether `endpoint` can carry the tablet's reports: an interrupt endpoint
/// with packets of [`REPORT_PACKET_SIZE`] bytes.
pub open spec fn is_report_endpoint(endpoint: EndpointInfo) -> bool {
    endpoint.transfer_type == rusb::TransferType::Interrupt && endpoint.max_packet_size
        == REPORT_PACKET_SIZE
}

/// The address to read from once `endpoints` have been looked through: that
/// of the last endpoint that can carry the reports, `current` where there is
/// none.
pub open spec fn endpoint_among(current: u8, endpoints: Seq<EndpointInfo>) -> u8
    decreases endpoints.len(),
{
    if endpoints.len() == 0 {
        current
    } else if is_report_endpoint(endpoints.last()) {
        endpoints.last().address
    } else {
        endpoint_among(current, endpoints.drop_last())
    }
}

/// The places in `interfaces` of those of the HID class, in order.
pub open spec fn hid_interfaces(interfaces: Seq<InterfaceInfo>) -> Seq<int>
    decreases interfaces.len(),
{
    if interfaces.len() == 0 {
        Seq::empty()
    } else {
        let before = hid_interfaces(interfaces.drop_last());
        if interfaces.last().class_code == HID_CLASS {
            before.push(interfaces.len() - 1)
        } else {
            before
        }
    }
}

/// The places that `places` holds, as numbers.
pub open spec fn places_of(places: Seq<usize>) -> Seq<int> {
    places.map_values(|at: usize| at as int)
}

/// The payloads that switch the tablet to its full mode, in which it streams
/// raw reports.
pub open spec fn full_mode_payloads() -> Seq<Seq<u8>> {
    seq![seq![0x08u8, 0x03u8, 0x00u8, 0xffu8, 0xf0u8, 0x00u8, 0xffu8, 0xf0u8]]
}

/// What the result of a read means.
pub open spec fn outcome_of(result: Result<usize, rusb::Error>) -> ReadOutcome {
    match result {
        Ok(len) => ReadOutcome::Report(len),
        Err(rusb::Error::Timeout) => ReadOutcome::Timeout,
        Err(_) => ReadOutcome::Disconnected,
    }
}

/// Whether a device with the ids `device` is the one with `vid` and `pid`; a
/// device whose ids could not be read is not.
pub fn is_target_device(vid: u16, pid: u16, device: &Option<DeviceId>) -> (r: bool)
    ensures
        r == is_target(vid, pid, *device),
{
    match device {
        Some(id) => id.vendor_id == vid && id.product_id == pid,
        None => false,
    }
}

/// The place in `devices` of the first device with `vid` and `pid`, or
/// `NoDevice` where there is none.
pub fn get_target_device(vid: u16, pid: u16, devices: &Vec<Option<DeviceId>>) -> (r: Result<
    usize,
    rusb::Error,
>)
    ensures
        match r {
            Ok(at) => at < devices@.len() && is_target(vid, pid, devices@[at as int]) && forall|
                i: int,
            |
                0 <= i < at ==> !is_target(vid, pid, #[trigger] devices@[i]),
            Err(e) => e == rusb::Error::NoDevice && forall|i: int|
                0 <= i < devices@.len() ==> !is_target(vid, pid, #[trigger] devices@[i]),
        },
{
    let mut at: usize = 0;
    while at < devices.len()
        invariant
            at <= devices.len(),
            forall|i: int| 0 <= i < at ==> !is_target(vid, pid, #[trigger] devices@[i]),
        decreases devices.len() - at,
    {
        if is_target_device(vid, pid, &devices[at]) {
            return Ok(at);
        }
        at += 1;
    }
    Err(rusb::Error::NoDevice)
}

/// The places in `interfaces` of those of the HID class, in order.
pub fn get_hid_interface_descriptors(interfaces: &Vec<InterfaceInfo>) -> (r: Vec<usize>)
    ensures
        places_of(r@) == hid_interfaces(interfaces@),
{
    let mut out: Vec<usize> = Vec::new();
    let mut at: usize = 0;
    assert(places_of(out@) =~= hid_interfaces(interfaces@.take(0)));
    while at < interfaces.len()
        invariant
            at <= interfaces.len(),
            places_of(out@) == hid_interfaces(interfaces@.take(at as int)),
        decreases interfaces.len() - at,
    {
        assert(interfaces@.take(at + 1).drop_last() =~= interfaces@.take(at as int));
        if interfaces[at].class_code == HID_CLASS {
            let ghost before = out@;
            out.push(at);
            assert(places_of(out@) =~= places_of(before).push(at as int));
        }
        at += 1;
    }
    assert(interfaces@.take(at as int) =~= interfaces@);
    out
}

/// The address to read from once the endpoints of a claimed interface have
/// been looked through.
pub fn select_endpoint(current: u8, endpoints: &Vec<EndpointInfo>) -> (r: u8)
    ensures
        r == endpoint_among(current, endpoints@),
{
    let mut address = current;
    let mut at: usize = 0;
    while at < endpoints.len()
        invariant
            at <= endpoints.len(),
            address == endpoint_among(current, endpoints@.take(at as int)),
        decreases endpoints.len() - at,
    {
        assert(endpoints@.take(at + 1).drop_last() =~= endpoints@.take(at as int));
        let endpoint = &endpoints[at];
        let is_interrupt = match endpoint.transfer_type {
            rusb::TransferType::Interrupt => true,
            _ => false,
        };
        if is_interrupt && endpoint.max_packet_size == REPORT_PACKET_SIZE {
            address = endpoint.address;
        }
        at += 1;
    }
    assert(endpoints@.take(at as int) =~= endpoints@);
    address
}

/// The payloads that switch the tablet to its full mode.
pub fn full_mode_reports() -> (r: Vec<Vec<u8>>)
    ensures
        r@.len() == full_mode_payloads().len(),
        forall|i: int| 0 <= i < r@.len() ==> (#[trigger] r@[i])@ == full_mode_payloads()[i],
{
    let report: Vec<u8> = vec![0x08, 0x03, 0x00, 0xff, 0xf0, 0x00, 0xff, 0xf0];
    assert(report@ =~= full_mode_payloads()[0]);
    let reports: Vec<Vec<u8>> = vec![report];
    reports
}

/// What the result of a read means: a timeout is routine, any other error
/// says that the tablet is gone.
pub fn read_outcome(result: Result<usize, rusb::Error>) -> (r: ReadOutcome)
    ensures
        r == outcome_of(result),
{
    match result {
        Ok(len) => ReadOutcome::Report(len),
        Err(rusb::Error::Timeout) => ReadOutcome::Timeout,
        Err(_) => ReadOutcome::Disconnected,
    }
}

/// The address chosen among `endpoints` is that of the endpoint at the
/// greatest place that can carry the reports; it is `current` exactly where no
/// endpoint can.
pub proof fn lemma_endpoint_among(current: u8, endpoints: Seq<EndpointInfo>)
    ensures
        (forall|i: int| 0 <= i < endpoints.len() ==> !is_report_endpoint(#[trigger] endpoints[i]))
            ==> endpoint_among(current, endpoints) == current,
        forall|i: int|
            0 <= i < endpoints.len() && is_report_endpoint(#[trigger] endpoints[i]) && (forall|
                j: int,
            |
                i < j < endpoints.len() ==> !is_report_endpoint(#[trigger] endpoints[j]))
                ==> endpoint_among(current, endpoints) == endpoints[i].address,
    decreases endpoints.len(),
{
    if endpoints.len() > 0 {
        let rest = endpoints.drop_last();
        lemma_endpoint_among(current, rest);
        if !is_report_endpoint(endpoints.last()) {
            assert forall|i: int|
                0 <= i < endpoints.len() && is_report_endpoint(#[trigger] endpoints[i]) && (forall|
                    j: int,
                |
                    i < j < endpoints.len() ==> !is_report_endpoint(
                        #[trigger] endpoints[j],
                    )) implies endpoint_among(current, endpoints) == endpoints[i].address by {
                assert(i < endpoints.len() - 1);
                assert(rest[i] == endpoints[i]);
                assert forall|j: int| i < j < rest.len() implies !is_report_endpoint(
                    #[trigger] rest[j],
                ) by {
                    assert(rest[j] == endpoints[j]);
                }
            }
            if forall|i: int|
                0 <= i < endpoints.len() ==> !is_report_endpoint(#[trigger] endpoints[i]) {
                assert forall|i: int| 0 <= i < rest.len() implies !is_report_endpoint(
                    #[trigger] rest[i],
                ) by {
                    assert(rest[i] == endpoints[i]);
                }
            }
        } else {
            assert(endpoints[endpoints.len() - 1] == endpoints.last());
        }
    }
}

/// The places of the HID interfaces are just those of the interfaces of the
/// HID class, each once, in rising order.
pub proof fn lemma_hid_interfaces(interfaces: Seq<InterfaceInfo>)
    ensures
        forall|k: int|
            0 <= k < hid_interfaces(interfaces).len() ==> {
                let at = #[trigger] hid_interfaces(interfaces)[k];
                0 <= at < interfaces.len() && interfaces[at].class_code == HID_CLASS
            },
        forall|j: int, k: int|
            0 <= j < k < hid_interfaces(interfaces).len() ==> #[trigger] hid_interfaces(
                interfaces,
            )[j] < #[trigger] hid_interfaces(interfaces)[k],
        forall|i: int|
            0 <= i < interfaces.len() && (#[trigger] interfaces[i]).class_code == HID_CLASS
                ==> hid_interfaces(interfaces).contains(i),
    decreases interfaces.len(),
{
    if interfaces.len() > 0 {
        let rest = interfaces.drop_last();
        let before = hid_interfaces(rest);
        let all = hid_interfaces(interfaces);
        lemma_hid_interfaces(rest);
        assert forall|i: int|
            0 <= i < interfaces.len() && (#[trigger] interfaces[i]).class_code
                == HID_CLASS implies all.contains(i) by {
            if i < rest.len() {
                assert(rest[i] == interfaces[i]);
                let k = choose|k: int| 0 <= k < before.len() && before[k] == i;
                assert(all[k] == i);
            } else {
                assert(all[all.len() - 1] == i);
            }
        }
        assert forall|k: int| 0 <= k < all.len() implies {
            let at = #[trigger] all[k];
            0 <= at < interfaces.len() && interfaces[at].class_code == HID_CLASS
        } by {
            if k < before.len() {
                assert(all[k] == before[k]);
                assert(rest[before[k]] == interfaces[before[k]]);
            }
        }
        assert forall|j: int, k: int| 0 <= j < k < all.len() implies #[trigger] all[j]
            < #[trigger] all[k] by {
            assert(all[j] == before[j]);
            if k < before.len() {
                assert(all[k] == before[k]);
            }
        }
    }
}

} // verus!
