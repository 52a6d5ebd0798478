//! Device-discovery and endpoint-selection rules.
//!
//! The host USB stack enumerates devices and endpoint descriptors; the rules
//! below decide which device to open and which bulk endpoints carry the
//! link. The caller hands the descriptors in as plain values and performs
//! the actual transfers itself.

use vstd::prelude::*;

use crate::errors::LinkError;

verus! {

/// The vendor identifier of the dongle.
pub const ID_VENDOR: u16 = 0x1314;

/// The product identifier of the dongle.
pub const ID_PRODUCT: u16 = 0x1520;

/// The vendor/product pair a device advertises.
#[derive(Clone, Copy, Debug, PartialEq, Eq, Structural)]
pub struct DeviceId {
    pub vendor_id: u16,
    pub product_id: u16,
}

/// Transfer direction of an endpoint, as its descriptor declares it.
#[derive(Clone, Copy, Debug, PartialEq, Eq, Structural)]
pub enum EndpointDirection {
    /// Device to host.
    In,
    /// Host to device.
    Out,
}

/// Transfer kind of an endpoint, as its descriptor declares it.
#[derive(Clone, Copy, Debug, PartialEq, Eq, Structural)]
pub enum EndpointTransfer {
    Control,
    Isochronous,
    Bulk,
    Interrupt,
}

/// One endpoint descriptor, reduced to what the selection rule reads.
#[derive(Clone, Copy, Debug, PartialEq, Eq, Structural)]
pub struct EndpointDesc {
    pub address: u8,
    pub direction: EndpointDirection,
    pub transfer: EndpointTransfer,
}

/// An endpoint suitable for reading from the device.
pub open spec fn is_bulk_in(e: EndpointDesc) -> bool {
    e.direction is In && e.transfer is Bulk
}

/// An endpoint suitable for writing to the device.
pub open spec fn is_bulk_out(e: EndpointDesc) -> bool {
    e.direction is Out && e.transfer is Bulk
}

/// Whether `d` matches the wanted vendor/product pair.
pub open spec fn id_matches(d: DeviceId, vendor_id: u16, product_id: u16) -> bool {
    d.vendor_id == vendor_id && d.product_id == product_id
}

/// Picks the first attached device matching both identifiers.
pub fn find_device(devices: &Vec<DeviceId>, vendor_id: u16, product_id: u16) -> (r: Option<
    usize,
>)
    ensures
        (match r {
            Some(i) => {
                &&& i < devices@.len()
                &&& id_matches(devices@[i as int], vendor_id, product_id)
                &&& forall|k: int|
                    0 <= k < i ==> !id_matches(devices@[k], vendor_id, product_id)
            },
            None => forall|k: int|
                0 <= k < devices@.len() ==> !id_matches(devices@[k], vendor_id, product_id),
        }),
{
    let n: usize = devices.len();
    let mut i: usize = 0;
    while i < n
        invariant
            n == devices@.len(),
            i <= n,
            forall|k: int| 0 <= k < i ==> !id_matches(devices@[k], vendor_id, product_id),
        decreases n - i,
    {
        let d = devices[i];
        if d.vendor_id == vendor_id && d.product_id == product_id {
            return Some(i);
        }
        i = i + 1;
    }
    None
}

/// Selects the bulk endpoint pair of a claimed interface: the read endpoint
/// is the first whose descriptor direction is IN, the write endpoint the
/// first whose direction is OUT, never the reverse, whatever order the
/// descriptors are enumerated in. Fails with `EndpointNotFound` exactly when
/// a required direction has no bulk endpoint.
pub fn select_endpoints(endpoints: &Vec<EndpointDesc>) -> (r: Result<(u8, u8), LinkError>)
    ensures
        (match r {
            Ok((ep_in, ep_out)) => {
                &&& exists|i: int|
                    {
                        &&& 0 <= i < endpoints@.len()
                        &&& is_bulk_in(#[trigger] endpoints@[i])
                        &&& endpoints@[i].address == ep_in
                        &&& forall|k: int| 0 <= k < i ==> !is_bulk_in(endpoints@[k])
                    }
                &&& exists|j: int|
                    {
                        &&& 0 <= j < endpoints@.len()
                        &&& is_bulk_out(#[trigger] endpoints@[j])
                        &&& endpoints@[j].address == ep_out
                        &&& forall|k: int| 0 <= k < j ==> !is_bulk_out(endpoints@[k])
                    }
            },
            Err(e) => {
                &&& e == LinkError::EndpointNotFound
                &&& {
                    ||| forall|k: int| 0 <= k < endpoints@.len() ==> !is_bulk_in(#[trigger] endpoints@[k])
                    ||| forall|k: int| 0 <= k < endpoints@.len() ==> !is_bulk_out(#[trigger] endpoints@[k])
                }
            },
        }),
{
    let n: usize = endpoints.len();
    let mut ep_in: Option<u8> = None;
    let ghost mut in_idx: int = 0;
    let mut ep_out: Option<u8> = None;
    let ghost mut out_idx: int = 0;
    let mut i: usize = 0;
    while i < n
        invariant
            n == endpoints@.len(),
            i <= n,
            (match ep_in {
                Some(a) => {
                    &&& 0 <= in_idx < i
                    &&& is_bulk_in(endpoints@[in_idx])
                    &&& endpoints@[in_idx].address == a
                    &&& forall|k: int| 0 <= k < in_idx ==> !is_bulk_in(endpoints@[k])
                },
                None => forall|k: int| 0 <= k < i ==> !is_bulk_in(#[trigger] endpoints@[k]),
            }),
            (match ep_out {
                Some(a) => {
                    &&& 0 <= out_idx < i
                    &&& is_bulk_out(endpoints@[out_idx])
                    &&& endpoints@[out_idx].address == a
                    &&& forall|k: int| 0 <= k < out_idx ==> !is_bulk_out(endpoints@[k])
                },
                None => forall|k: int| 0 <= k < i ==> !is_bulk_out(#[trigger] endpoints@[k]),
            }),
        decreases n - i,
    {
        let e = endpoints[i];
        let bulk: bool = match e.transfer {
            EndpointTransfer::Bulk => true,
            _ => false,
        };
        let is_in: bool = match e.direction {
            EndpointDirection::In => true,
            EndpointDirection::Out => false,
        };
        if bulk && is_in && ep_in.is_none() {
            ep_in = Some(e.address);
            proof {
                in_idx = i as int;
            }
        }
        if bulk && !is_in && ep_out.is_none() {
            ep_out = Some(e.address);
            proof {
                out_idx = i as int;
            }
        }
        i = i + 1;
    }
    match (ep_in, ep_out) {
        (Some(a_in), Some(a_out)) => Ok((a_in, a_out)),
        _ => Err(LinkError::EndpointNotFound),
    }
}

} // verus!
