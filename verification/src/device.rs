//! Devices: their identity and the capabilities every device type offers.
use vstd::prelude::*;

pub mod ffi;
pub mod spark;

use crate::device::ffi::DeviceIdentity;
use crate::device::ffi::Type;
use crate::inventory::InventoryBuilder;
use crate::inventory::Symbol;

verus! {

/// What every concrete device type provides: the kind it belongs to and the
/// number that tells its instances apart.
pub trait Device {
    /// The kind of device that this type drives.
    spec fn spec_kind() -> Type;

    fn kind() -> (kind: Type)
        ensures
            kind == Self::spec_kind(),
    ;

    /// The number of this instance among the devices of its kind.
    spec fn spec_id(&self) -> u8;

    fn id(&self) -> (id: u8)
        ensures
            id == self.spec_id(),
    ;
}

/// The identity under which `device` is registered, cached and addressed.
pub open spec fn identity_of<D: Device>(device: &D) -> DeviceIdentity {
    DeviceIdentity { kind: D::spec_kind(), id: device.spec_id() }
}

/// The items of the devices that cross the host boundary: the records all
/// devices share, then those of each kind of device.
pub open spec fn boundary_symbols() -> Seq<Symbol> {
    ffi::boundary_symbols() + spark::boundary_symbols()
}

/// Registers the items of the devices, behind all that `builder` holds.
pub fn __ffi_inventory(builder: InventoryBuilder) -> (inventory: InventoryBuilder)
    ensures
        inventory@ == builder@ + boundary_symbols(),
{
    spark::__ffi_inventory(ffi::__ffi_inventory(builder))
}

} // verus!
