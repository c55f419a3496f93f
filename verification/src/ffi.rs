//! The containers in which the host hands telemetry to the core.
use vstd::prelude::*;

use crate::device::ffi::Data;
use crate::inventory::InventoryBuilder;
use crate::inventory::Symbol;

verus! {

/// A telemetry snapshot: the records the host read in one tick, in the order
/// it wrote them. The core owns the records from the moment it receives them.
pub struct DeviceDatas<P> {
    data: Vec<Data<P>>,
}

impl<P> View for DeviceDatas<P> {
    type V = Seq<Data<P>>;

    closed spec fn view(&self) -> Seq<Data<P>> {
        self.data@
    }
}

impl<P> DeviceDatas<P> {
    /// Wraps the records of one tick.
    pub fn new(data: Vec<Data<P>>) -> (datas: Self)
        ensures
            datas@ == data@,
    {
        DeviceDatas { data }
    }

    /// Hands the records out, in the host's order.
    pub fn into_vec(self) -> (records: Vec<Data<P>>)
        ensures
            records@ == self@,
    {
        self.data
    }
}

/// What the host hands over in one tick.
pub struct FFIData<P> {
    pub devices: DeviceDatas<P>,
}

/// The host's answer to a command issued to it directly: whether it went
/// through, and the payload that comes with the verdict.
pub struct Response<R> {
    pub ok: bool,
    pub data: R,
}

impl<R> Response<R> {
    /// Reads the answer: the payload is the result where the host accepted
    /// the command, and the host's error where it did not.
    pub fn into_result(self) -> (result: Result<R, R>)
        ensures
            self.ok ==> result == Ok::<R, R>(self.data),
            !self.ok ==> result == Err::<R, R>(self.data),
    {
        if self.ok {
            Ok(self.data)
        } else {
            Err(self.data)
        }
    }
}

/// The items of this module that cross the host boundary.
pub open spec fn boundary_symbols() -> Seq<Symbol> {
    seq![Symbol::DeviceDatas, Symbol::FFIData, Symbol::Response]
}

/// Registers the items of this module, behind all that `builder` holds.
pub fn __ffi_inventory(builder: InventoryBuilder) -> (inventory: InventoryBuilder)
    ensures
        inventory@ == builder@ + boundary_symbols(),
{
    builder.register(Symbol::DeviceDatas).register(Symbol::FFIData).register(
        Symbol::Response,
    )
}

} // verus!
