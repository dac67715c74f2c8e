use vstd::prelude::*;

verus! {

/// Every way a build step of the resource chain can fail.  A failed step
/// never hands back a half-initialized resource: constructors return an
/// error instead, and an operation on `&mut` state leaves the state as it
/// was.
#[derive(Clone, Copy, PartialEq, Eq, Structural, Debug)]
pub enum BuildError {
    /// No memory type of the device both appears in the requirements mask
    /// and carries every requested property flag.
    NoSuitableMemoryType,
    /// The device cannot hand out another address range of the requested
    /// size.
    DeviceAddressSpaceExhausted,
    /// A payload handed to `store` is larger than the buffer's allocation.
    PayloadTooLarge,
    /// A size query reported a zero-sized structure, which cannot back a
    /// valid acceleration structure.
    InvalidBuildSize,
    /// The opaque shader-group handle blob does not hold exactly one handle
    /// per declared group.
    InvalidHandleData,
    /// The reported shader-group handle size is zero or not a multiple of
    /// the reported handle alignment, so no legal record stride exists.
    MisalignedHandleSize,
}

} // verus!
