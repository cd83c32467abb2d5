use vstd::prelude::*;

verus! {

/// An audio endpoint `D` together with its opened property store `P`.
pub struct DeviceSlim<D, P> {
    property_store: P,
    device: D,
}

impl<D, P> DeviceSlim<D, P> {
    /// The endpoint.
    pub closed spec fn spec_device(&self) -> D {
        self.device
    }

    /// The property store of the endpoint.
    pub closed spec fn spec_property_store(&self) -> P {
        self.property_store
    }

    /// An endpoint and the property store opened on it.
    pub fn from_parts(device: D, property_store: P) -> (result: Self)
        ensures
            result.spec_device() == device,
            result.spec_property_store() == property_store,
    {
        Self { property_store, device }
    }

    /// The endpoint.
    pub fn device(&self) -> (result: &D)
        ensures
            *result == self.spec_device(),
    {
        &self.device
    }

    /// The property store of the endpoint.
    pub fn property_store(&self) -> (result: &P)
        ensures
            *result == self.spec_property_store(),
    {
        &self.property_store
    }
}

} // verus!
