//! A value-level model of the platform graphics factory.
//!
//! The factory is the call surface the platform exposes: enumerate the
//! adapter at an index, describe an adapter, request the dedicated
//! software adapter, and create a device at a feature level.  Here that
//! surface is held as plain data — the adapters the host would report, in
//! enumeration order, with the status codes each call would answer — so
//! the selection and negotiation logic above it is verified for every
//! host a factory could describe, including the failing ones.

use vstd::prelude::*;

use crate::adapter::AdapterDescriptor;
use crate::feature::{level_le, level_supported, FeatureLevel};
use crate::status::{
    is_success, succeeded, STATUS_INVALID_CALL, STATUS_NOT_FOUND, STATUS_OK, STATUS_UNSUPPORTED,
};

verus! {

/// A reference to one adapter, as the factory hands it out.  A handle may
/// be null: the payload of a failed call, which must not be used further.
#[derive(Clone, Copy, PartialEq, Eq, Structural, Debug)]
pub enum AdapterHandle {
    /// The null-equivalent handle a failed call returns.
    Null,
    /// The adapter at this enumeration index.
    Indexed(u32),
    /// The dedicated software (emulated) adapter.
    Software,
}

impl AdapterHandle {
    /// A null handle must be treated as a terminal configuration error by
    /// whoever needed the adapter.
    pub fn is_null(&self) -> (r: bool)
        ensures
            r == (*self is Null),
    {
        match self {
            AdapterHandle::Null => true,
            _ => false,
        }
    }
}

/// A logical device handle, or the null payload of a failed create call.
#[derive(Clone, Copy, PartialEq, Eq, Structural, Debug)]
pub enum DeviceHandle {
    /// The null-equivalent handle a failed call returns.
    Null,
    /// A device bound to the adapter it was created on, at the level that
    /// was requested.
    Bound { adapter: AdapterHandle, level: FeatureLevel },
}

impl DeviceHandle {
    pub fn is_null(&self) -> (r: bool)
        ensures
            r == (*self is Null),
    {
        match self {
            DeviceHandle::Null => true,
            _ => false,
        }
    }
}

/// One adapter as the host reports it: its descriptor, the highest
/// feature level a device on it can be created at, and the status code
/// its describe call answers.
pub struct AdapterInfo {
    pub descriptor: AdapterDescriptor,
    /// Highest tier the platform reports this adapter as supporting.
    pub max_level: FeatureLevel,
    /// Status the describe call returns; a failure skips this adapter's
    /// display block but never stops the inventory.
    pub descriptor_status: u32,
}

/// An injected enumeration fault: at this index the enumerate call
/// answers this failure status instead of an adapter or the not-found
/// sentinel.
#[derive(Clone, Copy, PartialEq, Eq, Structural, Debug)]
pub struct EnumFault {
    pub index: u32,
    pub status: u32,
}

/// The factory model: everything the platform would answer, as data.
pub struct Factory {
    /// The adapters of the host, in enumeration order.
    pub adapters: Vec<AdapterInfo>,
    /// The dedicated software adapter.
    pub software: AdapterInfo,
    /// Status the software-adapter request answers.
    pub software_status: u32,
    /// An unexpected enumeration failure, if the host exhibits one.
    pub enum_fault: Option<EnumFault>,
}

impl Factory {
    /// A factory makes sense when its adapter count fits an index and an
    /// injected fault is a real failure, distinct from the sentinel.
    pub open spec fn wf(self) -> bool {
        &&& self.adapters.len() < u32::MAX as int
        &&& (self.enum_fault matches Some(f) ==> !is_success(f.status) && f.status
            != STATUS_NOT_FOUND)
    }

    /// The enumerate call faults at this index.
    pub open spec fn spec_fault_at(self, index: u32) -> bool {
        self.enum_fault matches Some(f) && f.index == index
    }

    /// What enumerating `index` answers: the fault if one is injected
    /// there, the adapter while the index is in range, and the not-found
    /// sentinel with a null handle past the end.
    pub open spec fn spec_enumerate(self, index: u32) -> (AdapterHandle, u32) {
        if self.spec_fault_at(index) {
            (AdapterHandle::Null, self.enum_fault.unwrap().status)
        } else if (index as int) < self.adapters.len() {
            (AdapterHandle::Indexed(index), STATUS_OK)
        } else {
            (AdapterHandle::Null, STATUS_NOT_FOUND)
        }
    }

    /// What the software-adapter request answers.
    pub open spec fn spec_software(self) -> (AdapterHandle, u32) {
        if is_success(self.software_status) {
            (AdapterHandle::Software, self.software_status)
        } else {
            (AdapterHandle::Null, self.software_status)
        }
    }

    /// The adapter record a handle refers to, when it refers to one.
    pub open spec fn spec_info_of(self, handle: AdapterHandle) -> Option<AdapterInfo> {
        match handle {
            AdapterHandle::Null => None,
            AdapterHandle::Indexed(i) => if (i as int) < self.adapters.len() {
                Some(self.adapters[i as int])
            } else {
                None
            },
            AdapterHandle::Software => Some(self.software),
        }
    }

    /// What describing a handle answers: the descriptor with its status
    /// when the handle is live and the describe call succeeds; no payload
    /// otherwise.
    pub open spec fn spec_descriptor(self, handle: AdapterHandle) -> (
        Option<AdapterDescriptor>,
        u32,
    ) {
        match self.spec_info_of(handle) {
            None => (None, STATUS_INVALID_CALL),
            Some(info) => if is_success(info.descriptor_status) {
                (Some(info.descriptor), info.descriptor_status)
            } else {
                (None, info.descriptor_status)
            },
        }
    }

    /// What creating a device answers: a bound device when the handle is
    /// live and the adapter's reported level satisfies the request; a
    /// null device with the matching failure status otherwise.
    pub open spec fn spec_create_device(self, handle: AdapterHandle, requested: FeatureLevel) -> (
        DeviceHandle,
        u32,
    ) {
        match self.spec_info_of(handle) {
            None => (DeviceHandle::Null, STATUS_INVALID_CALL),
            Some(info) => if level_le(requested, info.max_level) {
                (DeviceHandle::Bound { adapter: handle, level: requested }, STATUS_OK)
            } else {
                (DeviceHandle::Null, STATUS_UNSUPPORTED)
            },
        }
    }

    /// Enumerates the adapter at `index`.
    pub fn enumerate_adapters(&self, index: u32) -> (r: (AdapterHandle, u32))
        ensures
            r == self.spec_enumerate(index),
    {
        match &self.enum_fault {
            Some(f) if f.index == index => (AdapterHandle::Null, f.status),
            _ => {
                if (index as usize) < self.adapters.len() {
                    (AdapterHandle::Indexed(index), STATUS_OK)
                } else {
                    (AdapterHandle::Null, STATUS_NOT_FOUND)
                }
            },
        }
    }

    /// Requests the dedicated software adapter.
    pub fn request_software_adapter(&self) -> (r: (AdapterHandle, u32))
        ensures
            r == self.spec_software(),
    {
        if succeeded(self.software_status) {
            (AdapterHandle::Software, self.software_status)
        } else {
            (AdapterHandle::Null, self.software_status)
        }
    }

    /// Queries the descriptor of the adapter a handle refers to.
    pub fn get_descriptor(&self, handle: AdapterHandle) -> (r: (Option<&AdapterDescriptor>, u32))
        ensures
            r.1 == self.spec_descriptor(handle).1,
            r.0 is Some <==> self.spec_descriptor(handle).0 is Some,
            r.0 matches Some(d) ==> self.spec_descriptor(handle).0 == Some(*d),
    {
        match handle {
            AdapterHandle::Null => (None, STATUS_INVALID_CALL),
            AdapterHandle::Indexed(i) => {
                if (i as usize) < self.adapters.len() {
                    let info = &self.adapters[i as usize];
                    if succeeded(info.descriptor_status) {
                        (Some(&info.descriptor), info.descriptor_status)
                    } else {
                        (None, info.descriptor_status)
                    }
                } else {
                    (None, STATUS_INVALID_CALL)
                }
            },
            AdapterHandle::Software => {
                if succeeded(self.software.descriptor_status) {
                    (Some(&self.software.descriptor), self.software.descriptor_status)
                } else {
                    (None, self.software.descriptor_status)
                }
            },
        }
    }

    /// Creates a logical device on the adapter a handle refers to, at one
    /// requested feature level.  There is no downgrade search: the level
    /// is satisfied or the call fails.
    pub fn create_device(&self, handle: AdapterHandle, requested: FeatureLevel) -> (r: (
        DeviceHandle,
        u32,
    ))
        ensures
            r == self.spec_create_device(handle, requested),
    {
        match handle {
            AdapterHandle::Null => (DeviceHandle::Null, STATUS_INVALID_CALL),
            AdapterHandle::Indexed(i) => {
                if (i as usize) < self.adapters.len() {
                    let info = &self.adapters[i as usize];
                    if level_supported(info.max_level, requested) {
                        (DeviceHandle::Bound { adapter: handle, level: requested }, STATUS_OK)
                    } else {
                        (DeviceHandle::Null, STATUS_UNSUPPORTED)
                    }
                } else {
                    (DeviceHandle::Null, STATUS_INVALID_CALL)
                }
            },
            AdapterHandle::Software => {
                if level_supported(self.software.max_level, requested) {
                    (DeviceHandle::Bound { adapter: handle, level: requested }, STATUS_OK)
                } else {
                    (DeviceHandle::Null, STATUS_UNSUPPORTED)
                }
            },
        }
    }
}

} // verus!
