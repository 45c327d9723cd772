//! The module's bookkeeping for the host: how many objects and locks hold it
//! in memory, and which class it hands out.

use vstd::prelude::*;

use crate::error::ComError;
use crate::factory::IMEClassFactory;
use crate::globals::{GUID_TEXT_SERVICE, IID_CLASS_FACTORY};
use crate::guid::Guid;

verus! {

/// Counts what holds the module in memory.
#[derive(Debug, PartialEq, Eq)]
pub struct DllModule {
    ref_count: u32,
    ref_lock: u32,
    hinst: usize,
}

impl DllModule {
    /// The count of objects that are alive.
    pub closed spec fn references(&self) -> nat {
        self.ref_count as nat
    }

    /// The count of locks that are held.
    pub closed spec fn locks(&self) -> nat {
        self.ref_lock as nat
    }

    /// The handle under which the host loaded the module.
    pub closed spec fn handle(&self) -> usize {
        self.hinst
    }

    /// A module that nothing holds.
    pub fn new() -> (module: DllModule)
        ensures
            module.references() == 0,
            module.locks() == 0,
            module.handle() == 0,
    {
        DllModule { ref_count: 0, ref_lock: 0, hinst: 0 }
    }

    /// The handle under which the host loaded the module.
    pub fn hinst(&self) -> (handle: usize)
        ensures
            handle == self.handle(),
    {
        self.hinst
    }

    /// The count of objects that are alive.
    pub fn ref_count(&self) -> (count: u32)
        ensures
            count == self.references(),
    {
        self.ref_count
    }

    /// The count of locks that are held.
    pub fn ref_lock(&self) -> (count: u32)
        ensures
            count == self.locks(),
    {
        self.ref_lock
    }

    /// Notes the handle under which the host loaded the module.
    pub fn set_hinst(&mut self, handle: usize)
        ensures
            final(self).handle() == handle,
            final(self).references() == old(self).references(),
            final(self).locks() == old(self).locks(),
    {
        self.hinst = handle;
    }

    /// An object came alive. Returns the new count.
    pub fn add_ref(&mut self) -> (count: u32)
        requires
            old(self).references() < u32::MAX,
        ensures
            final(self).references() == old(self).references() + 1,
            final(self).locks() == old(self).locks(),
            final(self).handle() == old(self).handle(),
            count == final(self).references(),
    {
        self.ref_count += 1;
        self.ref_count
    }

    /// An object went away. Returns the new count.
    pub fn release(&mut self) -> (count: u32)
        requires
            old(self).references() > 0,
        ensures
            final(self).references() == old(self).references() - 1,
            final(self).locks() == old(self).locks(),
            final(self).handle() == old(self).handle(),
            count == final(self).references(),
    {
        self.ref_count -= 1;
        self.ref_count
    }

    /// A lock was taken. Returns the new count.
    pub fn lock(&mut self) -> (count: u32)
        requires
            old(self).locks() < u32::MAX,
        ensures
            final(self).locks() == old(self).locks() + 1,
            final(self).references() == old(self).references(),
            final(self).handle() == old(self).handle(),
            count == final(self).locks(),
    {
        self.ref_lock += 1;
        self.ref_lock
    }

    /// A lock was given back. Returns the new count.
    pub fn unlock(&mut self) -> (count: u32)
        requires
            old(self).locks() > 0,
        ensures
            final(self).locks() == old(self).locks() - 1,
            final(self).references() == old(self).references(),
            final(self).handle() == old(self).handle(),
            count == final(self).locks(),
    {
        self.ref_lock -= 1;
        self.ref_lock
    }

    /// Whether the host may unload the module: nothing is alive and nothing
    /// is locked.
    pub fn can_unload(&self) -> (free: bool)
        ensures
            free <==> self.references() == 0 && self.locks() == 0,
    {
        self.ref_count == 0 && self.ref_lock == 0
    }
}

/// Answers the host's request for a class object: the factory of the text
/// service, asked for as a class factory. Any other class is
/// `ClassNotAvailable`, any other interface `Unexpected`.
pub fn class_object(rclsid: Guid, riid: Guid) -> (r: Result<IMEClassFactory, ComError>)
    ensures
        r is Ok <==> rclsid == Guid(GUID_TEXT_SERVICE) && riid == Guid(IID_CLASS_FACTORY),
        r matches Err(e) ==> e == if rclsid != Guid(GUID_TEXT_SERVICE) {
            ComError::ClassNotAvailable
        } else {
            ComError::Unexpected
        },
{
    if rclsid != Guid(GUID_TEXT_SERVICE) {
        return Err(ComError::ClassNotAvailable);
    }
    if riid != Guid(IID_CLASS_FACTORY) {
        return Err(ComError::Unexpected);
    }
    Ok(IMEClassFactory::new())
}

} // verus!
