use vstd::prelude::*;

use crate::error::Error;

verus! {

/// A SIP module (`pjsip_module`): its name and the id that the endpoint
/// gives it on registration, -1 before.
pub struct ModuleData {
    pub name: String,
    pub id: i32,
}

/// A SIP module that this value owns, with the address of the endpoint it
/// was registered with, if any.
pub struct PjSipModule {
    pub pjsip_module: PjSipModuleRef,
    pub sip_endpt: Option<usize>,
}

impl PjSipModule {
    /// A module named `name`, not registered: its id is -1.
    pub fn new(name: &str) -> (r: Result<Self, Error>)
        ensures
            r matches Ok(m) && m.pjsip_module.pjsip_module.name@ == name@
                && m.pjsip_module.pjsip_module.id == -1 && m.sip_endpt is None,
    {
        Ok(
            PjSipModule {
                pjsip_module: PjSipModuleRef::from(ModuleData { name: name.to_owned(), id: -1 }),
                sip_endpt: None,
            },
        )
    }

    pub fn id(&self) -> (r: i32)
        ensures
            r == self.pjsip_module.pjsip_module.id,
    {
        self.pjsip_module.id()
    }

    pub fn as_ptr(&self) -> (r: &ModuleData)
        ensures
            *r == self.pjsip_module.pjsip_module,
    {
        self.pjsip_module.as_ptr()
    }

    pub fn as_mut_ptr(&mut self) -> (r: &mut ModuleData)
        ensures
            *r == old(self).pjsip_module.pjsip_module,
            final(self).pjsip_module.pjsip_module == *final(r),
            final(self).sip_endpt == old(self).sip_endpt,
    {
        &mut self.pjsip_module.pjsip_module
    }

    /// Records the endpoint (by its address) that the module was
    /// registered with.
    pub fn registered(&mut self, sip_endpt: usize)
        ensures
            final(self).sip_endpt == Some(sip_endpt),
            final(self).pjsip_module == old(self).pjsip_module,
    {
        self.sip_endpt = Some(sip_endpt);
    }
}

/// A view of a SIP module.
pub struct PjSipModuleRef {
    pub pjsip_module: ModuleData,
}

impl PjSipModuleRef {
    pub fn as_ptr(&self) -> (r: &ModuleData)
        ensures
            *r == self.pjsip_module,
    {
        &self.pjsip_module
    }

    pub fn id(&self) -> (r: i32)
        ensures
            r == self.pjsip_module.id,
    {
        self.pjsip_module.id
    }

    pub fn from(value: ModuleData) -> (r: Self)
        ensures
            r.pjsip_module == value,
    {
        PjSipModuleRef { pjsip_module: value }
    }
}

/// A view of a SIP module that may change it.
pub struct PjSipModuleRefMut {
    pub pjsip_module: ModuleData,
}

impl PjSipModuleRefMut {
    pub fn id(&self) -> (r: i32)
        ensures
            r == self.pjsip_module.id,
    {
        self.pjsip_module.id
    }

    pub fn from(value: ModuleData) -> (r: Self)
        ensures
            r.pjsip_module == value,
    {
        PjSipModuleRefMut { pjsip_module: value }
    }
}

/// The user agent layer is a SIP module.
pub type PjSipUserAgentRef = PjSipModuleRef;

} // verus!
