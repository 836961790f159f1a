use vstd::prelude::*;

verus! {

/// A SIP dialog, known by its address.
pub struct PjSipDialog {
    pub dialog: usize,
}

impl PjSipDialog {
    /// The address of the dialog.
    pub fn as_mut_ptr(&mut self) -> (r: usize)
        ensures
            r == old(self).dialog,
            *final(self) == *old(self),
    {
        self.dialog
    }
}

} // verus!
