use vstd::prelude::*;

verus! {

/// One raw upcall as the kernel delivers it: three machine words and the
/// user-data word given at subscription. What the words mean depends on the
/// driver.
#[derive(Clone, Copy, Debug, PartialEq, Eq, Structural)]
pub struct CallbackMessage {
    pub arg0: usize,
    pub arg1: usize,
    pub arg2: usize,
    pub userdata: usize,
}

impl CallbackMessage {
    pub fn new(arg0: usize, arg1: usize, arg2: usize, userdata: usize) -> (r: CallbackMessage)
        ensures
            r == (CallbackMessage { arg0, arg1, arg2, userdata }),
    {
        CallbackMessage { arg0, arg1, arg2, userdata }
    }

    pub fn get_arg0(&self) -> (r: usize)
        ensures
            r == self.arg0,
    {
        self.arg0
    }

    pub fn get_arg1(&self) -> (r: usize)
        ensures
            r == self.arg1,
    {
        self.arg1
    }

    pub fn get_arg2(&self) -> (r: usize)
        ensures
            r == self.arg2,
    {
        self.arg2
    }

    pub fn get_userdata(&self) -> (r: usize)
        ensures
            r == self.userdata,
    {
        self.userdata
    }
}

/// A kernel call that a driver asks its caller to issue, with the numeric
/// identifiers of the kernel's driver table.
#[derive(Clone, Copy, Debug, PartialEq, Eq, Structural)]
pub enum Syscall {
    /// Share the driver's buffer `num`, of which the first `len` bytes are used.
    Allow { driver: usize, num: usize, len: usize },
    /// Register the driver's upcall `num`; its events go to the driver's mailbox.
    Subscribe { driver: usize, num: usize },
    /// Issue command `num` with two arguments.
    Command { driver: usize, num: usize, arg0: usize, arg1: usize },
}

} // verus!
