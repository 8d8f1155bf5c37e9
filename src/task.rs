use vstd::prelude::*;

verus! {

/// The task half of a driver, as the scheduler sees it.
pub trait DriverTask {
    /// Whether a raw event waits in the driver's mailbox.
    spec fn spec_has_message(&self) -> bool;

    fn has_message(&self) -> (r: bool)
        ensures
            r == self.spec_has_message(),
    ;
}

/// A driver whose operations stay active until their final event arrives.
pub trait DriverTaskWithState: DriverTask {
    /// Whether an operation is in flight (ongoing, or aborted and not yet
    /// acknowledged by the kernel).
    spec fn spec_is_active(&self) -> bool;

    fn is_active(&self) -> (r: bool)
        ensures
            r == self.spec_is_active(),
    ;
}

/// The client half of a driver, as the application sees it.
pub trait DriverTaskClient: Sized {
    /// Whether an unread client message is held.
    spec fn spec_has_message(&self) -> bool;

    /// The client after every unread message has been dropped.
    spec fn spec_reaped(&self) -> Self;

    fn has_message(&self) -> (r: bool)
        ensures
            r == self.spec_has_message(),
    ;

    /// Drops every unread client message.
    fn reap_message(&mut self)
        ensures
            *final(self) == old(self).spec_reaped(),
            !final(self).spec_has_message(),
    ;
}

} // verus!
