//! What a background service offers to the program that runs it.

use vstd::prelude::*;

verus! {

/// A service that runs a loop of its own on another thread, such as the
/// main loop or a source of input.
pub trait Service {
    fn is_service_running(&self) -> bool;

    fn set_service_running(&mut self, new_status: bool);

    fn is_setup(&self) -> bool;

    /// Gets the service ready, for example by starting a device.
    fn setup(&mut self);

    fn start_service(&'static mut self) where Self: Send;

    fn stop_service(&mut self);
}

/// A service that looks after its own thread.
pub trait SimpleService {
    fn is_service_running(&self) -> bool;

    fn start_service(&mut self);

    fn stop_service(&mut self);
}

} // verus!
