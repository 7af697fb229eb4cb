use vstd::prelude::*;

verus! {

#[verifier::external_type_specification]
#[verifier::external_body]
#[verifier::reject_recursive_types(T)]
pub struct ExSender<T>(std::sync::mpsc::Sender<T>);

/// Relies on `Clone` for `std::sync::mpsc::Sender`: another sender on the
/// same channel.
pub assume_specification<T>[ <std::sync::mpsc::Sender<T> as Clone>::clone ](
    s: &std::sync::mpsc::Sender<T>,
) -> std::sync::mpsc::Sender<T>;

/// Relies on `std::sync::mpsc::Sender::send`: queues one value for the
/// receiver, or reports that the receiver is gone.
#[verifier::external_body]
fn send_token(tx: &std::sync::mpsc::Sender<()>) -> (r: bool) {
    tx.send(()).is_ok()
}

/// A handle that stops the event loop of the application that made it. It
/// can be cloned and sent to any thread.
#[derive(Clone)]
pub struct FruitStopper {
    tx: std::sync::mpsc::Sender<()>,
}

impl FruitStopper {
    /// A stopper that sends its stop requests on `tx`.
    pub fn new(tx: std::sync::mpsc::Sender<()>) -> (r: FruitStopper) {
        FruitStopper { tx }
    }

    /// Asks the loop to stop at its next stop check. Further requests are
    /// harmless; a request after the application is gone is dropped.
    pub fn stop(&self) {
        let _ = send_token(&self.tx);
    }
}

} // verus!
