use vstd::prelude::*;

verus! {

/// A one-shot channel end of tokio, by which the host learns that the script
/// has finished handling a scheduled event.
#[verifier::external_type_specification]
#[verifier::external_body]
#[verifier::reject_recursive_types(T)]
pub struct ExOneshotSender<T>(tokio::sync::oneshot::Sender<T>);

/// `tokio::sync::oneshot::Sender::send`: hands the unit value to the receiver.
/// Whether it arrives depends on whether the receiver is still there, so
/// nothing is stated of the result.
#[verifier::external_body]
fn send_completion(tx: tokio::sync::oneshot::Sender<()>) -> (r: Result<(), ()>) {
    tx.send(())
}

/// What the host hands the script for a scheduled (cron-like) run: the time of
/// the run and the channel by which the script reports that it is done.
#[derive(Debug)]
pub struct ScheduledInit {
    pub res_tx: tokio::sync::oneshot::Sender<()>,
    pub time: u64,
}

/// The payload the script receives for a scheduled run: the resource id under
/// which the run is registered and its time.
#[derive(Debug, Clone, Copy, PartialEq, Eq)]
pub struct ScheduledEvent {
    pub rid: u32,
    pub time: u64,
}

impl ScheduledInit {
    pub fn new(res_tx: tokio::sync::oneshot::Sender<()>, time: u64) -> (s: Self)
        ensures
            s.res_tx == res_tx,
            s.time == time,
    {
        ScheduledInit { res_tx, time }
    }

    /// The event the script receives for this run, registered under `rid`.
    pub fn event(&self, rid: u32) -> (e: ScheduledEvent)
        ensures
            e == (ScheduledEvent { rid, time: self.time }),
    {
        ScheduledEvent { rid, time: self.time }
    }

    /// Tells the host that the script has handled the run. `Err` means that
    /// the host no longer listens.
    pub fn respond(self) -> (r: Result<(), ()>) {
        send_completion(self.res_tx)
    }
}

} // verus!
