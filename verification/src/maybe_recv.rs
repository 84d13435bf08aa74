//! A value that another thread hands over once, through a channel, and that
//! is kept once it has come.
use std::sync::mpsc::Receiver;
use vstd::prelude::*;

verus! {

#[verifier::external_type_specification]
#[verifier::external_body]
#[verifier::reject_recursive_types(T)]
pub struct ExReceiver<T>(Receiver<T>);

/// Waits on `std::sync::mpsc::Receiver::recv`: the value sent next, or
/// `None` once every sender is gone. What comes back depends on the sending
/// thread, so nothing is promised of it.
#[verifier::external_body]
fn receive<T>(rx: &Receiver<T>) -> (res: Option<T>) {
    rx.recv().ok()
}

/// Either the receiving end of a channel that will deliver the value, or the
/// value itself once it has been received.
#[verifier::reject_recursive_types(T)]
pub enum MaybeRecv<T: Clone> {
    Rx(Receiver<T>),
    Value(T),
}

impl<T: Clone> MaybeRecv<T> {
    /// The value: the kept one, or else the one received now, which is kept
    /// from then on. `None` when the channel closed before a value came.
    pub fn get(&mut self) -> (res: Option<&T>)
        ensures
            match *old(self) {
                MaybeRecv::Value(v) => *final(self) == *old(self) && res == Some(&v),
                MaybeRecv::Rx(_) => match res {
                    Some(v) => *final(self) == MaybeRecv::<T>::Value(*v),
                    None => *final(self) == *old(self),
                },
            },
    {
        let received = match &*self {
            MaybeRecv::Rx(rx) => match receive(rx) {
                Some(v) => Some(v),
                None => {
                    return None;
                },
            },
            MaybeRecv::Value(_) => None,
        };
        if let Some(v) = received {
            *self = MaybeRecv::Value(v);
        }
        match &*self {
            MaybeRecv::Value(v) => Some(v),
            MaybeRecv::Rx(_) => None,
        }
    }
}

} // verus!
