//! The errors of the second queue flavour, which tells apart which side went
//! away.

use vstd::prelude::*;

verus! {

pub enum MsgQError {
    /// The worker dropped the request queue.
    MpscSendError,
    /// The worker dropped the answer channel.
    OneshotRecvError,
}

impl MsgQError {
    /// The error's text, as it is displayed.
    pub fn message(&self) -> (r: String)
        ensures
            match self {
                MsgQError::MpscSendError => r@ == "message queue closed with mpsc::SendError"@,
                MsgQError::OneshotRecvError => r@ == "message queue closed with oneshot::RecvError"@,
            },
    {
        match self {
            MsgQError::MpscSendError => String::from_str("message queue closed with mpsc::SendError"),
            MsgQError::OneshotRecvError => String::from_str(
                "message queue closed with oneshot::RecvError",
            ),
        }
    }
}

} // verus!
