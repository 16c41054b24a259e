use vstd::prelude::*;

verus! {

/// The real-time feeds a websocket client can subscribe to; each feed exists
/// as JSON and as MessagePack.
#[derive(PartialEq, Eq, Structural, Hash, Clone, Copy, Debug)]
pub enum ConnectionType {
    Last,
    MbpEvent,
    Nbbo,
    Tns,
    Volume,
    InterestEvent,
    LastMsgp,
    MbpEventMsgp,
    NbboMsgp,
    TnsMsgp,
    VolumeMsgp,
    InterestEventMsgp,
}

} // verus!
