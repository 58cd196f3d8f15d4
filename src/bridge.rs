use vstd::prelude::*;
use crate::channel::{PAYLOAD_CAPACITY, WaitResult};

verus! {

fn copy_prefix(buf: &Vec<u8>, n: usize) -> (r: Vec<u8>)
    requires
        n <= buf@.len(),
    ensures
        r@ == buf@.take(n as int),
{
    let mut r: Vec<u8> = Vec::new();
    let mut i: usize = 0;
    while i < n
        invariant
            i <= n,
            n <= buf@.len(),
            r@ == buf@.take(i as int),
        decreases n - i,
    {
        r.push(buf[i]);
        i = i + 1;
        assert(r@ =~= buf@.take(i as int));
    }
    r
}

/// The payload to publish after a read put `n` bytes at the front of `buf`:
/// the non-empty chunk read, when it fits in one payload.
pub fn payload_from_chunk(buf: &Vec<u8>, n: usize) -> (r: Option<Vec<u8>>)
    ensures
        (0 < n && n <= buf@.len() && n <= PAYLOAD_CAPACITY) ==> (match r {
            Some(p) => p@ == buf@.take(n as int),
            None => false,
        }),
        !(0 < n && n <= buf@.len() && n <= PAYLOAD_CAPACITY) ==> r is None,
{
    if n == 0 || n > buf.len() || n > PAYLOAD_CAPACITY {
        None
    } else {
        Some(copy_prefix(buf, n))
    }
}

/// The bytes to write back after a read put `n` bytes at the front of `buf`:
/// exactly those, unchanged.
pub fn echo_reply(buf: &Vec<u8>, n: usize) -> (r: Vec<u8>)
    requires
        n <= buf@.len(),
    ensures
        r@ == buf@.take(n as int),
{
    copy_prefix(buf, n)
}

/// What a task that drains a channel into a byte sink does next.
pub enum SinkAction {
    /// Write these bytes to the sink.
    Write(Vec<u8>),
    /// Record that this many messages were lost, then wait again.
    ReportLag(u64),
}

/// Turn what the subscriber received into the action on the sink.
pub fn forward_action(r: WaitResult) -> (a: SinkAction)
    ensures
        match r {
            WaitResult::Message(p) => a == SinkAction::Write(p),
            WaitResult::Lagged(k) => a == SinkAction::ReportLag(k),
        },
{
    match r {
        WaitResult::Message(p) => SinkAction::Write(p),
        WaitResult::Lagged(k) => SinkAction::ReportLag(k),
    }
}

/// Which of two awaited event sources fired.
#[derive(Debug, Clone, Copy, PartialEq, Eq, Structural)]
pub enum Either {
    First,
    Second,
}

/// Choose the event source to serve: the first listed wins a tie, and
/// nothing is chosen while neither is ready.
pub fn select_ready(first_ready: bool, second_ready: bool) -> (r: Option<Either>)
    ensures
        first_ready ==> r == Some(Either::First),
        !first_ready && second_ready ==> r == Some(Either::Second),
        !first_ready && !second_ready ==> r is None,
{
    if first_ready {
        Some(Either::First)
    } else if second_ready {
        Some(Either::Second)
    } else {
        None
    }
}

/// Which of three awaited event sources fired.
#[derive(Debug, Clone, Copy, PartialEq, Eq, Structural)]
pub enum Either3 {
    First,
    Second,
    Third,
}

/// Choose among three event sources, the earliest listed first; a source
/// not chosen stays pending for the next round.
pub fn select3_ready(first_ready: bool, second_ready: bool, third_ready: bool) -> (r: Option<
    Either3,
>)
    ensures
        first_ready ==> r == Some(Either3::First),
        !first_ready && second_ready ==> r == Some(Either3::Second),
        !first_ready && !second_ready && third_ready ==> r == Some(Either3::Third),
        !first_ready && !second_ready && !third_ready ==> r is None,
{
    if first_ready {
        Some(Either3::First)
    } else if second_ready {
        Some(Either3::Second)
    } else if third_ready {
        Some(Either3::Third)
    } else {
        None
    }
}

/// Failure of a USB endpoint operation.
#[derive(Debug, Clone, Copy, PartialEq, Eq, Structural)]
pub enum EndpointError {
    /// The packet did not fit the buffer.
    BufferOverflow,
    /// The host disabled the endpoint.
    Disabled,
}

/// The host went away.
#[derive(Debug, Clone, Copy, PartialEq, Eq, Structural)]
pub struct Disconnected {}

/// An endpoint failure that no reconnection can mend.
#[derive(Debug, Clone, Copy, PartialEq, Eq, Structural)]
pub enum BridgeFault {
    BufferOverflow,
}

/// A disabled endpoint means the host disconnected; an overflow is a fault.
pub fn disconnected_from(e: EndpointError) -> (r: Result<Disconnected, BridgeFault>)
    ensures
        e == EndpointError::Disabled ==> r == Ok::<Disconnected, BridgeFault>(Disconnected {}),
        e == EndpointError::BufferOverflow ==> r == Err::<Disconnected, BridgeFault>(
            BridgeFault::BufferOverflow,
        ),
{
    match e {
        EndpointError::BufferOverflow => Err(BridgeFault::BufferOverflow),
        EndpointError::Disabled => Ok(Disconnected {}),
    }
}

#[derive(Debug, Clone, Copy, PartialEq, Eq, Structural)]
pub enum LinkState {
    Disconnected,
    Connected,
}

/// What happened since the USB bridge last decided.
pub enum UsbEvent {
    /// The host asserted the connection.
    HostConnected,
    /// A packet of these bytes arrived from the host.
    PacketRead(Vec<u8>),
    /// The subscriber of the host-bound channel received this.
    Received(WaitResult),
    /// A read or write on the endpoint failed.
    EndpointFailed(EndpointError),
    /// The last action finished.
    Done,
}

/// What the USB bridge asks to be done next.
pub enum UsbAction {
    /// Wait for the host to connect; no read is made.
    WaitConnection,
    /// Wait for whichever comes first: a packet from the host or a message
    /// on the host-bound channel.
    Poll,
    /// Publish this payload on the device-bound channel.
    Publish(Vec<u8>),
    /// Write this packet to the host.
    WritePacket(Vec<u8>),
    /// Record that this many host-bound messages were lost.
    ReportLag(u64),
    /// Stop the bridge: the endpoint failed beyond repair.
    Halt(BridgeFault),
}

/// One decision of the USB bridge: from its state and the event that
/// arrived, the next state and the action to perform.
pub fn usb_step(state: LinkState, event: UsbEvent) -> (r: (LinkState, UsbAction))
    ensures
        state == LinkState::Disconnected ==> (match event {
            UsbEvent::HostConnected => r.0 == LinkState::Connected && r.1 == UsbAction::Poll,
            _ => r.0 == LinkState::Disconnected && r.1 == UsbAction::WaitConnection,
        }),
        state == LinkState::Connected ==> (match event {
            UsbEvent::HostConnected => r.0 == LinkState::Connected && r.1 == UsbAction::Poll,
            UsbEvent::Done => r.0 == LinkState::Connected && r.1 == UsbAction::Poll,
            UsbEvent::PacketRead(p) => r.0 == LinkState::Connected && (if 0 < p@.len()
                <= PAYLOAD_CAPACITY {
                r.1 == UsbAction::Publish(p)
            } else {
                r.1 == UsbAction::Poll
            }),
            UsbEvent::Received(WaitResult::Message(p)) => r.0 == LinkState::Connected && r.1
                == UsbAction::WritePacket(p),
            UsbEvent::Received(WaitResult::Lagged(k)) => r.0 == LinkState::Connected && r.1
                == UsbAction::ReportLag(k),
            UsbEvent::EndpointFailed(EndpointError::Disabled) => r.0 == LinkState::Disconnected
                && r.1 == UsbAction::WaitConnection,
            UsbEvent::EndpointFailed(EndpointError::BufferOverflow) => r.0
                == LinkState::Disconnected && r.1 == UsbAction::Halt(BridgeFault::BufferOverflow),
        }),
{
    match state {
        LinkState::Disconnected => match event {
            UsbEvent::HostConnected => (LinkState::Connected, UsbAction::Poll),
            _ => (LinkState::Disconnected, UsbAction::WaitConnection),
        },
        LinkState::Connected => match event {
            UsbEvent::HostConnected => (LinkState::Connected, UsbAction::Poll),
            UsbEvent::Done => (LinkState::Connected, UsbAction::Poll),
            UsbEvent::PacketRead(p) => {
                if p.len() > 0 && p.len() <= PAYLOAD_CAPACITY {
                    (LinkState::Connected, UsbAction::Publish(p))
                } else {
                    (LinkState::Connected, UsbAction::Poll)
                }
            },
            UsbEvent::Received(WaitResult::Message(p)) => (
                LinkState::Connected,
                UsbAction::WritePacket(p),
            ),
            UsbEvent::Received(WaitResult::Lagged(k)) => (
                LinkState::Connected,
                UsbAction::ReportLag(k),
            ),
            UsbEvent::EndpointFailed(e) => match disconnected_from(e) {
                Ok(_) => (LinkState::Disconnected, UsbAction::WaitConnection),
                Err(f) => (LinkState::Disconnected, UsbAction::Halt(f)),
            },
        },
    }
}

} // verus!
