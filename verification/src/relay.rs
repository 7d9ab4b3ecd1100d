//! The duplex relay between the transport channel and the device channel.
//!
//! The relay is a state machine. The caller owns both channels: it hands
//! each message that arrives to the relay, performs the action that the
//! relay answers with, and reports a write that failed. The relay decides
//! what is forwarded, what is dropped and when the bridge stops.

use crate::packet_conv::{
    is_ip_packet, lemma_unwrap_wrap, packet_ether_to_ip_slice, packet_ip_wrap_to_ether,
    unwrap_spec, wrap_spec, EncapError, MIN_IP_HEADER_LENGTH,
};
use crate::tap_codec::AnyPacket;
use vstd::prelude::*;

verus! {

/// What the device channel carries.
#[derive(Debug, Clone, Copy, PartialEq, Eq, Structural)]
pub enum Layer {
    /// Raw IP packets, without a link-layer header ("tun").
    L3,
    /// Link-layer frames, passed through as they are ("tap", experimental).
    L2,
}

/// Where a relay is in its life.
#[derive(Debug, Clone, Copy, PartialEq, Eq, Structural)]
pub enum RelayConnectionState {
    /// Built, its channels not yet attached.
    Starting,
    /// Forwarding in both directions.
    Active,
    /// A fatal condition was met; nothing is forwarded any more.
    Stopping,
    /// Both sinks were asked to close. Nothing leads out of this state.
    Stopped,
}

/// A relay that cannot be built or configured.
#[derive(Debug, Clone, Copy, PartialEq, Eq, Structural)]
pub enum ConfigurationError {
    /// Device sinks of both layers were supplied.
    BothLayers,
    /// No layer was supplied with both its sink and its stream.
    NoDevice,
    /// The layer's name is neither "tun" nor "tap".
    InvalidLayer,
}

/// One message of the transport source.
#[derive(Debug)]
pub enum TransportFrame {
    Text(Vec<u8>),
    Binary(Vec<u8>),
    Continuation,
    Ping(Vec<u8>),
    Pong(Vec<u8>),
    Close,
}

/// The transport source broke the protocol or its stream failed.
#[derive(Debug, Clone, Copy, PartialEq, Eq, Structural)]
pub struct TransportProtocolError;

/// A read from the device failed.
#[derive(Debug, Clone, Copy, PartialEq, Eq, Structural)]
pub struct DeviceIoError;

/// Why a relay stops.
#[derive(Debug, Clone, Copy, PartialEq, Eq, Structural)]
pub enum StopReason {
    /// The transport delivered a text message.
    UnexpectedText,
    /// The peer closed the transport.
    PeerClosed,
    /// The transport source reported an error.
    TransportError,
    /// The device source reported an error.
    DeviceError,
    /// A write to one of the sinks failed.
    WriteFailed,
}

/// What the caller has to do after it handed a message to the relay.
#[derive(Debug)]
pub enum RelayAction {
    /// Nothing: the message was informational or the relay is not active.
    Idle,
    /// Nothing: this one packet was dropped, for the reason given.
    Dropped(EncapError),
    /// Write the packet to the device sink.
    WriteDevice(AnyPacket),
    /// Send the frame as a binary message on the transport sink.
    SendBinary(Vec<u8>),
    /// Send a pong with this payload on the transport sink.
    SendPong(Vec<u8>),
    /// Stop the relay's execution context.
    Stop(StopReason),
}

/// A `RelayAction` with its payload as a sequence of bytes.
pub enum RelayActionView {
    Idle,
    Dropped(EncapError),
    WriteDevice(Seq<u8>),
    SendBinary(Seq<u8>),
    SendPong(Seq<u8>),
    Stop(StopReason),
}

impl View for RelayAction {
    type V = RelayActionView;

    open spec fn view(&self) -> RelayActionView {
        match self {
            RelayAction::Idle => RelayActionView::Idle,
            RelayAction::Dropped(e) => RelayActionView::Dropped(*e),
            RelayAction::WriteDevice(packet) => RelayActionView::WriteDevice(packet@),
            RelayAction::SendBinary(frame) => RelayActionView::SendBinary(frame@),
            RelayAction::SendPong(payload) => RelayActionView::SendPong(payload@),
            RelayAction::Stop(reason) => RelayActionView::Stop(*reason),
        }
    }
}

/// The layer that a relay is built for, given which ends of the two device
/// channels were supplied. Sinks of both layers are refused; else the L2 pair
/// is taken if it is complete, else the L3 pair if it is; else there is no
/// device.
pub open spec fn attached_layer(
    tun_sink: bool,
    tun_stream: bool,
    tap_sink: bool,
    tap_stream: bool,
) -> Result<Layer, ConfigurationError> {
    if tap_sink && tun_sink {
        Err(ConfigurationError::BothLayers)
    } else if tap_sink && tap_stream {
        Ok(Layer::L2)
    } else if tun_sink && tun_stream {
        Ok(Layer::L3)
    } else {
        Err(ConfigurationError::NoDevice)
    }
}

/// What an active relay does with a binary message of the transport: in L3
/// the payload is unwrapped and the packet in it goes to the device, or the
/// message is dropped; in L2 the payload goes to the device as it is.
pub open spec fn forward_to_device(layer: Layer, payload: Seq<u8>) -> RelayActionView {
    match layer {
        Layer::L3 => match unwrap_spec(payload) {
            Ok(packet) => RelayActionView::WriteDevice(packet),
            Err(e) => RelayActionView::Dropped(e),
        },
        Layer::L2 => RelayActionView::WriteDevice(payload),
    }
}

/// What an active relay does with a packet of the device: the packet is
/// wrapped with the placeholder addresses and sent, or dropped.
pub open spec fn forward_to_transport(packet: Seq<u8>) -> RelayActionView {
    match wrap_spec(packet, None, None) {
        Ok(frame) => RelayActionView::SendBinary(frame),
        Err(e) => RelayActionView::Dropped(e),
    }
}

/// The state after, and the action for, a message of the transport source.
/// A relay that is not active ignores the message.
pub open spec fn on_transport(
    layer: Layer,
    state: RelayConnectionState,
    msg: Result<TransportFrame, TransportProtocolError>,
) -> (RelayConnectionState, RelayActionView) {
    if state != RelayConnectionState::Active {
        (state, RelayActionView::Idle)
    } else {
        match msg {
            Ok(TransportFrame::Text(_)) => (
                RelayConnectionState::Stopping,
                RelayActionView::Stop(StopReason::UnexpectedText),
            ),
            Ok(TransportFrame::Binary(payload)) => (
                RelayConnectionState::Active,
                forward_to_device(layer, payload@),
            ),
            Ok(TransportFrame::Continuation) => (
                RelayConnectionState::Active,
                RelayActionView::Idle,
            ),
            Ok(TransportFrame::Ping(payload)) => (
                RelayConnectionState::Active,
                RelayActionView::SendPong(payload@),
            ),
            Ok(TransportFrame::Pong(_)) => (RelayConnectionState::Active, RelayActionView::Idle),
            Ok(TransportFrame::Close) => (
                RelayConnectionState::Stopping,
                RelayActionView::Stop(StopReason::PeerClosed),
            ),
            Err(_) => (
                RelayConnectionState::Stopping,
                RelayActionView::Stop(StopReason::TransportError),
            ),
        }
    }
}

/// The state after, and the action for, a message of the device source.
/// A relay that is not active ignores the message.
pub open spec fn on_device(
    state: RelayConnectionState,
    msg: Result<AnyPacket, DeviceIoError>,
) -> (RelayConnectionState, RelayActionView) {
    if state != RelayConnectionState::Active {
        (state, RelayActionView::Idle)
    } else {
        match msg {
            Ok(packet) => (RelayConnectionState::Active, forward_to_transport(packet@)),
            Err(_) => (
                RelayConnectionState::Stopping,
                RelayActionView::Stop(StopReason::DeviceError),
            ),
        }
    }
}

/// The state after, and the action for, a write that failed on either sink:
/// fatal for an active relay.
pub open spec fn on_write_failed(state: RelayConnectionState) -> (
    RelayConnectionState,
    RelayActionView,
) {
    if state != RelayConnectionState::Active {
        (state, RelayActionView::Idle)
    } else {
        (RelayConnectionState::Stopping, RelayActionView::Stop(StopReason::WriteFailed))
    }
}

/// The state after both channels were attached: a starting relay is active.
pub open spec fn on_started(state: RelayConnectionState) -> RelayConnectionState {
    if state == RelayConnectionState::Starting {
        RelayConnectionState::Active
    } else {
        state
    }
}

/// The state after both sinks were asked to close: a stopping relay is
/// stopped.
pub open spec fn on_stopped(state: RelayConnectionState) -> RelayConnectionState {
    if state == RelayConnectionState::Stopping {
        RelayConnectionState::Stopped
    } else {
        state
    }
}

/// The relay: the layer it was built for and where it is in its life.
#[derive(Debug)]
pub struct VpnWebSocket {
    layer: Layer,
    state: RelayConnectionState,
}

impl VpnWebSocket {
    pub closed spec fn spec_layer(&self) -> Layer {
        self.layer
    }

    pub closed spec fn spec_state(&self) -> RelayConnectionState {
        self.state
    }

    /// The layer of the device channel, fixed when the relay was built.
    #[verifier::when_used_as_spec(spec_layer)]
    pub fn layer(&self) -> (layer: Layer)
        ensures
            layer == self.spec_layer(),
    {
        self.layer
    }

    /// Where the relay is in its life.
    #[verifier::when_used_as_spec(spec_state)]
    pub fn state(&self) -> (state: RelayConnectionState)
        ensures
            state == self.spec_state(),
    {
        self.state
    }

    /// Builds a relay for the device channel that was supplied, and hands
    /// back the sink and the stream of that channel for the caller to attach.
    ///
    /// Exactly one layer has to come with its device channel: the error says
    /// whether both came or none. The relay starts in `Starting`.
    pub fn start<S, R>(
        tun_sink: Option<S>,
        tun_stream: Option<R>,
        tap_sink: Option<S>,
        tap_stream: Option<R>,
    ) -> (result: Result<(VpnWebSocket, S, R), ConfigurationError>)
        ensures
            match attached_layer(
                tun_sink is Some,
                tun_stream is Some,
                tap_sink is Some,
                tap_stream is Some,
            ) {
                Ok(layer) => result matches Ok((relay, sink, stream)) && relay.layer() == layer
                    && relay.state() == RelayConnectionState::Starting && (match layer {
                    Layer::L2 => tap_sink == Some(sink) && tap_stream == Some(stream),
                    Layer::L3 => tun_sink == Some(sink) && tun_stream == Some(stream),
                }),
                Err(e) => result matches Err(err) && err == e,
            },
    {
        if tap_sink.is_some() && tun_sink.is_some() {
            return Err(ConfigurationError::BothLayers);
        }
        match (tap_sink, tap_stream) {
            (Some(sink), Some(stream)) => Ok(
                (
                    VpnWebSocket { layer: Layer::L2, state: RelayConnectionState::Starting },
                    sink,
                    stream,
                ),
            ),
            _ => match (tun_sink, tun_stream) {
                (Some(sink), Some(stream)) => Ok(
                    (
                        VpnWebSocket { layer: Layer::L3, state: RelayConnectionState::Starting },
                        sink,
                        stream,
                    ),
                ),
                _ => Err(ConfigurationError::NoDevice),
            },
        }
    }

    /// Both channels are attached: a starting relay becomes active. In any
    /// other state nothing changes.
    pub fn started(&mut self)
        ensures
            final(self).layer() == old(self).layer(),
            final(self).state() == on_started(old(self).state()),
    {
        if self.state == RelayConnectionState::Starting {
            self.state = RelayConnectionState::Active;
        }
    }

    /// Both sinks were asked to close: a stopping relay is stopped. In any
    /// other state nothing changes.
    pub fn stopped(&mut self)
        ensures
            final(self).layer() == old(self).layer(),
            final(self).state() == on_stopped(old(self).state()),
    {
        if self.state == RelayConnectionState::Stopping {
            self.state = RelayConnectionState::Stopped;
        }
    }

    /// Takes one message of the transport source.
    ///
    /// While the relay is active: a binary message is forwarded to the device
    /// (in L3, the packet inside the frame; a frame that does not unwrap is
    /// dropped), a ping is answered with a pong of the same payload, a pong
    /// and a continuation are ignored, and a text message, a close or an
    /// error of the source stops the relay.
    pub fn handle_transport(
        &mut self,
        msg: Result<TransportFrame, TransportProtocolError>,
    ) -> (action: RelayAction)
        ensures
            final(self).layer() == old(self).layer(),
            (final(self).state(), action@) == on_transport(
                old(self).layer(),
                old(self).state(),
                msg,
            ),
    {
        if self.state != RelayConnectionState::Active {
            return RelayAction::Idle;
        }
        match msg {
            Ok(TransportFrame::Text(_)) => {
                self.state = RelayConnectionState::Stopping;
                RelayAction::Stop(StopReason::UnexpectedText)
            },
            Ok(TransportFrame::Binary(bytes)) => {
                match self.layer {
                    Layer::L3 => match packet_ether_to_ip_slice(bytes.as_slice()) {
                        Ok(ip_slice) => RelayAction::WriteDevice(
                            AnyPacket::new_from_slice(ip_slice),
                        ),
                        Err(e) => RelayAction::Dropped(e),
                    },
                    Layer::L2 => RelayAction::WriteDevice(AnyPacket::new(bytes)),
                }
            },
            Ok(TransportFrame::Continuation) => RelayAction::Idle,
            Ok(TransportFrame::Ping(payload)) => RelayAction::SendPong(payload),
            Ok(TransportFrame::Pong(_)) => RelayAction::Idle,
            Ok(TransportFrame::Close) => {
                self.state = RelayConnectionState::Stopping;
                RelayAction::Stop(StopReason::PeerClosed)
            },
            Err(_) => {
                self.state = RelayConnectionState::Stopping;
                RelayAction::Stop(StopReason::TransportError)
            },
        }
    }

    /// Takes one message of the device source.
    ///
    /// While the relay is active: a packet is wrapped with the placeholder
    /// addresses and sent as a binary message (one that does not wrap is
    /// dropped), and an error of the source stops the relay.
    pub fn handle_device(&mut self, msg: Result<AnyPacket, DeviceIoError>) -> (action: RelayAction)
        ensures
            final(self).layer() == old(self).layer(),
            (final(self).state(), action@) == on_device(old(self).state(), msg),
    {
        if self.state != RelayConnectionState::Active {
            return RelayAction::Idle;
        }
        match msg {
            Ok(packet) => match packet_ip_wrap_to_ether(packet.get_bytes(), None, None) {
                Ok(ether_packet) => RelayAction::SendBinary(ether_packet),
                Err(e) => RelayAction::Dropped(e),
            },
            Err(_) => {
                self.state = RelayConnectionState::Stopping;
                RelayAction::Stop(StopReason::DeviceError)
            },
        }
    }

    /// Takes the report that a write to one of the sinks failed: an active
    /// relay stops.
    pub fn write_failed(&mut self) -> (action: RelayAction)
        ensures
            final(self).layer() == old(self).layer(),
            (final(self).state(), action@) == on_write_failed(old(self).state()),
    {
        if self.state != RelayConnectionState::Active {
            return RelayAction::Idle;
        }
        self.state = RelayConnectionState::Stopping;
        RelayAction::Stop(StopReason::WriteFailed)
    }
}

/// A relay that is not active forwards nothing and stays in its state,
/// whatever arrives: no message is handled before the relay is active, nor
/// once it has begun to stop.
pub proof fn lemma_inactive_relay_is_idle(
    layer: Layer,
    state: RelayConnectionState,
    from_transport: Result<TransportFrame, TransportProtocolError>,
    from_device: Result<AnyPacket, DeviceIoError>,
)
    requires
        state != RelayConnectionState::Active,
    ensures
        on_transport(layer, state, from_transport) == (state, RelayActionView::Idle),
        on_device(state, from_device) == (state, RelayActionView::Idle),
        on_write_failed(state) == (state, RelayActionView::Idle),
{
}

/// Nothing leads out of `Stopped`.
pub proof fn lemma_stopped_is_terminal(
    layer: Layer,
    from_transport: Result<TransportFrame, TransportProtocolError>,
    from_device: Result<AnyPacket, DeviceIoError>,
)
    ensures
        on_started(RelayConnectionState::Stopped) == RelayConnectionState::Stopped,
        on_stopped(RelayConnectionState::Stopped) == RelayConnectionState::Stopped,
        on_transport(layer, RelayConnectionState::Stopped, from_transport).0
            == RelayConnectionState::Stopped,
        on_device(RelayConnectionState::Stopped, from_device).0 == RelayConnectionState::Stopped,
        on_write_failed(RelayConnectionState::Stopped).0 == RelayConnectionState::Stopped,
{
}

/// Either the relay is still active and was not told to stop, or it is
/// stopping and was told to.
pub open spec fn stays_active_or_stops(step: (RelayConnectionState, RelayActionView)) -> bool {
    if step.1 is Stop {
        step.0 == RelayConnectionState::Stopping
    } else {
        step.0 == RelayConnectionState::Active
    }
}

/// An active relay leaves `Active` only for `Stopping`, and only together
/// with the order to stop.
pub proof fn lemma_active_relay_stops_in_order(
    layer: Layer,
    from_transport: Result<TransportFrame, TransportProtocolError>,
    from_device: Result<AnyPacket, DeviceIoError>,
)
    ensures
        stays_active_or_stops(on_transport(layer, RelayConnectionState::Active, from_transport)),
        stays_active_or_stops(on_device(RelayConnectionState::Active, from_device)),
        stays_active_or_stops(on_write_failed(RelayConnectionState::Active)),
{
}

/// In L3, what the device sends and the transport brings back wrapped comes
/// out as it went in: a well-formed packet of more than 20 bytes is sent as a
/// frame, and that frame is forwarded to the device as the same packet.
pub proof fn lemma_l3_forwards_what_was_wrapped(packet: Seq<u8>)
    requires
        is_ip_packet(packet),
        packet.len() > MIN_IP_HEADER_LENGTH,
    ensures
        forward_to_transport(packet) matches RelayActionView::SendBinary(frame)
            && forward_to_device(Layer::L3, frame) == RelayActionView::WriteDevice(packet),
{
    lemma_unwrap_wrap(packet, None, None);
}

/// A ping is answered with a pong of the same payload, and the relay stays
/// active.
pub proof fn lemma_ping_is_answered(layer: Layer, payload: Vec<u8>)
    ensures
        on_transport(layer, RelayConnectionState::Active, Ok(TransportFrame::Ping(payload))) == (
            RelayConnectionState::Active,
            RelayActionView::SendPong(payload@),
        ),
{
}

/// A relay cannot be built with the device sinks of both layers.
pub proof fn lemma_both_layers_are_refused(tun_stream: bool, tap_stream: bool)
    ensures
        attached_layer(true, tun_stream, true, tap_stream) == Err::<Layer, ConfigurationError>(
            ConfigurationError::BothLayers,
        ),
{
}

} // verus!
