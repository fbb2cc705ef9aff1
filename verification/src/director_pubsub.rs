use vstd::prelude::*;

use crate::cluster::RpcCluster;
use crate::guide_strategy::{
    guide_strategy_from_pubsub_msg, request_parts_of, strategy_model_of, RequestEndpoint,
};
use crate::guide_strategy_resolver::{resolved_endpoint_of, GuideStrategyResolver};
use crate::provider::AccountProvider;

verus! {

/// Which clusters the pub/sub director bridges.
#[derive(Clone, Debug, PartialEq, Eq)]
pub struct DirectorPubsubConfig {
    pub chain_cluster: RpcCluster,
    pub ephemeral_cluster: RpcCluster,
}

impl Default for DirectorPubsubConfig {
    /// The default bridge: devnet as the chain, the local development
    /// cluster as the ephemeral validator.
    fn default() -> (r: DirectorPubsubConfig)
        ensures
            r.chain_cluster is Devnet,
            r.ephemeral_cluster is Development,
    {
        DirectorPubsubConfig {
            chain_cluster: RpcCluster::Devnet,
            ephemeral_cluster: RpcCluster::Development,
        }
    }
}

/// A frame received from the client connection, reduced to what the
/// multiplexer inspects: the text of a text frame, and the kind of every
/// other frame.
#[derive(Clone, Debug, PartialEq, Eq)]
pub enum ClientFrame {
    Text(String),
    Binary,
    Ping,
    Pong,
    Close,
    Frame,
}

/// The mathematical content of a `ClientFrame`.
pub enum ClientFrameModel {
    Text(Seq<char>),
    Binary,
    Ping,
    Pong,
    Close,
    Frame,
}

impl View for ClientFrame {
    type V = ClientFrameModel;

    open spec fn view(&self) -> ClientFrameModel {
        match self {
            ClientFrame::Text(txt) => ClientFrameModel::Text(txt@),
            ClientFrame::Binary => ClientFrameModel::Binary,
            ClientFrame::Ping => ClientFrameModel::Ping,
            ClientFrame::Pong => ClientFrameModel::Pong,
            ClientFrame::Close => ClientFrameModel::Close,
            ClientFrame::Frame => ClientFrameModel::Frame,
        }
    }
}

/// One event the multiplexer loop wakes up on: a frame, an error or the
/// end of a stream, on each of its three streams.
#[derive(Clone, Debug, PartialEq, Eq)]
pub enum MuxEvent {
    /// A frame arrived from the chain upstream.
    ChainMessage,
    /// Reading the chain upstream failed.
    ChainError,
    /// The chain upstream's stream ended.
    ChainEnded,
    /// A frame arrived from the ephemeral upstream.
    EphemeralMessage,
    /// Reading the ephemeral upstream failed.
    EphemeralError,
    /// The ephemeral upstream's stream ended.
    EphemeralEnded,
    /// A frame arrived from the client.
    ClientFrame(ClientFrame),
    /// Reading the client stream failed.
    ClientError,
    /// The client's stream ended.
    ClientEnded,
}

/// The liveness of the two upstream connections.
#[derive(Clone, Copy, Debug, PartialEq, Eq, Structural)]
pub struct MuxState {
    pub chain_alive: bool,
    pub ephemeral_alive: bool,
}

/// Where the multiplexer forwards the event's frame, if anywhere.
#[derive(Clone, Copy, Debug, PartialEq, Eq, Structural)]
pub enum MuxForward {
    /// Forward the upstream frame to the client.
    ToClient,
    /// Forward the client frame to the chain upstream.
    ToChain,
    /// Forward the client frame to the ephemeral upstream.
    ToEphemeral,
    /// Forward the client frame to both upstreams.
    ToBoth,
    /// Forward nothing.
    Nothing,
}

/// What the loop does with one event: forward the frame somewhere, and
/// possibly terminate the connection after doing so.
#[derive(Clone, Copy, Debug, PartialEq, Eq, Structural)]
pub struct MuxStep {
    pub forward: MuxForward,
    pub terminate: bool,
}

/// The forwarding target for a resolved request endpoint. The resolver
/// never yields `Unroutable` for pub/sub messages; if it did, chain is the
/// safe target.
pub open spec fn forward_of_endpoint(e: RequestEndpoint) -> MuxForward {
    match e {
        RequestEndpoint::Chain => MuxForward::ToChain,
        RequestEndpoint::Ephemeral => MuxForward::ToEphemeral,
        RequestEndpoint::Both => MuxForward::ToBoth,
        RequestEndpoint::Unroutable => MuxForward::ToChain,
    }
}

/// A pub/sub director: holds the bridge configuration and the resolver
/// that guides each client message. The cooperative loop around it — the
/// sockets, the select, the actual sends — performs whatever step this
/// state machine decides.
pub struct DirectorPubsub<T: AccountProvider> {
    pub config: DirectorPubsubConfig,
    pub guide_strategy_resolver: GuideStrategyResolver<T>,
}

impl<T: AccountProvider> DirectorPubsub<T> {
    /// Builds a director over the given configuration and ephemeral
    /// account provider.
    pub fn with_providers(config: DirectorPubsubConfig, ephemeral_account_provider: T) -> (r:
        DirectorPubsub<T>)
        ensures
            r.config == config,
            r.guide_strategy_resolver.ephemeral_account_provider == ephemeral_account_provider,
    {
        DirectorPubsub {
            config,
            guide_strategy_resolver: GuideStrategyResolver::new(ephemeral_account_provider),
        }
    }

    /// Decides where one client frame goes: text frames are guided by
    /// their content, a close goes to both upstreams, ping and pong go to
    /// both, and unknown binary frames go to chain as the safe default.
    pub fn guide_msg(&self, msg: &ClientFrame) -> (r: RequestEndpoint)
        ensures
            msg@ matches ClientFrameModel::Text(txt)
                ==> !self.guide_strategy_resolver.ephemeral_account_provider.may_fail() ==> r
                == resolved_endpoint_of(
                self.guide_strategy_resolver.ephemeral_account_provider,
                strategy_model_of(request_parts_of(txt)),
            ),
            msg@ is Close ==> r is Both,
            msg@ is Ping ==> r is Both,
            msg@ is Pong ==> r is Both,
            msg@ is Binary ==> r is Chain,
            msg@ is Frame ==> r is Chain,
    {
        let txt = match msg {
            ClientFrame::Text(txt) => txt,
            ClientFrame::Close => {
                return RequestEndpoint::Both;
            },
            ClientFrame::Ping => {
                return RequestEndpoint::Both;
            },
            ClientFrame::Pong => {
                return RequestEndpoint::Both;
            },
            ClientFrame::Binary => {
                return RequestEndpoint::Chain;
            },
            ClientFrame::Frame => {
                return RequestEndpoint::Chain;
            },
        };
        let strategy = guide_strategy_from_pubsub_msg(txt.as_str());
        self.guide_strategy_resolver.resolve(&strategy)
    }

    /// One step of the three-way multiplexer: takes the next ready event,
    /// updates which upstreams are alive, and says what to forward and
    /// whether the connection ends. Upstream frames go to the client;
    /// upstream read errors are dropped; an upstream ending kills only its
    /// branch until both are dead; a client close is forwarded to both
    /// upstreams and terminates; a client error or end of stream
    /// terminates.
    pub fn step(&self, state: &mut MuxState, event: &MuxEvent) -> (r: MuxStep)
        ensures
            event is ChainMessage ==> *final(state) == *old(state) && r == (MuxStep {
                forward: MuxForward::ToClient,
                terminate: false,
            }),
            event is EphemeralMessage ==> *final(state) == *old(state) && r == (MuxStep {
                forward: MuxForward::ToClient,
                terminate: false,
            }),
            event is ChainError ==> *final(state) == *old(state) && r == (MuxStep {
                forward: MuxForward::Nothing,
                terminate: false,
            }),
            event is EphemeralError ==> *final(state) == *old(state) && r == (MuxStep {
                forward: MuxForward::Nothing,
                terminate: false,
            }),
            event is ChainEnded ==> !final(state).chain_alive && final(state).ephemeral_alive
                == old(state).ephemeral_alive && r == (MuxStep {
                forward: MuxForward::Nothing,
                terminate: !old(state).ephemeral_alive,
            }),
            event is EphemeralEnded ==> !final(state).ephemeral_alive && final(state).chain_alive
                == old(state).chain_alive && r == (MuxStep {
                forward: MuxForward::Nothing,
                terminate: !old(state).chain_alive,
            }),
            event matches MuxEvent::ClientFrame(f) ==> {
                &&& *final(state) == *old(state)
                &&& f@ is Close ==> r == (MuxStep { forward: MuxForward::ToBoth, terminate: true })
                &&& f@ is Ping ==> r == (MuxStep { forward: MuxForward::ToBoth, terminate: false })
                &&& f@ is Pong ==> r == (MuxStep { forward: MuxForward::ToBoth, terminate: false })
                &&& f@ is Binary ==> r == (MuxStep {
                    forward: MuxForward::ToChain,
                    terminate: false,
                })
                &&& f@ is Frame ==> r == (MuxStep {
                    forward: MuxForward::ToChain,
                    terminate: false,
                })
                &&& !r.terminate ==> f@ !is Close
                &&& f@ matches ClientFrameModel::Text(txt)
                    ==> !self.guide_strategy_resolver.ephemeral_account_provider.may_fail() ==> r
                    == (MuxStep {
                    forward: forward_of_endpoint(
                        resolved_endpoint_of(
                            self.guide_strategy_resolver.ephemeral_account_provider,
                            strategy_model_of(request_parts_of(txt)),
                        ),
                    ),
                    terminate: false,
                })
            },
            event is ClientError ==> *final(state) == *old(state) && r == (MuxStep {
                forward: MuxForward::Nothing,
                terminate: true,
            }),
            event is ClientEnded ==> *final(state) == *old(state) && r == (MuxStep {
                forward: MuxForward::Nothing,
                terminate: true,
            }),
    {
        match event {
            MuxEvent::ChainMessage => MuxStep { forward: MuxForward::ToClient, terminate: false },
            MuxEvent::EphemeralMessage => MuxStep {
                forward: MuxForward::ToClient,
                terminate: false,
            },
            MuxEvent::ChainError => MuxStep { forward: MuxForward::Nothing, terminate: false },
            MuxEvent::EphemeralError => MuxStep { forward: MuxForward::Nothing, terminate: false },
            MuxEvent::ChainEnded => {
                let terminate = !state.ephemeral_alive;
                state.chain_alive = false;
                MuxStep { forward: MuxForward::Nothing, terminate }
            },
            MuxEvent::EphemeralEnded => {
                let terminate = !state.chain_alive;
                state.ephemeral_alive = false;
                MuxStep { forward: MuxForward::Nothing, terminate }
            },
            MuxEvent::ClientFrame(frame) => {
                let is_close = match frame {
                    ClientFrame::Close => true,
                    _ => false,
                };
                let endpoint = self.guide_msg(frame);
                let forward = match endpoint {
                    RequestEndpoint::Chain => MuxForward::ToChain,
                    RequestEndpoint::Ephemeral => MuxForward::ToEphemeral,
                    RequestEndpoint::Both => MuxForward::ToBoth,
                    RequestEndpoint::Unroutable => MuxForward::ToChain,
                };
                MuxStep { forward, terminate: is_close }
            },
            MuxEvent::ClientError => MuxStep { forward: MuxForward::Nothing, terminate: true },
            MuxEvent::ClientEnded => MuxStep { forward: MuxForward::Nothing, terminate: true },
        }
    }
}

/// One event of a single subscription bridge between an upstream
/// subscription and the client sink.
#[derive(Clone, Copy, Debug, PartialEq, Eq, Structural)]
pub enum BridgeEvent {
    /// The client sink closed.
    SinkClosed,
    /// The upstream delivered a valid notification.
    Notification,
    /// The upstream delivered a notification that did not decode.
    InvalidNotification,
    /// The upstream notification stream ended.
    StreamEnded,
}

/// What the bridge does with one event.
#[derive(Clone, Copy, Debug, PartialEq, Eq, Structural)]
pub enum BridgeAction {
    /// Unsubscribe from the upstream and stop.
    Unsubscribe,
    /// Forward the notification to the client sink.
    ForwardToSink,
    /// Drop the invalid notification and keep the bridge alive.
    DropNotification,
    /// Close the client sink gracefully and stop.
    CloseSink,
}

/// One step of a subscription bridge: a closed sink unsubscribes the
/// upstream; a valid notification is forwarded to the sink; an invalid one
/// is dropped without killing the bridge; and when the upstream stream
/// ends the sink is closed gracefully.
pub fn bridge_step(event: &BridgeEvent) -> (r: BridgeAction)
    ensures
        event is SinkClosed ==> r is Unsubscribe,
        event is Notification ==> r is ForwardToSink,
        event is InvalidNotification ==> r is DropNotification,
        event is StreamEnded ==> r is CloseSink,
{
    match event {
        BridgeEvent::SinkClosed => BridgeAction::Unsubscribe,
        BridgeEvent::Notification => BridgeAction::ForwardToSink,
        BridgeEvent::InvalidNotification => BridgeAction::DropNotification,
        BridgeEvent::StreamEnded => BridgeAction::CloseSink,
    }
}

} // verus!
