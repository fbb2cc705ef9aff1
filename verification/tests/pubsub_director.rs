use conjunto::cluster::RpcCluster;
use conjunto::director_pubsub::{
    bridge_step, BridgeAction, BridgeEvent, ClientFrame, DirectorPubsub, DirectorPubsubConfig,
    MuxEvent, MuxForward, MuxState, MuxStep,
};
use conjunto::guide_strategy::RequestEndpoint;
use conjunto::provider::AccountProviderStub;

fn director() -> DirectorPubsub<AccountProviderStub> {
    DirectorPubsub::with_providers(
        DirectorPubsubConfig::default(),
        AccountProviderStub::default(),
    )
}

fn both_alive() -> MuxState {
    MuxState { chain_alive: true, ephemeral_alive: true }
}

#[test]
fn test_default_config_clusters() {
    let config = DirectorPubsubConfig::default();
    assert_eq!(config.chain_cluster, RpcCluster::Devnet);
    assert_eq!(config.ephemeral_cluster, RpcCluster::Development);
}

#[test]
fn test_guide_msg_close_goes_to_both() {
    assert_eq!(director().guide_msg(&ClientFrame::Close), RequestEndpoint::Both);
}

#[test]
fn test_guide_msg_ping_pong_go_to_both() {
    assert_eq!(director().guide_msg(&ClientFrame::Ping), RequestEndpoint::Both);
    assert_eq!(director().guide_msg(&ClientFrame::Pong), RequestEndpoint::Both);
}

#[test]
fn test_guide_msg_binary_goes_to_chain() {
    assert_eq!(director().guide_msg(&ClientFrame::Binary), RequestEndpoint::Chain);
    assert_eq!(director().guide_msg(&ClientFrame::Frame), RequestEndpoint::Chain);
}

#[test]
fn test_guide_msg_unknown_method_goes_to_chain() {
    let frame = ClientFrame::Text(r#"{"method":"foo","params":[]}"#.to_string());
    assert_eq!(director().guide_msg(&frame), RequestEndpoint::Chain);
}

#[test]
fn test_step_client_close_forwards_to_both_and_terminates() {
    // A close frame from the client reaches both upstreams, and the
    // connection terminates after forwarding it.
    let mut state = both_alive();
    let step = director().step(&mut state, &MuxEvent::ClientFrame(ClientFrame::Close));
    assert_eq!(step, MuxStep { forward: MuxForward::ToBoth, terminate: true });
}

#[test]
fn test_step_upstream_messages_forward_to_client() {
    let mut state = both_alive();
    let d = director();
    assert_eq!(
        d.step(&mut state, &MuxEvent::ChainMessage),
        MuxStep { forward: MuxForward::ToClient, terminate: false }
    );
    assert_eq!(
        d.step(&mut state, &MuxEvent::EphemeralMessage),
        MuxStep { forward: MuxForward::ToClient, terminate: false }
    );
    assert_eq!(state, both_alive());
}

#[test]
fn test_step_upstream_errors_are_dropped() {
    let mut state = both_alive();
    let d = director();
    assert_eq!(
        d.step(&mut state, &MuxEvent::ChainError),
        MuxStep { forward: MuxForward::Nothing, terminate: false }
    );
    assert_eq!(
        d.step(&mut state, &MuxEvent::EphemeralError),
        MuxStep { forward: MuxForward::Nothing, terminate: false }
    );
}

#[test]
fn test_step_one_upstream_ending_keeps_connection() {
    let mut state = both_alive();
    let step = director().step(&mut state, &MuxEvent::ChainEnded);
    assert_eq!(step, MuxStep { forward: MuxForward::Nothing, terminate: false });
    assert_eq!(state, MuxState { chain_alive: false, ephemeral_alive: true });
}

#[test]
fn test_step_both_upstreams_ending_terminates() {
    let mut state = both_alive();
    let d = director();
    let first = d.step(&mut state, &MuxEvent::ChainEnded);
    assert!(!first.terminate);
    let second = d.step(&mut state, &MuxEvent::EphemeralEnded);
    assert!(second.terminate);
    assert_eq!(state, MuxState { chain_alive: false, ephemeral_alive: false });
}

#[test]
fn test_step_client_end_or_error_terminates() {
    let d = director();
    let mut state = both_alive();
    assert!(d.step(&mut state, &MuxEvent::ClientEnded).terminate);
    let mut state = both_alive();
    assert!(d.step(&mut state, &MuxEvent::ClientError).terminate);
}

#[test]
fn test_step_text_frame_routes_by_content() {
    let mut state = both_alive();
    let frame = ClientFrame::Text(r#"{"method":"slotSubscribe","params":[]}"#.to_string());
    let step = director().step(&mut state, &MuxEvent::ClientFrame(frame));
    assert_eq!(step, MuxStep { forward: MuxForward::ToBoth, terminate: false });

    let frame = ClientFrame::Text(r#"{"method":"foo","params":[]}"#.to_string());
    let step = director().step(&mut state, &MuxEvent::ClientFrame(frame));
    assert_eq!(step, MuxStep { forward: MuxForward::ToChain, terminate: false });
}

#[test]
fn test_bridge_sink_closed_unsubscribes() {
    assert_eq!(bridge_step(&BridgeEvent::SinkClosed), BridgeAction::Unsubscribe);
}

#[test]
fn test_bridge_notification_is_forwarded() {
    assert_eq!(bridge_step(&BridgeEvent::Notification), BridgeAction::ForwardToSink);
}

#[test]
fn test_bridge_invalid_notification_is_dropped() {
    assert_eq!(bridge_step(&BridgeEvent::InvalidNotification), BridgeAction::DropNotification);
}

#[test]
fn test_bridge_stream_end_closes_sink() {
    // When the upstream subscription ends, the client sink is closed
    // gracefully.
    assert_eq!(bridge_step(&BridgeEvent::StreamEnded), BridgeAction::CloseSink);
}
