use proxy_router::proxy::{
    BasicAuth, ConnectPlan, Proxy, ProxyAuth, ProxyError, ProxyProtocol, TransportFailure,
    UpstreamFailure,
};
use proxy_router::reply::{BoundAddress, ReplyCode};
use proxy_router::router::handler::{
    ConnectionHandler, ConnectionOutcome, HandlerAction, HandlerError, HandlerEvent, HandlerState,
    Socks5Command, TargetAddress,
};

fn http_proxy() -> Proxy {
    Proxy::new(ProxyProtocol::Http, "127.0.0.1", 3128, ProxyAuth::NoAuth)
}

fn connect_to(host: &str, port: u16) -> HandlerEvent {
    HandlerEvent::CommandReceived {
        command: Socks5Command::TcpConnect,
        target: TargetAddress { host: host.to_string(), port },
    }
}

fn at_upstream_connect(proxy: Proxy) -> ConnectionHandler {
    let mut handler = ConnectionHandler::new(proxy, 10_000);
    handler.step(HandlerEvent::HandshakeDone);
    handler.step(connect_to("example.com", 443));
    assert_eq!(handler.state(), HandlerState::UpstreamConnect);
    handler
}

fn refused_with(error: ProxyError) -> ReplyCode {
    let mut handler = at_upstream_connect(http_proxy());
    match handler.step(HandlerEvent::UpstreamFailed(error)) {
        HandlerAction::ReplyError(code) => {
            assert_eq!(handler.state(), HandlerState::ReplyFailure(code));
            code
        }
        other => panic!("no reply for a failed connect: {:?}", other),
    }
}

#[test]
fn new_handler_is_at_the_handshake() {
    let handler = ConnectionHandler::new(http_proxy(), 10_000);
    assert_eq!(handler.state(), HandlerState::Handshake);
    assert_eq!(handler.first_action(), HandlerAction::Handshake);
}

#[test]
fn connect_through_http_proxy_is_relayed_until_the_client_closes() {
    let mut handler = ConnectionHandler::new(http_proxy(), 10_000);

    assert_eq!(handler.step(HandlerEvent::HandshakeDone), HandlerAction::ReadCommand);
    assert_eq!(handler.state(), HandlerState::CommandRead);

    let action = handler.step(connect_to("example.com", 443));
    assert_eq!(
        action,
        HandlerAction::Connect {
            plan: ConnectPlan {
                protocol: ProxyProtocol::Http,
                proxy_addr: "127.0.0.1:3128".to_string(),
                target_host: "example.com".to_string(),
                target_port: 443,
                auth: ProxyAuth::NoAuth,
            },
            timeout_ms: 10_000,
        }
    );
    assert_eq!(handler.state(), HandlerState::UpstreamConnect);

    let action = handler.step(HandlerEvent::UpstreamConnected);
    assert_eq!(
        action,
        HandlerAction::ReplySuccess(BoundAddress { octets: [127, 0, 0, 1], port: 0 })
    );
    assert_eq!(handler.state(), HandlerState::ReplySuccess);

    assert_eq!(handler.step(HandlerEvent::ReplySent), HandlerAction::Relay);
    assert_eq!(handler.state(), HandlerState::Relaying);

    let action = handler.step(HandlerEvent::RelayFinished);
    assert_eq!(action, HandlerAction::Close(ConnectionOutcome::Completed));
    assert_eq!(handler.state(), HandlerState::Closed(ConnectionOutcome::Completed));
}

#[test]
fn socks5_upstream_with_matching_credentials_is_used_with_them() {
    let auth = ProxyAuth::Basic(BasicAuth::new("alice", "secret"));
    let proxy = Proxy::new(ProxyProtocol::Socks5, "127.0.0.1", 1080, auth);
    let mut handler = ConnectionHandler::new(proxy, 2_000);
    handler.step(HandlerEvent::HandshakeDone);
    match handler.step(connect_to("example.com", 443)) {
        HandlerAction::Connect { plan, timeout_ms } => {
            assert_eq!(plan.protocol, ProxyProtocol::Socks5);
            assert_eq!(plan.proxy_addr, "127.0.0.1:1080");
            assert_eq!(plan.auth, ProxyAuth::Basic(BasicAuth::new("alice", "secret")));
            assert_eq!(timeout_ms, 2_000);
        }
        other => panic!("no connect for a CONNECT command: {:?}", other),
    }
    assert_eq!(
        handler.step(HandlerEvent::UpstreamConnected),
        HandlerAction::ReplySuccess(BoundAddress::placeholder())
    );
}

#[test]
fn socks5_upstream_that_rejects_us_gives_general_failure() {
    let proxy = Proxy::new(ProxyProtocol::Socks5, "127.0.0.1", 1080, ProxyAuth::NoAuth);
    let mut handler = at_upstream_connect(proxy);
    let rejected = ProxyError::SocksError(UpstreamFailure::Protocol);
    let action = handler.step(HandlerEvent::UpstreamFailed(rejected));
    assert_eq!(action, HandlerAction::ReplyError(ReplyCode::GeneralFailure));
    let action = handler.step(HandlerEvent::ReplySent);
    let failed = ConnectionOutcome::Failed(HandlerError::Reply(ReplyCode::GeneralFailure));
    assert_eq!(action, HandlerAction::Close(failed));
    assert_eq!(handler.state(), HandlerState::Closed(failed));
}

#[test]
fn bind_command_is_refused_without_an_upstream_connect() {
    let mut handler = ConnectionHandler::new(http_proxy(), 10_000);
    handler.step(HandlerEvent::HandshakeDone);
    let action = handler.step(HandlerEvent::CommandReceived {
        command: Socks5Command::TcpBind,
        target: TargetAddress { host: "example.com".to_string(), port: 443 },
    });
    assert_eq!(action, HandlerAction::ReplyError(ReplyCode::CommandNotSupported));
    assert_eq!(handler.state(), HandlerState::ReplyFailure(ReplyCode::CommandNotSupported));
    let action = handler.step(HandlerEvent::ReplySent);
    let failed = ConnectionOutcome::Failed(HandlerError::Reply(ReplyCode::CommandNotSupported));
    assert_eq!(action, HandlerAction::Close(failed));
    assert_eq!(handler.state(), HandlerState::Closed(failed));
}

#[test]
fn udp_associate_command_is_refused_without_an_upstream_connect() {
    let mut handler = ConnectionHandler::new(http_proxy(), 10_000);
    handler.step(HandlerEvent::HandshakeDone);
    let action = handler.step(HandlerEvent::CommandReceived {
        command: Socks5Command::UdpAssociate,
        target: TargetAddress { host: "0.0.0.0".to_string(), port: 0 },
    });
    assert_eq!(action, HandlerAction::ReplyError(ReplyCode::CommandNotSupported));
    let later = [
        HandlerEvent::UpstreamConnected,
        HandlerEvent::ReplySent,
        HandlerEvent::HandshakeDone,
        connect_to("example.com", 443),
    ];
    for event in later {
        let action = handler.step(event);
        assert!(matches!(action, HandlerAction::Close(_)), "asked for {:?}", action);
    }
}

#[test]
fn refused_upstream_is_replied_as_connection_refused() {
    let refused = UpstreamFailure::Transport(TransportFailure::ConnectionRefused);
    assert_eq!(refused_with(ProxyError::HttpError(refused)), ReplyCode::ConnectionRefused);
    assert_eq!(refused_with(ProxyError::SocksError(refused)), ReplyCode::ConnectionRefused);
}

#[test]
fn timed_out_upstream_is_replied_as_connection_timeout() {
    assert_eq!(refused_with(ProxyError::ConnectionTimeout), ReplyCode::ConnectionTimeout);
}

#[test]
fn reset_or_aborted_upstream_is_replied_as_not_allowed() {
    let reset = UpstreamFailure::Transport(TransportFailure::ConnectionReset);
    let aborted = UpstreamFailure::Transport(TransportFailure::ConnectionAborted);
    assert_eq!(refused_with(ProxyError::HttpError(reset)), ReplyCode::ConnectionNotAllowed);
    assert_eq!(refused_with(ProxyError::SocksError(aborted)), ReplyCode::ConnectionNotAllowed);
}

#[test]
fn unconnected_upstream_is_replied_as_network_unreachable() {
    let failure = UpstreamFailure::Transport(TransportFailure::NotConnected);
    assert_eq!(refused_with(ProxyError::HttpError(failure)), ReplyCode::NetworkUnreachable);
}

#[test]
fn any_other_upstream_failure_is_replied_as_general_failure() {
    let other = UpstreamFailure::Transport(TransportFailure::Other);
    assert_eq!(refused_with(ProxyError::HttpError(other)), ReplyCode::GeneralFailure);
    assert_eq!(
        refused_with(ProxyError::HttpError(UpstreamFailure::Protocol)),
        ReplyCode::GeneralFailure
    );
}

#[test]
fn failed_connect_never_reaches_the_relay() {
    let mut handler = at_upstream_connect(http_proxy());
    handler.step(HandlerEvent::UpstreamFailed(ProxyError::ConnectionTimeout));
    assert_eq!(
        handler.step(HandlerEvent::ReplySent),
        HandlerAction::Close(ConnectionOutcome::Failed(HandlerError::Reply(
            ReplyCode::ConnectionTimeout
        )))
    );
    assert_ne!(handler.step(HandlerEvent::ReplySent), HandlerAction::Relay);
    assert_ne!(handler.state(), HandlerState::Relaying);
}

#[test]
fn stream_failure_closes_the_connection_at_any_step() {
    let reset = TransportFailure::ConnectionReset;
    let closed = ConnectionOutcome::Failed(HandlerError::Io(reset));

    let mut handler = ConnectionHandler::new(http_proxy(), 10_000);
    assert_eq!(handler.step(HandlerEvent::IoFailed(reset)), HandlerAction::Close(closed));

    let mut handler = ConnectionHandler::new(http_proxy(), 10_000);
    handler.step(HandlerEvent::HandshakeDone);
    assert_eq!(handler.step(HandlerEvent::IoFailed(reset)), HandlerAction::Close(closed));

    let mut handler = at_upstream_connect(http_proxy());
    handler.step(HandlerEvent::UpstreamConnected);
    assert_eq!(handler.step(HandlerEvent::IoFailed(reset)), HandlerAction::Close(closed));

    let mut handler = at_upstream_connect(http_proxy());
    handler.step(HandlerEvent::UpstreamConnected);
    handler.step(HandlerEvent::ReplySent);
    assert_eq!(handler.state(), HandlerState::Relaying);
    assert_eq!(handler.step(HandlerEvent::IoFailed(reset)), HandlerAction::Close(closed));
    assert_eq!(handler.state(), HandlerState::Closed(closed));
}

#[test]
fn relay_failure_is_an_error_and_a_clean_close_is_not() {
    let mut clean = at_upstream_connect(http_proxy());
    clean.step(HandlerEvent::UpstreamConnected);
    clean.step(HandlerEvent::ReplySent);
    assert_eq!(
        clean.step(HandlerEvent::RelayFinished),
        HandlerAction::Close(ConnectionOutcome::Completed)
    );

    let mut broken = at_upstream_connect(http_proxy());
    broken.step(HandlerEvent::UpstreamConnected);
    broken.step(HandlerEvent::ReplySent);
    assert_eq!(
        broken.step(HandlerEvent::IoFailed(TransportFailure::Other)),
        HandlerAction::Close(ConnectionOutcome::Failed(HandlerError::Io(TransportFailure::Other)))
    );
}

#[test]
fn event_of_another_step_closes_the_connection() {
    let out_of_order = ConnectionOutcome::Failed(HandlerError::OutOfOrder);

    let mut handler = ConnectionHandler::new(http_proxy(), 10_000);
    assert_eq!(handler.step(HandlerEvent::ReplySent), HandlerAction::Close(out_of_order));

    let mut handler = ConnectionHandler::new(http_proxy(), 10_000);
    assert_eq!(handler.step(connect_to("example.com", 443)), HandlerAction::Close(out_of_order));
    assert_eq!(handler.state(), HandlerState::Closed(out_of_order));

    let mut handler = at_upstream_connect(http_proxy());
    assert_eq!(handler.step(HandlerEvent::RelayFinished), HandlerAction::Close(out_of_order));

    let mut handler = at_upstream_connect(http_proxy());
    handler.step(HandlerEvent::UpstreamConnected);
    assert_eq!(handler.step(HandlerEvent::UpstreamConnected), HandlerAction::Close(out_of_order));
}

#[test]
fn connect_is_asked_for_once() {
    let mut handler = ConnectionHandler::new(http_proxy(), 10_000);
    let events = [
        HandlerEvent::HandshakeDone,
        connect_to("example.com", 443),
        connect_to("example.com", 443),
        HandlerEvent::UpstreamFailed(ProxyError::ConnectionTimeout),
        connect_to("example.com", 443),
    ];
    let mut connects = 0;
    for event in events {
        if matches!(handler.step(event), HandlerAction::Connect { .. }) {
            connects += 1;
        }
    }
    assert_eq!(connects, 1);
    assert_eq!(
        handler.state(),
        HandlerState::Closed(ConnectionOutcome::Failed(HandlerError::OutOfOrder))
    );
}

#[test]
fn closed_connection_stays_closed() {
    let mut handler = at_upstream_connect(http_proxy());
    handler.step(HandlerEvent::UpstreamConnected);
    handler.step(HandlerEvent::ReplySent);
    handler.step(HandlerEvent::RelayFinished);
    let closed = HandlerState::Closed(ConnectionOutcome::Completed);
    let later = [
        HandlerEvent::HandshakeDone,
        connect_to("example.com", 443),
        HandlerEvent::UpstreamConnected,
        HandlerEvent::UpstreamFailed(ProxyError::ConnectionTimeout),
        HandlerEvent::ReplySent,
        HandlerEvent::RelayFinished,
        HandlerEvent::IoFailed(TransportFailure::ConnectionReset),
    ];
    for event in later {
        assert_eq!(handler.step(event), HandlerAction::Close(ConnectionOutcome::Completed));
        assert_eq!(handler.state(), closed);
    }
}

#[test]
fn two_connections_do_not_see_each_other() {
    let mut first = ConnectionHandler::new(http_proxy(), 10_000);
    let mut second = ConnectionHandler::new(http_proxy(), 10_000);

    first.step(HandlerEvent::HandshakeDone);
    second.step(HandlerEvent::HandshakeDone);
    let second_action = second.step(connect_to("two.example", 2222));
    let first_action = first.step(connect_to("one.example", 1111));
    match (first_action, second_action) {
        (HandlerAction::Connect { plan: one, .. }, HandlerAction::Connect { plan: two, .. }) => {
            assert_eq!(one.target_host, "one.example");
            assert_eq!(one.target_port, 1111);
            assert_eq!(two.target_host, "two.example");
            assert_eq!(two.target_port, 2222);
        }
        other => panic!("no connect for a CONNECT command: {:?}", other),
    }

    let refused = ProxyError::HttpError(UpstreamFailure::Transport(
        TransportFailure::ConnectionRefused,
    ));
    assert_eq!(
        second.step(HandlerEvent::UpstreamFailed(refused)),
        HandlerAction::ReplyError(ReplyCode::ConnectionRefused)
    );
    assert_eq!(
        first.step(HandlerEvent::UpstreamConnected),
        HandlerAction::ReplySuccess(BoundAddress::placeholder())
    );
    second.step(HandlerEvent::ReplySent);
    assert_eq!(first.step(HandlerEvent::ReplySent), HandlerAction::Relay);
    assert_eq!(first.state(), HandlerState::Relaying);
    assert_eq!(
        second.state(),
        HandlerState::Closed(ConnectionOutcome::Failed(HandlerError::Reply(
            ReplyCode::ConnectionRefused
        )))
    );

    let mut alone = ConnectionHandler::new(http_proxy(), 10_000);
    alone.step(HandlerEvent::HandshakeDone);
    alone.step(connect_to("one.example", 1111));
    alone.step(HandlerEvent::UpstreamConnected);
    alone.step(HandlerEvent::ReplySent);
    assert_eq!(alone, first);
}
