use fast_socks5::server::Socks5ServerProtocol;
use proxy_router::proxy::{ProxyError, TransportFailure, UpstreamFailure};
use proxy_router::reply::{reply_for_error, success_reply, BoundAddress, ReplyCode};
use tokio::io::{AsyncReadExt, AsyncWriteExt};

fn http(failure: TransportFailure) -> ProxyError {
    ProxyError::HttpError(UpstreamFailure::Transport(failure))
}

fn socks(failure: TransportFailure) -> ProxyError {
    ProxyError::SocksError(UpstreamFailure::Transport(failure))
}

#[test]
fn timeout_is_replied_as_connection_timeout() {
    assert_eq!(reply_for_error(&ProxyError::ConnectionTimeout), ReplyCode::ConnectionTimeout);
}

#[test]
fn refused_is_replied_as_connection_refused() {
    assert_eq!(reply_for_error(&http(TransportFailure::ConnectionRefused)), ReplyCode::ConnectionRefused);
    assert_eq!(reply_for_error(&socks(TransportFailure::ConnectionRefused)), ReplyCode::ConnectionRefused);
}

#[test]
fn aborted_is_replied_as_connection_not_allowed() {
    assert_eq!(reply_for_error(&http(TransportFailure::ConnectionAborted)), ReplyCode::ConnectionNotAllowed);
    assert_eq!(reply_for_error(&socks(TransportFailure::ConnectionAborted)), ReplyCode::ConnectionNotAllowed);
}

#[test]
fn reset_is_replied_as_connection_not_allowed() {
    assert_eq!(reply_for_error(&http(TransportFailure::ConnectionReset)), ReplyCode::ConnectionNotAllowed);
    assert_eq!(reply_for_error(&socks(TransportFailure::ConnectionReset)), ReplyCode::ConnectionNotAllowed);
}

#[test]
fn not_connected_is_replied_as_network_unreachable() {
    assert_eq!(reply_for_error(&http(TransportFailure::NotConnected)), ReplyCode::NetworkUnreachable);
    assert_eq!(reply_for_error(&socks(TransportFailure::NotConnected)), ReplyCode::NetworkUnreachable);
}

#[test]
fn other_transport_failure_is_replied_as_general_failure() {
    assert_eq!(reply_for_error(&http(TransportFailure::Other)), ReplyCode::GeneralFailure);
    assert_eq!(reply_for_error(&socks(TransportFailure::Other)), ReplyCode::GeneralFailure);
}

#[test]
fn handshake_failure_is_replied_as_general_failure() {
    assert_eq!(
        reply_for_error(&ProxyError::HttpError(UpstreamFailure::Protocol)),
        ReplyCode::GeneralFailure
    );
    assert_eq!(
        reply_for_error(&ProxyError::SocksError(UpstreamFailure::Protocol)),
        ReplyCode::GeneralFailure
    );
}

#[test]
fn construction_errors_are_replied_as_general_failure() {
    assert_eq!(reply_for_error(&ProxyError::InvalidHost), ReplyCode::GeneralFailure);
    assert_eq!(
        reply_for_error(&ProxyError::InvalidProtocol("ftp".to_string())),
        ReplyCode::GeneralFailure
    );
    assert_eq!(
        reply_for_error(&ProxyError::UrlParseError(url::ParseError::EmptyHost)),
        ReplyCode::GeneralFailure
    );
}

#[test]
fn no_error_is_replied_as_success() {
    let kinds = [
        TransportFailure::ConnectionRefused,
        TransportFailure::ConnectionAborted,
        TransportFailure::ConnectionReset,
        TransportFailure::NotConnected,
        TransportFailure::Other,
    ];
    for kind in kinds {
        assert_ne!(reply_for_error(&http(kind)), ReplyCode::Succeeded);
        assert_ne!(reply_for_error(&socks(kind)), ReplyCode::Succeeded);
    }
    assert_ne!(reply_for_error(&ProxyError::ConnectionTimeout), ReplyCode::Succeeded);
}

#[test]
fn success_reply_has_the_fixed_layout() {
    assert_eq!(success_reply(), vec![5u8, 0, 0, 1, 127, 0, 0, 1, 0, 0]);
}

#[test]
fn placeholder_is_loopback_port_zero() {
    let bound = BoundAddress::placeholder();
    assert_eq!(bound.octets, [127u8, 0, 0, 1]);
    assert_eq!(bound.port, 0);
}

#[test]
fn success_reply_is_what_the_client_is_sent() {
    let bound = BoundAddress::placeholder();
    let [a, b, c, d] = bound.octets;
    let addr = format!("{}.{}.{}.{}:{}", a, b, c, d, bound.port);
    let runtime = tokio::runtime::Builder::new_current_thread().build().unwrap();
    let sent = runtime.block_on(async {
        let (mut client, server) = tokio::io::duplex(64);
        // The client offers "no authentication", then asks for a CONNECT
        // to 93.184.215.14:443.
        client.write_all(&[5, 1, 0]).await.unwrap();
        client.write_all(&[5, 1, 0, 1, 93, 184, 215, 14, 1, 187]).await.unwrap();
        let proto = Socks5ServerProtocol::accept_no_auth(server).await.unwrap();
        let (proto, _command, _target) = proto.read_command().await.unwrap();
        let _open = proto.reply_success(addr.parse().unwrap()).await.unwrap();
        let mut method = [0u8; 2];
        client.read_exact(&mut method).await.unwrap();
        assert_eq!(method, [5, 0]);
        let mut reply = [0u8; 10];
        client.read_exact(&mut reply).await.unwrap();
        reply.to_vec()
    });
    assert_eq!(sent, success_reply());
}
