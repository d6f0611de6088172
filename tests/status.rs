use mc_status::error::ProtocolError;
use mc_status::framing::{read_packet, write_packet};
use mc_status::packet::{handshake_body, parse_response, request_body, NEXT_STATE_STATUS};
use mc_status::server::{
    BigServerDescription, ConnectionConfig, ExtraDescriptionPart, ServerDescription,
    DEFAULT_PORT, LATEST_PROTOCOL_VERSION,
};
use mc_status::session::{ExchangePhase, StatusSession};
use mc_status::varint::write_varint;

const SAMPLE_JSON: &str = "{\"version\":{\"name\":\"1.16.5\",\"protocol\":754},\"players\":{\"max\":20,\"online\":3},\"description\":\"A server\"}";

fn response_body(id: u32, text: &[u8]) -> Vec<u8> {
    let mut body = Vec::new();
    write_varint(&mut body, id);
    write_varint(&mut body, text.len() as u32);
    body.extend_from_slice(text);
    body
}

#[test]
fn handshake_bytes_are_exact() {
    let body = handshake_body(578, "localhost", 25565, 1);
    let mut expected = vec![0x00, 0xc2, 0x04, 0x09];
    expected.extend_from_slice(b"localhost");
    expected.extend_from_slice(&[0x63, 0xdd, 0x01]);
    assert_eq!(body, expected);
}

#[test]
fn handshake_with_multibyte_address() {
    let body = handshake_body(0, "é", 1, 1);
    assert_eq!(body, vec![0x00, 0x00, 0x02, 0xc3, 0xa9, 0x00, 0x01, 0x01]);
}

#[test]
fn request_is_a_bare_identifier() {
    assert_eq!(request_body(), vec![0x00]);
    assert_eq!(write_packet(&request_body()), vec![0x01, 0x00]);
}

#[test]
fn response_text_is_returned() {
    let body = response_body(0, SAMPLE_JSON.as_bytes());
    assert_eq!(parse_response(&body), Ok(SAMPLE_JSON.to_string()));
}

#[test]
fn response_trailing_bytes_are_ignored() {
    let mut body = response_body(0, b"{}");
    body.extend_from_slice(&[1, 2, 3]);
    assert_eq!(parse_response(&body), Ok("{}".to_string()));
}

#[test]
fn response_with_wrong_id_is_refused() {
    let body = response_body(1, SAMPLE_JSON.as_bytes());
    assert_eq!(parse_response(&body), Err(ProtocolError::UnexpectedPacketId));
}

#[test]
fn response_with_short_string_is_early_end() {
    let mut body = response_body(0, b"{\"a\":1}");
    body.pop();
    assert_eq!(parse_response(&body), Err(ProtocolError::UnexpectedEof));
    assert_eq!(parse_response(&[]), Err(ProtocolError::UnexpectedEof));
    assert_eq!(parse_response(&[0x00]), Err(ProtocolError::UnexpectedEof));
}

#[test]
fn response_that_is_not_utf8_is_refused() {
    let body = response_body(0, &[0xff, 0xfe]);
    assert_eq!(parse_response(&body), Err(ProtocolError::InvalidUtf8));
}

#[test]
fn config_defaults_and_overrides() {
    let config = ConnectionConfig::build("example.org".to_string());
    assert_eq!(config.address(), "example.org");
    assert_eq!(config.port(), DEFAULT_PORT);
    assert_eq!(config.port(), 25565);
    assert_eq!(config.protocol_version(), LATEST_PROTOCOL_VERSION);
    assert_eq!(config.protocol_version(), 578);
    let config = config.with_port(25566).with_protocol_version(754);
    assert_eq!(config.address(), "example.org");
    assert_eq!(config.port(), 25566);
    assert_eq!(config.protocol_version(), 754);
}

/// Plays the server's side: checks the two frames the client sends and
/// answers with a response frame.
fn mock_server(received: &[u8], json: &str) -> Vec<u8> {
    let (handshake, used) = read_packet(received).unwrap();
    assert_eq!(handshake, handshake_body(578, "localhost", 25565, NEXT_STATE_STATUS));
    let (request, rest) = read_packet(&received[used..]).unwrap();
    assert_eq!(request, vec![0x00]);
    assert_eq!(used + rest, received.len());
    write_packet(&response_body(0, json.as_bytes()))
}

#[test]
fn full_exchange_with_mock_server() {
    let config = ConnectionConfig::build("localhost".to_string());
    let mut session = StatusSession::new(config);
    assert_eq!(session.phase(), ExchangePhase::Connected);
    let mut sent = session.handshake().unwrap();
    assert_eq!(session.phase(), ExchangePhase::HandshakeSent);
    sent.extend(session.request().unwrap());
    assert_eq!(session.phase(), ExchangePhase::RequestSent);

    let reply = mock_server(&sent, SAMPLE_JSON);
    let (body, used) = read_packet(&reply).unwrap();
    assert_eq!(used, reply.len());
    let text = session.receive(&body).unwrap();
    assert_eq!(text, SAMPLE_JSON);
    assert_eq!(session.phase(), ExchangePhase::ResponseReceived);
    assert_eq!(session.response(), Some(&SAMPLE_JSON.to_string()));

    let value: serde_json::Value = serde_json::from_str(&text).unwrap();
    let description = ServerDescription::Simple(value["description"].as_str().unwrap().to_string());
    assert_eq!(description.get_text(), "A server");
}

#[test]
fn second_exchange_on_one_connection_fails() {
    let mut session = StatusSession::new(ConnectionConfig::build("localhost".to_string()));
    session.handshake().unwrap();
    session.request().unwrap();
    session.receive(&response_body(0, b"{}")).unwrap();
    assert_eq!(session.handshake(), Err(ProtocolError::OutOfOrder));
    assert_eq!(session.request(), Err(ProtocolError::OutOfOrder));
    assert_eq!(session.receive(&response_body(0, b"{}")), Err(ProtocolError::OutOfOrder));
    assert_eq!(session.phase(), ExchangePhase::ResponseReceived);
    assert_eq!(session.response(), Some(&"{}".to_string()));
}

#[test]
fn steps_out_of_order_are_refused() {
    let mut session = StatusSession::new(ConnectionConfig::build("localhost".to_string()));
    assert_eq!(session.request(), Err(ProtocolError::OutOfOrder));
    assert_eq!(session.receive(&response_body(0, b"{}")), Err(ProtocolError::OutOfOrder));
    assert_eq!(session.phase(), ExchangePhase::Connected);
    session.handshake().unwrap();
    assert_eq!(session.handshake(), Err(ProtocolError::OutOfOrder));
}

#[test]
fn wrong_response_id_fails_the_exchange() {
    let mut session = StatusSession::new(ConnectionConfig::build("localhost".to_string()));
    session.handshake().unwrap();
    session.request().unwrap();
    let body = response_body(1, SAMPLE_JSON.as_bytes());
    assert_eq!(session.receive(&body), Err(ProtocolError::UnexpectedPacketId));
    assert_eq!(session.phase(), ExchangePhase::Failed);
    assert_eq!(session.response(), None);
    assert_eq!(session.handshake(), Err(ProtocolError::OutOfOrder));
}

#[test]
fn aborted_exchange_cannot_continue() {
    let mut session = StatusSession::new(ConnectionConfig::build("localhost".to_string()));
    session.handshake().unwrap();
    session.abort();
    assert_eq!(session.phase(), ExchangePhase::Failed);
    assert_eq!(session.request(), Err(ProtocolError::OutOfOrder));
}

#[test]
fn protocol_version_too_wide_is_refused() {
    if usize::BITS > 32 {
        let config = ConnectionConfig::build("localhost".to_string())
            .with_protocol_version(u32::MAX as usize + 1);
        let mut session = StatusSession::new(config);
        assert_eq!(session.handshake(), Err(ProtocolError::ValueOutOfRange));
        assert_eq!(session.phase(), ExchangePhase::Failed);
    }
}

#[test]
fn session_handshake_frame_matches_packet() {
    let config = ConnectionConfig::build("mc.example".to_string()).with_port(1).with_protocol_version(754);
    let mut session = StatusSession::new(config);
    let frame = session.handshake().unwrap();
    assert_eq!(frame, write_packet(&handshake_body(754, "mc.example", 1, 1)));
}

#[test]
fn description_text_of_both_forms() {
    let simple = ServerDescription::Simple("hello".to_string());
    assert_eq!(simple.get_text(), "hello");
    let big = ServerDescription::Big(BigServerDescription {
        text: "motd".to_string(),
        extra: vec![ExtraDescriptionPart {
            text: "x".to_string(),
            color: "red".to_string(),
            bold: true,
            italic: false,
        }],
    });
    assert_eq!(big.get_text(), "motd");
}
