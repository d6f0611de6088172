use vstd::prelude::*;
use vstd::utf8::{encode_utf8, valid_utf8};

use crate::error::ProtocolError;
use crate::framing::{packet_frame, write_packet};
use crate::packet::{
    handshake_body, handshake_bytes, parse_response, request_bytes, request_body,
    response_reading, NEXT_STATE_STATUS,
};
use crate::server::ConnectionConfig;

verus! {

/// How far one status exchange has come. Each step moves to the next phase;
/// a failure at any step ends in `Failed`.
#[derive(Debug, Clone, Copy, PartialEq, Eq, Structural)]
pub enum ExchangePhase {
    /// The transport is open and nothing has been sent.
    Connected,
    /// The handshake packet has been handed out for sending.
    HandshakeSent,
    /// The request packet has been handed out for sending.
    RequestSent,
    /// The response arrived and was decoded; the exchange is over.
    ResponseReceived,
    /// A step failed; the connection must not be used again.
    Failed,
}

/// The handshake that `config` asks for fits the protocol's 32-bit fields.
pub open spec fn handshake_fits(protocol_version: usize, address: Seq<char>, port: u16) -> bool {
    &&& protocol_version <= u32::MAX
    &&& encode_utf8(address).len() <= u32::MAX
    &&& handshake_bytes(protocol_version as u32, encode_utf8(address), port, NEXT_STATE_STATUS).len()
        <= u32::MAX
}

/// The handshake frame for a configuration.
pub open spec fn handshake_frame(protocol_version: usize, address: Seq<char>, port: u16) -> Seq<u8> {
    packet_frame(handshake_bytes(protocol_version as u32, encode_utf8(address), port, NEXT_STATE_STATUS))
}

/// The sequencer of one status exchange: handshake, request, response, in
/// that order and once. It produces the frames to send and consumes the
/// packet that came back; moving the bytes is up to its owner.
pub struct StatusSession {
    config: ConnectionConfig,
    phase: ExchangePhase,
    response: Option<String>,
}

impl StatusSession {
    /// The configuration this exchange runs with.
    pub closed spec fn spec_config(&self) -> &ConnectionConfig {
        &self.config
    }

    /// The phase the exchange is in.
    pub closed spec fn spec_phase(&self) -> ExchangePhase {
        self.phase
    }

    /// The response text, once it has been received.
    pub closed spec fn spec_response(&self) -> Option<Seq<char>> {
        match self.response {
            Some(s) => Some(s@),
            None => None,
        }
    }

    /// A fresh exchange over a newly opened connection.
    pub fn new(config: ConnectionConfig) -> (r: Self)
        ensures
            r.spec_config() == config,
            r.spec_phase() == ExchangePhase::Connected,
            r.spec_response() == None::<Seq<char>>,
    {
        StatusSession { config, phase: ExchangePhase::Connected, response: None }
    }

    /// The first step: the framed handshake packet to send. Outside the
    /// `Connected` phase nothing is produced and nothing changes.
    pub fn handshake(&mut self) -> (r: Result<Vec<u8>, ProtocolError>)
        ensures
            final(self).spec_config() == old(self).spec_config(),
            final(self).spec_response() == old(self).spec_response(),
            old(self).spec_phase() != ExchangePhase::Connected ==> {
                &&& r == Err::<Vec<u8>, ProtocolError>(ProtocolError::OutOfOrder)
                &&& final(self).spec_phase() == old(self).spec_phase()
            },
            old(self).spec_phase() == ExchangePhase::Connected && handshake_fits(
                old(self).spec_config().spec_protocol_version(),
                old(self).spec_config().spec_address(),
                old(self).spec_config().spec_port(),
            ) ==> {
                &&& r matches Ok(f) && f@ == handshake_frame(
                    old(self).spec_config().spec_protocol_version(),
                    old(self).spec_config().spec_address(),
                    old(self).spec_config().spec_port(),
                )
                &&& final(self).spec_phase() == ExchangePhase::HandshakeSent
            },
            old(self).spec_phase() == ExchangePhase::Connected && !handshake_fits(
                old(self).spec_config().spec_protocol_version(),
                old(self).spec_config().spec_address(),
                old(self).spec_config().spec_port(),
            ) ==> {
                &&& r == Err::<Vec<u8>, ProtocolError>(ProtocolError::ValueOutOfRange)
                &&& final(self).spec_phase() == ExchangePhase::Failed
            },
    {
        if self.phase != ExchangePhase::Connected {
            return Err(ProtocolError::OutOfOrder);
        }
        let protocol_version = self.config.protocol_version();
        let port = self.config.port();
        let address = self.config.address().as_str();
        let address_len = address.as_bytes().len();
        if protocol_version > u32::MAX as usize || address_len > u32::MAX as usize {
            self.phase = ExchangePhase::Failed;
            return Err(ProtocolError::ValueOutOfRange);
        }
        let body = handshake_body(protocol_version as u32, address, port, NEXT_STATE_STATUS);
        if body.len() > u32::MAX as usize {
            self.phase = ExchangePhase::Failed;
            return Err(ProtocolError::ValueOutOfRange);
        }
        let frame = write_packet(body.as_slice());
        self.phase = ExchangePhase::HandshakeSent;
        Ok(frame)
    }

    /// The second step: the framed request packet to send. Outside the
    /// `HandshakeSent` phase nothing is produced and nothing changes.
    pub fn request(&mut self) -> (r: Result<Vec<u8>, ProtocolError>)
        ensures
            final(self).spec_config() == old(self).spec_config(),
            final(self).spec_response() == old(self).spec_response(),
            old(self).spec_phase() != ExchangePhase::HandshakeSent ==> {
                &&& r == Err::<Vec<u8>, ProtocolError>(ProtocolError::OutOfOrder)
                &&& final(self).spec_phase() == old(self).spec_phase()
            },
            old(self).spec_phase() == ExchangePhase::HandshakeSent ==> {
                &&& r matches Ok(f) && f@ == packet_frame(request_bytes())
                &&& final(self).spec_phase() == ExchangePhase::RequestSent
            },
    {
        if self.phase != ExchangePhase::HandshakeSent {
            return Err(ProtocolError::OutOfOrder);
        }
        let body = request_body();
        let frame = write_packet(body.as_slice());
        self.phase = ExchangePhase::RequestSent;
        Ok(frame)
    }

    /// The last step: decode the body of the packet that came back and keep
    /// its text. Outside the `RequestSent` phase nothing changes.
    pub fn receive(&mut self, body: &[u8]) -> (r: Result<String, ProtocolError>)
        ensures
            final(self).spec_config() == old(self).spec_config(),
            old(self).spec_phase() != ExchangePhase::RequestSent ==> {
                &&& r == Err::<String, ProtocolError>(ProtocolError::OutOfOrder)
                &&& final(self).spec_phase() == old(self).spec_phase()
                &&& final(self).spec_response() == old(self).spec_response()
            },
            old(self).spec_phase() == ExchangePhase::RequestSent ==> match response_reading(body@) {
                Err(e) => {
                    &&& r == Err::<String, ProtocolError>(e)
                    &&& final(self).spec_phase() == ExchangePhase::Failed
                    &&& final(self).spec_response() == old(self).spec_response()
                },
                Ok(bytes) => if valid_utf8(bytes) {
                    &&& r matches Ok(s) && encode_utf8(s@) == bytes
                        && final(self).spec_response() == Some(s@)
                    &&& final(self).spec_phase() == ExchangePhase::ResponseReceived
                } else {
                    &&& r == Err::<String, ProtocolError>(ProtocolError::InvalidUtf8)
                    &&& final(self).spec_phase() == ExchangePhase::Failed
                    &&& final(self).spec_response() == old(self).spec_response()
                },
            },
    {
        if self.phase != ExchangePhase::RequestSent {
            return Err(ProtocolError::OutOfOrder);
        }
        match parse_response(body) {
            Ok(s) => {
                self.response = Some(s.clone());
                self.phase = ExchangePhase::ResponseReceived;
                Ok(s)
            },
            Err(e) => {
                self.phase = ExchangePhase::Failed;
                Err(e)
            },
        }
    }

    /// Marks the exchange as failed, after its owner could not move the bytes.
    pub fn abort(&mut self)
        ensures
            final(self).spec_config() == old(self).spec_config(),
            final(self).spec_response() == old(self).spec_response(),
            final(self).spec_phase() == ExchangePhase::Failed,
    {
        self.phase = ExchangePhase::Failed;
    }

    /// The phase the exchange is in.
    pub fn phase(&self) -> (r: ExchangePhase)
        ensures
            r == self.spec_phase(),
    {
        self.phase
    }

    /// The response text, once it has been received.
    pub fn response(&self) -> (r: Option<&String>)
        ensures
            match r {
                Some(s) => self.spec_response() == Some(s@),
                None => self.spec_response() == None::<Seq<char>>,
            },
    {
        match &self.response {
            Some(s) => Some(s),
            None => None,
        }
    }
}

} // verus!
