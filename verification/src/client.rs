//! The socket client: one endpoint, at most one connection, a counter of
//! outbound messages.
//!
//! The client decides and frames; the transport itself (opening the
//! socket, sending a frame, delivering events) lives with the host.  The
//! host reports what happens on the wire through `on_transport_open` and
//! `on_transport_close`, and carries every frame this module hands out.

use vstd::prelude::*;

use crate::frame::MessagePayload;
use crate::frame::QueryPayload;
use crate::frame::WebSocketMessage;
use crate::frame::encode_message;
use crate::frame::envelope_json;
use crate::frame::is_json_array_text;
use crate::frame::json_string;
use crate::frame::opt_text;
use crate::frame::query_payload_json;
use crate::frame::validate_params_json;
use crate::ids::MessageKind;
use crate::ids::make_message_id;
use crate::ids::message_id_text;

verus! {

/// The transport-reported state of a connection, as last relayed by the
/// host.
#[derive(Clone, Copy, PartialEq, Eq, Structural)]
pub enum ReadyState {
    Connecting,
    Open,
    Closing,
    Closed,
}

/// Why a send was refused.
#[derive(Debug)]
pub enum SendError {
    /// No connection reports itself open.
    NotConnected,
    /// The parameter text is not a JSON array; carries the parser's
    /// account.
    InvalidParameters(String),
    /// The envelope could not be encoded; left to the host's transport
    /// layer, never produced here.
    SerializationError(String),
    /// The transport rejected the frame; reported by the host, never
    /// produced here.
    TransportError(String),
}

/// Why a handler registration was refused.
#[derive(Debug)]
pub enum HandlerError {
    /// No connection exists yet.
    NotInitialized,
}

/// A frame ready to go out: its correlation id and its text.
pub struct OutboundFrame {
    pub message_id: String,
    pub text: String,
}

/// A socket client bound to one endpoint.
pub struct WasmWebSocketClient {
    /// The target address, fixed at construction.
    pub url: String,
    /// The one connection, when present, with its last relayed state.
    pub connection: Option<ReadyState>,
    /// How many pings and queries have been sent over this client's
    /// lifetime.
    pub message_counter: u32,
    /// Whether an inbound-message handler is installed on the current
    /// connection.
    pub handler_installed: bool,
}

impl WasmWebSocketClient {
    /// Whether a connection exists and last reported itself open.
    pub open spec fn spec_is_connected(&self) -> bool {
        self.connection == Some(ReadyState::Open)
    }

    /// A client bound to `url`, with no connection and the counter at
    /// zero.
    pub fn new(url: &str) -> (c: WasmWebSocketClient)
        ensures
            c.url@ == url@,
            c.connection is None,
            c.message_counter == 0,
            !c.handler_installed,
    {
        WasmWebSocketClient {
            url: url.to_owned(),
            connection: None,
            message_counter: 0,
            handler_installed: false,
        }
    }

    /// Records one new connection attempt, replacing any prior
    /// connection unconditionally; the new connection starts without a
    /// message handler and is not yet open.
    pub fn connect(&mut self)
        ensures
            final(self).url == old(self).url,
            final(self).connection == Some(ReadyState::Connecting),
            final(self).message_counter == old(self).message_counter,
            !final(self).handler_installed,
    {
        self.connection = Some(ReadyState::Connecting);
        self.handler_installed = false;
    }

    /// Relays the transport's open event: the connection, if one still
    /// exists, now reports itself open.
    pub fn on_transport_open(&mut self)
        ensures
            final(self).url == old(self).url,
            final(self).message_counter == old(self).message_counter,
            final(self).handler_installed == old(self).handler_installed,
            old(self).connection is Some ==> final(self).connection == Some(ReadyState::Open),
            old(self).connection is None ==> final(self).connection is None,
    {
        if self.connection.is_some() {
            self.connection = Some(ReadyState::Open);
        }
    }

    /// Relays the transport's close event: the connection reference is
    /// kept, but it now reports itself closed.
    pub fn on_transport_close(&mut self)
        ensures
            final(self).url == old(self).url,
            final(self).message_counter == old(self).message_counter,
            final(self).handler_installed == old(self).handler_installed,
            old(self).connection is Some ==> final(self).connection == Some(ReadyState::Closed),
            old(self).connection is None ==> final(self).connection is None,
            !final(self).spec_is_connected(),
    {
        if self.connection.is_some() {
            self.connection = Some(ReadyState::Closed);
        }
    }

    /// Whether a connection exists and reports itself open.
    pub fn is_connected(&self) -> (r: bool)
        ensures
            r == self.spec_is_connected(),
    {
        match &self.connection {
            Some(ReadyState::Open) => true,
            _ => false,
        }
    }

    /// Drops the connection, whether or not a close completes on the
    /// wire; a client with no connection is left as it is.  Afterwards
    /// the client reports itself not connected.
    pub fn disconnect(&mut self)
        ensures
            final(self).url == old(self).url,
            final(self).message_counter == old(self).message_counter,
            final(self).connection is None,
            !final(self).handler_installed,
            !final(self).spec_is_connected(),
    {
        self.connection = None;
        self.handler_installed = false;
    }

    /// Frames a ping message carrying `message` as its payload.  Fails
    /// with `NotConnected`, leaving the counter as it was, unless the
    /// connection reports itself open; otherwise counts the message,
    /// builds its id from the counter and `now_millis`, and returns the
    /// envelope to put on the wire.
    pub fn send_ping(&mut self, message: &str, now_millis: u64) -> (r: Result<
        OutboundFrame,
        SendError,
    >)
        requires
            old(self).message_counter < u32::MAX,
        ensures
            final(self).url == old(self).url,
            final(self).connection == old(self).connection,
            final(self).handler_installed == old(self).handler_installed,
            !old(self).spec_is_connected() ==> final(self).message_counter == old(
                self,
            ).message_counter && (r matches Err(e) && e == SendError::NotConnected),
            old(self).spec_is_connected() ==> {
                &&& final(self).message_counter == old(self).message_counter + 1
                &&& r matches Ok(f) && f.message_id@ == message_id_text(
                    MessageKind::Ping,
                    final(self).message_counter,
                    now_millis,
                ) && f.text@ == envelope_json(
                    "ping"@,
                    json_string(message@),
                    Some(f.message_id@),
                )
            },
    {
        if !self.is_connected() {
            return Err(SendError::NotConnected);
        }
        self.message_counter = self.message_counter + 1;
        let message_id = make_message_id(MessageKind::Ping, self.message_counter, now_millis);
        let ws_message = WebSocketMessage {
            message_type: String::from_str("ping"),
            payload: MessagePayload::Text(message.to_owned()),
            id: Some(message_id.clone()),
        };
        let text = encode_message(&ws_message);
        Ok(OutboundFrame { message_id, text })
    }

    /// Frames a query message.  Fails with `NotConnected` unless the
    /// connection reports itself open; fails with `InvalidParameters`
    /// when a parameter text is supplied that is not a JSON array.
    /// Neither failure counts a message.  Otherwise counts the message
    /// and returns the envelope, the parameter array spliced in as it
    /// arrived.
    pub fn send_query(&mut self, sql: &str, params_json: Option<String>, now_millis: u64) -> (r:
        Result<OutboundFrame, SendError>)
        requires
            old(self).message_counter < u32::MAX,
        ensures
            final(self).url == old(self).url,
            final(self).connection == old(self).connection,
            final(self).handler_installed == old(self).handler_installed,
            !old(self).spec_is_connected() ==> final(self).message_counter == old(
                self,
            ).message_counter && (r matches Err(e) && e == SendError::NotConnected),
            old(self).spec_is_connected() && (params_json matches Some(p) && !is_json_array_text(
                p@,
            )) ==> final(self).message_counter == old(self).message_counter && (
            r matches Err(e) && e matches SendError::InvalidParameters(_)),
            old(self).spec_is_connected() && (params_json matches Some(p) ==> is_json_array_text(
                p@,
            )) ==> {
                &&& final(self).message_counter == old(self).message_counter + 1
                &&& r matches Ok(f) && f.message_id@ == message_id_text(
                    MessageKind::Query,
                    final(self).message_counter,
                    now_millis,
                ) && f.text@ == envelope_json(
                    "query"@,
                    query_payload_json(sql@, opt_text(params_json)),
                    Some(f.message_id@),
                )
            },
    {
        if !self.is_connected() {
            return Err(SendError::NotConnected);
        }
        let params: Option<String> = match params_json {
            Some(p) => {
                match validate_params_json(p.as_str()) {
                    Ok(_) => Some(p),
                    Err(detail) => {
                        return Err(SendError::InvalidParameters(detail));
                    },
                }
            },
            None => None,
        };
        self.message_counter = self.message_counter + 1;
        let message_id = make_message_id(MessageKind::Query, self.message_counter, now_millis);
        let ws_message = WebSocketMessage {
            message_type: String::from_str("query"),
            payload: MessagePayload::Query(QueryPayload { sql: sql.to_owned(), params }),
            id: Some(message_id.clone()),
        };
        let text = encode_message(&ws_message);
        Ok(OutboundFrame { message_id, text })
    }

    /// Registers interest in inbound text frames.  Fails with
    /// `NotInitialized` unless a connection exists; the connection need
    /// not be open yet.  Registration replaces any handler installed
    /// before.
    pub fn set_message_handler(&mut self) -> (r: Result<(), HandlerError>)
        ensures
            final(self).url == old(self).url,
            final(self).connection == old(self).connection,
            final(self).message_counter == old(self).message_counter,
            old(self).connection is None ==> final(self).handler_installed == old(
                self,
            ).handler_installed && (r matches Err(e) && e == HandlerError::NotInitialized),
            old(self).connection is Some ==> final(self).handler_installed && r is Ok,
    {
        if self.connection.is_some() {
            self.handler_installed = true;
            Ok(())
        } else {
            Err(HandlerError::NotInitialized)
        }
    }
}

/// Law: a client that has just disconnected reports itself not
/// connected.
pub proof fn lemma_disconnected_not_connected(c: WasmWebSocketClient)
    requires
        c.connection is None,
    ensures
        !c.spec_is_connected(),
{
}

/// A client created and asked to connect to `websocket_url`; the query
/// text and parameters play no part yet, as no message is framed here.
pub fn wasm_query_database(websocket_url: &str, sql: &str, params_json: Option<String>) -> (c:
    WasmWebSocketClient)
    ensures
        c.url@ == websocket_url@,
        c.connection == Some(ReadyState::Connecting),
        c.message_counter == 0,
        !c.handler_installed,
{
    let _ = sql;
    let _ = params_json;
    let mut client = WasmWebSocketClient::new(websocket_url);
    client.connect();
    client
}

/// A client bound to `url`, not yet connected.
pub fn create_websocket_client(url: &str) -> (c: WasmWebSocketClient)
    ensures
        c.url@ == url@,
        c.connection is None,
        c.message_counter == 0,
        !c.handler_installed,
{
    WasmWebSocketClient::new(url)
}

} // verus!
