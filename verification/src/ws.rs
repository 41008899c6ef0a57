//! The WebSocket message language and the connection handler's decisions.
//!
//! Server-to-client events are JSON objects with a tagged encoding, specified
//! byte for byte; the only mandatory variant streams a chunk of a job's
//! standard output or standard error. The client-to-server language is empty
//! in this minimal service: every inbound text frame fails to parse and is
//! ignored. The frame-handling decisions of the connection handler are pure
//! functions here; the sockets and the split send/receive tasks live in the
//! unverified adapter.
use crate::codec::{json_string, push_json_string, push_str_bytes};
use vstd::prelude::*;
use vstd::string::StringSliceAdditionalSpecFns;
use vstd::utf8::encode_utf8;

verus! {

/// Which output stream a chunk came from.
#[derive(Debug, Clone, Copy, PartialEq, Eq, Structural)]
pub enum IoType {
    Stdout,
    Stderr,
}

/// A chunk of a job's output: the job id, the text, and which stream.
#[derive(Debug, PartialEq, Eq)]
pub struct TaskIoChunk {
    pub id: String,
    pub chunk: String,
    pub io_type: IoType,
}

/// A message from the server to every subscribed client.
#[derive(Debug, PartialEq, Eq)]
pub enum ServerMessage {
    /// A chunk of I/O output from a job.
    TaskIoChunk(TaskIoChunk),
}

/// A message from a client to the server. The minimal service understands
/// none: the parser accepts nothing, and the one variant below only exists
/// because an enum needs a variant; it is never produced. Extensions add
/// real tagged variants here.
#[derive(Debug, Clone, Copy, PartialEq, Eq, Structural)]
pub enum ClientMessage {
    /// Reserved for extensions; never produced by the parser.
    Reserved,
}

/// Either direction of the WebSocket language.
#[derive(Debug, PartialEq, Eq)]
pub enum WSMessage {
    /// A message from the client to the server.
    Client(ClientMessage),
    /// A message from the server to the client.
    Server(ServerMessage),
}

impl Clone for TaskIoChunk {
    /// A clone is the same chunk.
    fn clone(&self) -> (r: Self)
        ensures
            r == *self,
    {
        TaskIoChunk { id: self.id.clone(), chunk: self.chunk.clone(), io_type: self.io_type }
    }
}

impl Clone for ServerMessage {
    /// A clone is the same message.
    fn clone(&self) -> (r: Self)
        ensures
            r == *self,
    {
        match self {
            ServerMessage::TaskIoChunk(c) => ServerMessage::TaskIoChunk(c.clone()),
        }
    }
}

/// The wire name of an output stream.
pub open spec fn spec_io_type_json(t: IoType) -> Seq<u8> {
    match t {
        IoType::Stdout => "\"Stdout\"".spec_bytes(),
        IoType::Stderr => "\"Stderr\"".spec_bytes(),
    }
}

/// A server message on the wire: a `server_message` tag and a `content`
/// object; a chunk carries its job id, its text and its stream.
pub open spec fn spec_server_message_json(m: ServerMessage) -> Seq<u8> {
    match m {
        ServerMessage::TaskIoChunk(c) => "{\"server_message\":\"TaskIoChunk\",\"content\":{\"id\":".spec_bytes()
            + json_string(encode_utf8(c.id@)) + ",\"chunk\":".spec_bytes() + json_string(
            encode_utf8(c.chunk@),
        ) + ",\"io_type\":".spec_bytes() + spec_io_type_json(c.io_type) + "}}".spec_bytes(),
    }
}

/// Encode a server message as the text of one WebSocket frame.
pub fn server_message_json(m: &ServerMessage) -> (r: Vec<u8>)
    ensures
        r@ == spec_server_message_json(*m),
{
    let mut out: Vec<u8> = Vec::new();
    match m {
        ServerMessage::TaskIoChunk(c) => {
            push_str_bytes(&mut out, "{\"server_message\":\"TaskIoChunk\",\"content\":{\"id\":");
            push_json_string(&mut out, c.id.as_str());
            push_str_bytes(&mut out, ",\"chunk\":");
            push_json_string(&mut out, c.chunk.as_str());
            push_str_bytes(&mut out, ",\"io_type\":");
            match c.io_type {
                IoType::Stdout => push_str_bytes(&mut out, "\"Stdout\""),
                IoType::Stderr => push_str_bytes(&mut out, "\"Stderr\""),
            }
            push_str_bytes(&mut out, "}}");
            proof {
                assert(out@ =~= spec_server_message_json(*m));
            }
        },
    }
    out
}

/// Parse an inbound text frame as a client message. The client language has
/// no variants, so nothing parses; the connection handler logs and ignores
/// such frames. Extensions that add variants extend this parser.
pub fn parse_client_message(text: &str) -> (r: Option<ClientMessage>)
    ensures
        r is None,
{
    let _ = text;
    None
}

/// One inbound WebSocket frame, as far as the handler's decisions care: the
/// payloads of non-text frames never matter.
#[derive(Debug, PartialEq, Eq)]
pub enum WsFrame {
    /// A text frame holding a would-be client message.
    Text(String),
    /// A binary frame.
    Binary,
    /// A ping; the peer expects a pong.
    Ping,
    /// A pong.
    Pong,
    /// A close frame.
    Close,
}

/// What the connection handler does with one inbound frame.
#[derive(Debug, Clone, Copy, PartialEq, Eq, Structural)]
pub enum WsIncomingAction {
    /// Forward nothing, keep reading: unparseable text, binary, pong and
    /// close frames are logged and ignored.
    Ignore,
    /// Answer a ping with a pong on the outgoing path.
    ReplyPong,
}

/// The handler's decision for one inbound frame: pings are answered with a
/// pong; text that fails to parse (all text, in the empty client language),
/// binary, pong and close frames are ignored.
pub fn incoming_frame_action(frame: &WsFrame) -> (r: WsIncomingAction)
    ensures
        r == (match *frame {
            WsFrame::Ping => WsIncomingAction::ReplyPong,
            _ => WsIncomingAction::Ignore,
        }),
{
    match frame {
        WsFrame::Ping => WsIncomingAction::ReplyPong,
        WsFrame::Text(text) => {
            match parse_client_message(text.as_str()) {
                Some(_) => WsIncomingAction::Ignore,
                None => WsIncomingAction::Ignore,
            }
        },
        _ => WsIncomingAction::Ignore,
    }
}

} // verus!
