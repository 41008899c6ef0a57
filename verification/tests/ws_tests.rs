use job_hub::ws::{
    incoming_frame_action, parse_client_message, server_message_json, IoType, ServerMessage,
    TaskIoChunk, WsFrame, WsIncomingAction,
};

#[test]
fn task_io_chunk_wire_format() {
    let msg = ServerMessage::TaskIoChunk(TaskIoChunk {
        id: "7".to_string(),
        chunk: "X\n".to_string(),
        io_type: IoType::Stdout,
    });
    assert_eq!(
        String::from_utf8(server_message_json(&msg)).unwrap(),
        "{\"server_message\":\"TaskIoChunk\",\"content\":{\"id\":\"7\",\"chunk\":\"X\\n\",\"io_type\":\"Stdout\"}}"
    );
}

#[test]
fn stderr_chunks_are_tagged_stderr() {
    let msg = ServerMessage::TaskIoChunk(TaskIoChunk {
        id: "0".to_string(),
        chunk: "boom".to_string(),
        io_type: IoType::Stderr,
    });
    assert!(String::from_utf8(server_message_json(&msg))
        .unwrap()
        .ends_with("\"io_type\":\"Stderr\"}}"));
}

#[test]
fn pings_get_pongs_and_everything_else_is_ignored() {
    assert_eq!(
        incoming_frame_action(&WsFrame::Ping),
        WsIncomingAction::ReplyPong
    );
    assert_eq!(
        incoming_frame_action(&WsFrame::Text("hello".to_string())),
        WsIncomingAction::Ignore
    );
    assert_eq!(incoming_frame_action(&WsFrame::Binary), WsIncomingAction::Ignore);
    assert_eq!(incoming_frame_action(&WsFrame::Pong), WsIncomingAction::Ignore);
    assert_eq!(incoming_frame_action(&WsFrame::Close), WsIncomingAction::Ignore);
}

#[test]
fn the_inbound_language_is_empty() {
    assert!(parse_client_message("{\"anything\":1}").is_none());
    assert!(parse_client_message("").is_none());
}
