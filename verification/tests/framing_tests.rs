use gamesync::framing::{frame_message, FrameBuffer};
use gamesync::protocol::handle_read_server;
use gamesync::state::{GameState, PlayerRecord, Room, SpriteState};
use gamesync::wire::encode_update;

#[test]
fn a_message_split_across_reads_is_reassembled() {
    let mut fb = FrameBuffer::new();
    fb.push_bytes(b"{\"get_pl");
    assert!(fb.next_frame().is_none());
    fb.push_bytes(b"ayer\": 1}\n");
    let frame = fb.next_frame().unwrap();
    assert_eq!(frame, b"{\"get_player\": 1}");
    assert!(fb.next_frame().is_none());
    assert_eq!(fb.pending_len(), 0);
}

#[test]
fn messages_coalesced_into_one_read_come_out_one_by_one() {
    let mut fb = FrameBuffer::new();
    fb.push_bytes(b"first\nsecond\nthi");
    assert_eq!(fb.next_frame().unwrap(), b"first");
    assert_eq!(fb.next_frame().unwrap(), b"second");
    assert!(fb.next_frame().is_none());
    fb.push_bytes(b"rd\n");
    assert_eq!(fb.next_frame().unwrap(), b"third");
}

#[test]
fn frames_do_not_depend_on_how_the_stream_was_cut() {
    let stream = b"alpha\nbeta\ngamma\n";
    let mut whole = FrameBuffer::new();
    whole.push_bytes(stream);
    let mut bytewise = FrameBuffer::new();
    for b in stream {
        bytewise.push_bytes(&[*b]);
    }
    for _ in 0..3 {
        let a = whole.next_frame().unwrap();
        let b = bytewise.next_frame().unwrap();
        assert_eq!(a, b);
    }
    assert!(whole.next_frame().is_none());
    assert!(bytewise.next_frame().is_none());
}

#[test]
fn an_empty_frame_is_just_the_delimiter() {
    let mut fb = FrameBuffer::new();
    fb.push_bytes(b"\n");
    assert_eq!(fb.next_frame().unwrap(), b"");
}

#[test]
fn frame_message_appends_the_delimiter() {
    assert_eq!(frame_message("{\"status\":\"ok\"}"), "{\"status\":\"ok\"}\n");
    assert_eq!(frame_message(""), "\n");
}

#[test]
fn a_framed_update_drives_the_server_end_to_end() {
    let mut game = GameState {
        rooms: vec![Room {
            room_id: 1,
            objects: vec![],
            players: vec![PlayerRecord {
                id: 7,
                x: 0,
                y: 0,
                width: 50,
                height: 50,
                sprite_state: SpriteState::North,
                skin: 0,
                shields: 0,
                room: 1,
            }],
            npcs: vec![],
        }],
    };
    let wire = frame_message(&encode_update(7, 42, 9));
    let mut fb = FrameBuffer::new();
    // the bytes arrive cut in two
    let bytes = wire.as_bytes();
    fb.push_bytes(&bytes[..10]);
    assert!(fb.next_frame().is_none());
    fb.push_bytes(&bytes[10..]);
    let frame = fb.next_frame().unwrap();
    let text = String::from_utf8(frame).unwrap();
    let resp = handle_read_server(&text, &mut game);
    assert_eq!(resp, "{\"status\":\"ok\"}");
    assert_eq!(game.rooms[0].players[0].x, 42);
    assert_eq!(game.rooms[0].players[0].y, 9);
}
