use tictactoe_p2p::codec::{decode_message, encode_answer, encode_invite, encode_turn, Message};

#[test]
fn answer_encodes_to_exact_bytes() {
    assert_eq!(encode_answer(true), b"{\"accept\":true}".to_vec());
    assert_eq!(encode_answer(false), b"{\"accept\":false}".to_vec());
}

#[test]
fn turn_encodes_to_exact_bytes() {
    assert_eq!(encode_turn(1, 2), b"{\"x\":1,\"y\":2}".to_vec());
    assert_eq!(encode_turn(0, 0), b"{\"x\":0,\"y\":0}".to_vec());
}

#[test]
fn invite_encodes_to_exact_bytes() {
    assert_eq!(
        encode_invite("12D3KooWabc"),
        b"{\"sender\":\"12D3KooWabc\"}".to_vec()
    );
}

#[test]
fn invite_escapes_metacharacters() {
    assert_eq!(
        encode_invite("a\"b\\c\nd\te"),
        b"{\"sender\":\"a\\\"b\\\\c\\nd\\te\"}".to_vec()
    );
    assert_eq!(
        encode_invite("\u{01}"),
        b"{\"sender\":\"\\u0001\"}".to_vec()
    );
}

#[test]
fn invite_escapes_beyond_ascii() {
    // a two-byte char, a three-byte char, and one above the basic plane
    assert_eq!(
        encode_invite("é"),
        b"{\"sender\":\"\\u00e9\"}".to_vec()
    );
    assert_eq!(
        encode_invite("\u{2713}"),
        b"{\"sender\":\"\\u2713\"}".to_vec()
    );
    assert_eq!(
        encode_invite("\u{1F600}"),
        b"{\"sender\":\"\\ud83d\\ude00\"}".to_vec()
    );
}

#[test]
fn invite_round_trips_through_the_decoder() {
    let bytes = encode_invite("peer-42");
    assert_eq!(
        decode_message(&bytes),
        Some(Message::Invite { sender: String::from("peer-42") })
    );
}

#[test]
fn hostile_invite_text_round_trips() {
    let sender = "a\"b\\c\nd\u{7}e\u{1F600}é✓";
    let bytes = encode_invite(sender);
    assert_eq!(
        decode_message(&bytes),
        Some(Message::Invite { sender: String::from(sender) })
    );
}

#[test]
fn answer_round_trips_through_the_decoder() {
    assert_eq!(
        decode_message(&encode_answer(true)),
        Some(Message::Answer { accept: true })
    );
    assert_eq!(
        decode_message(&encode_answer(false)),
        Some(Message::Answer { accept: false })
    );
}

#[test]
fn turn_round_trips_through_the_decoder() {
    for x in 0..3 {
        for y in 0..3 {
            assert_eq!(
                decode_message(&encode_turn(x, y)),
                Some(Message::Turn { x, y })
            );
        }
    }
}

#[test]
fn unknown_payloads_are_discarded() {
    assert_eq!(decode_message(b""), None);
    assert_eq!(decode_message(b"not json at all"), None);
    assert_eq!(decode_message(b"{\"other\":1}"), None);
    assert_eq!(decode_message(b"[1,2,3]"), None);
    assert_eq!(decode_message(b"{\"x\":1}"), None);
    assert_eq!(decode_message(b"{\"accept\":\"yes\"}"), None);
    assert_eq!(decode_message(b"{\"sender\":7}"), None);
}

#[test]
fn turn_with_non_integer_coordinates_is_discarded() {
    assert_eq!(decode_message(b"{\"x\":1.5,\"y\":2}"), None);
    assert_eq!(decode_message(b"{\"x\":-1,\"y\":2}"), None);
    assert_eq!(decode_message(b"{\"x\":1,\"y\":true}"), None);
}

#[test]
fn field_order_does_not_matter() {
    assert_eq!(
        decode_message(b"{\"y\":2,\"x\":1}"),
        Some(Message::Turn { x: 1, y: 2 })
    );
}

#[test]
fn whitespace_on_the_wire_is_accepted() {
    assert_eq!(
        decode_message(b" { \"accept\" : true } "),
        Some(Message::Answer { accept: true })
    );
}

#[test]
fn invite_shape_wins_when_several_shapes_match() {
    assert_eq!(
        decode_message(b"{\"sender\":\"p\",\"accept\":true,\"x\":1,\"y\":2}"),
        Some(Message::Invite { sender: String::from("p") })
    );
    assert_eq!(
        decode_message(b"{\"accept\":false,\"x\":1,\"y\":2}"),
        Some(Message::Answer { accept: false })
    );
}

#[test]
fn oversized_coordinates_still_decode_as_turns() {
    // the codec hands any in-range pair through; turn legality is the
    // session's business
    assert_eq!(
        decode_message(b"{\"x\":7,\"y\":8}"),
        Some(Message::Turn { x: 7, y: 8 })
    );
}
