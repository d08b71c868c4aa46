use shutter_relay::command::{decode, react, Command, Reaction, NACK};

#[test]
fn decode_known_bytes() {
    assert_eq!(decode(1), Some(Command::Up));
    assert_eq!(decode(b'u'), Some(Command::Up));
    assert_eq!(decode(2), Some(Command::Down));
    assert_eq!(decode(b'd'), Some(Command::Down));
    assert_eq!(decode(3), Some(Command::Stop));
    assert_eq!(decode(b's'), Some(Command::Stop));
}

#[test]
fn decode_every_byte() {
    for b in 0u8..=255 {
        let expected = match b {
            1 | b'u' => Some(Command::Up),
            2 | b'd' => Some(Command::Down),
            3 | b's' => Some(Command::Stop),
            _ => None,
        };
        assert_eq!(decode(b), expected, "byte {}", b);
    }
}

#[test]
fn decode_rejects_near_misses() {
    assert_eq!(decode(0), None);
    assert_eq!(decode(4), None);
    assert_eq!(decode(b'U'), None);
    assert_eq!(decode(b'D'), None);
    assert_eq!(decode(b'S'), None);
    assert_eq!(decode(b'1'), None);
    assert_eq!(decode(0xFF), None);
}

#[test]
fn rejected_byte_gets_one_nack_and_no_action() {
    assert_eq!(NACK, 1);
    assert_eq!(react(0xFF), Reaction::Reject { reply: 0x01 });
    assert_eq!(react(0), Reaction::Reject { reply: 0x01 });
    assert_eq!(react(b'x'), Reaction::Reject { reply: 0x01 });
}

#[test]
fn known_bytes_actuate_without_reply() {
    assert_eq!(react(1), Reaction::Actuate(Command::Up));
    assert_eq!(react(b'u'), Reaction::Actuate(Command::Up));
    assert_eq!(react(b'd'), Reaction::Actuate(Command::Down));
    assert_eq!(react(2), Reaction::Actuate(Command::Down));
    assert_eq!(react(b's'), Reaction::Actuate(Command::Stop));
    assert_eq!(react(3), Reaction::Actuate(Command::Stop));
}

#[test]
fn every_byte_either_acts_or_nacks() {
    for b in 0u8..=255 {
        match react(b) {
            Reaction::Actuate(c) => assert_eq!(decode(b), Some(c)),
            Reaction::Reject { reply } => {
                assert_eq!(reply, NACK);
                assert_eq!(decode(b), None);
            }
        }
    }
}
