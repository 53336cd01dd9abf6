use game_core::codec::{decode, encode};
use game_core::protocol::{AxisValue, ButtonType, ClientPacket, DecodeError, Frame, InputUpdate,
    JoystickAxis};

fn button_packet(bt: ButtonType, v: bool) -> ClientPacket {
    ClientPacket::Input(InputUpdate::Button(bt, v))
}

fn joystick_packet(axis: JoystickAxis, millis: i32) -> ClientPacket {
    ClientPacket::Input(InputUpdate::Joystick(axis, AxisValue::new(millis).unwrap()))
}

#[test]
fn button_round_trip_all_buttons_and_values() {
    let buttons = [
        ButtonType::A,
        ButtonType::B,
        ButtonType::X,
        ButtonType::Y,
        ButtonType::Up,
        ButtonType::Down,
        ButtonType::Left,
        ButtonType::Right,
    ];
    for &bt in &buttons {
        for &v in &[true, false] {
            let p = button_packet(bt, v);
            let wire = encode(&p);
            assert_eq!(decode(&wire), Ok(p));
        }
    }
}

#[test]
fn joystick_round_trip_representative_values() {
    let axes = [
        JoystickAxis::LeftX,
        JoystickAxis::LeftY,
        JoystickAxis::RightX,
        JoystickAxis::RightY,
    ];
    // -1.0, 0.0 and 1.0 as thousandths, plus in-between deflections
    for &axis in &axes {
        for &m in &[-1000, 0, 1000] {
            let p = joystick_packet(axis, m);
            let wire = encode(&p);
            assert_eq!(decode(&wire), Ok(p));
        }
    }
    for &m in &[420, -420, 1, -1, 5, 500, -500, 999, -999, 100, 310] {
        let p = joystick_packet(JoystickAxis::LeftX, m);
        let wire = encode(&p);
        assert_eq!(decode(&wire), Ok(p));
    }
}

#[test]
fn encoding_is_the_documented_json_text() {
    assert_eq!(
        encode(&button_packet(ButtonType::A, true)),
        b"{\"Input\":{\"Button\":[\"A\",true]}}".to_vec(),
    );
    assert_eq!(
        encode(&button_packet(ButtonType::Right, false)),
        b"{\"Input\":{\"Button\":[\"Right\",false]}}".to_vec(),
    );
    assert_eq!(
        encode(&joystick_packet(JoystickAxis::LeftX, 420)),
        b"{\"Input\":{\"Joystick\":[\"LeftX\",0.42]}}".to_vec(),
    );
    assert_eq!(
        encode(&joystick_packet(JoystickAxis::RightY, -1000)),
        b"{\"Input\":{\"Joystick\":[\"RightY\",-1]}}".to_vec(),
    );
    assert_eq!(
        encode(&joystick_packet(JoystickAxis::LeftY, 0)),
        b"{\"Input\":{\"Joystick\":[\"LeftY\",0]}}".to_vec(),
    );
    assert_eq!(
        encode(&joystick_packet(JoystickAxis::RightX, 5)),
        b"{\"Input\":{\"Joystick\":[\"RightX\",0.005]}}".to_vec(),
    );
}

#[test]
fn malformed_texts_are_rejected() {
    let bad: &[&[u8]] = &[
        b"",
        b"{}",
        b"{\"Input\":{}}",
        b"{\"Input\":{\"Button\":[\"Q\",true]}}",
        b"{\"Input\":{\"Button\":[\"A\",maybe]}}",
        b"{\"Input\":{\"Button\":[\"A\",true]}} ",
        b" {\"Input\":{\"Button\":[\"A\",true]}}",
        b"{\"Input\": {\"Button\":[\"A\",true]}}",
        b"{\"Input\":{\"Joystick\":[\"LeftX\",0.420]}}",
        b"{\"Input\":{\"Joystick\":[\"LeftX\",-0]}}",
        b"{\"Input\":{\"Joystick\":[\"LeftX\",00.4]}}",
        b"{\"Input\":{\"Joystick\":[\"LeftX\",2]}}",
        b"{\"Input\":{\"Joystick\":[\"LeftX\",1.5]}}",
        b"{\"Input\":{\"Joystick\":[\"UpX\",0.5]}}",
    ];
    for &text in bad {
        assert_eq!(decode(text), Err(DecodeError::Malformed));
    }
}

#[test]
fn frame_kinds_are_classified() {
    let p = button_packet(ButtonType::Up, true);
    let wire = encode(&p);
    assert_eq!(ClientPacket::from_ws_message(&Frame::Text(wire.clone())), Ok(p));
    assert_eq!(
        ClientPacket::from_ws_message(&Frame::Text(b"not json".to_vec())),
        Err(DecodeError::Malformed),
    );
    assert_eq!(
        ClientPacket::from_ws_message(&Frame::Binary(wire)),
        Err(DecodeError::BinaryUnsupported),
    );
    assert_eq!(
        ClientPacket::from_ws_message(&Frame::Close),
        Err(DecodeError::UnsupportedFrame),
    );
    assert_eq!(
        ClientPacket::from_ws_message(&Frame::Other),
        Err(DecodeError::UnsupportedFrame),
    );
}
