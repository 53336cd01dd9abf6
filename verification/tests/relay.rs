use game_core::codec::encode;
use game_core::connection::{ConnectionFsm, FrameAction};
use game_core::mapping::PlayerMapping;
use game_core::protocol::{AnnotatedClientPacket, ButtonType, ClientPacket, DecodeError, Frame,
    InputUpdate, Packet, UserId};
use game_core::relay::{process_message, PlayerInputs, RelayOutcome};

fn input_packet(user_id: UserId, bt: ButtonType, pressed: bool) -> AnnotatedClientPacket {
    AnnotatedClientPacket {
        user_id,
        packet: Packet::Client(ClientPacket::Input(InputUpdate::Button(bt, pressed))),
    }
}

#[test]
fn end_to_end_lifecycle_for_one_user() {
    let uid = UserId(7);

    // the connection task announces, forwards and closes in order; the
    // relay channel keeps that order for the consumer
    let (mut fsm, connected) = ConnectionFsm::begin(uid);
    assert_eq!(connected, AnnotatedClientPacket { user_id: uid, packet: Packet::Connected });
    let press = ClientPacket::Input(InputUpdate::Button(ButtonType::Up, true));
    let release = ClientPacket::Input(InputUpdate::Button(ButtonType::Up, false));
    let fwd_press = match fsm.on_frame(&Frame::Text(encode(&press))) {
        FrameAction::Forward(p) => p,
        other => panic!("expected a forward, got {:?}", other),
    };
    let fwd_release = match fsm.on_frame(&Frame::Text(encode(&release))) {
        FrameAction::Forward(p) => p,
        other => panic!("expected a forward, got {:?}", other),
    };
    assert_eq!(fsm.on_frame(&Frame::Close), FrameAction::Terminate);
    let disconnected = fsm.finish();
    assert_eq!(
        disconnected,
        AnnotatedClientPacket { user_id: uid, packet: Packet::Disconnected },
    );

    // the consumer drains the four packets in exactly that order
    let mut inputs = PlayerInputs::new();
    let mut mapping = PlayerMapping::new();

    assert_eq!(process_message(&mut inputs, &mut mapping, &connected), RelayOutcome::Connected(1));
    assert!(inputs.get(uid).is_some());
    assert_eq!(mapping.get(1), Some(uid));

    assert_eq!(process_message(&mut inputs, &mut mapping, &fwd_press), RelayOutcome::InputApplied);
    assert!(inputs.get(uid).unwrap().is_pressed(ButtonType::Up));

    assert_eq!(
        process_message(&mut inputs, &mut mapping, &fwd_release),
        RelayOutcome::InputApplied,
    );
    assert!(!inputs.get(uid).unwrap().is_pressed(ButtonType::Up));

    assert_eq!(
        process_message(&mut inputs, &mut mapping, &disconnected),
        RelayOutcome::Disconnected(Some(1), true),
    );
    // after processing, no input state remains for the user and the
    // player number is free again
    assert!(inputs.get(uid).is_none());
    assert_eq!(mapping.get(1), None);
    assert_eq!(mapping.get_players(), Vec::<u8>::new());
}

#[test]
fn edges_survive_between_ticks_through_the_relay() {
    let uid = UserId(3);
    let mut inputs = PlayerInputs::new();
    let mut mapping = PlayerMapping::new();
    let connect = AnnotatedClientPacket { user_id: uid, packet: Packet::Connected };
    process_message(&mut inputs, &mut mapping, &connect);

    // press and release both arrive between two ticks
    process_message(&mut inputs, &mut mapping, &input_packet(uid, ButtonType::A, true));
    process_message(&mut inputs, &mut mapping, &input_packet(uid, ButtonType::A, false));

    let mut pi = inputs.get(uid).unwrap();
    assert!(!pi.is_pressed(ButtonType::A));
    // the release edge is latched for the tick's one consuming read
    assert!(pi.a.just_released);
    assert!(pi.a.just_released());
    assert!(!pi.a.just_released());
}

#[test]
fn input_for_unknown_user_is_dropped() {
    let mut inputs = PlayerInputs::new();
    let mut mapping = PlayerMapping::new();
    let msg = input_packet(UserId(9), ButtonType::A, true);
    assert_eq!(process_message(&mut inputs, &mut mapping, &msg), RelayOutcome::UnknownUser);
    assert!(inputs.get(UserId(9)).is_none());
}

#[test]
fn disconnect_of_unknown_user_is_reported_not_fatal() {
    let mut inputs = PlayerInputs::new();
    let mut mapping = PlayerMapping::new();
    let msg = AnnotatedClientPacket { user_id: UserId(9), packet: Packet::Disconnected };
    assert_eq!(
        process_message(&mut inputs, &mut mapping, &msg),
        RelayOutcome::Disconnected(None, false),
    );
}

#[test]
fn connections_beyond_the_slot_space_are_rejected() {
    let mut inputs = PlayerInputs::new();
    let mut mapping = PlayerMapping::new();
    for i in 0..255u64 {
        let msg = AnnotatedClientPacket { user_id: UserId(100 + i), packet: Packet::Connected };
        assert_eq!(
            process_message(&mut inputs, &mut mapping, &msg),
            RelayOutcome::Connected((i + 1) as u8),
        );
    }
    let extra = AnnotatedClientPacket { user_id: UserId(999), packet: Packet::Connected };
    assert_eq!(process_message(&mut inputs, &mut mapping, &extra), RelayOutcome::SlotsExhausted);
    // the rejected connection got no input state either
    assert!(inputs.get(UserId(999)).is_none());
}

#[test]
fn malformed_frames_do_not_end_the_connection() {
    let (fsm, _connected) = ConnectionFsm::begin(UserId(1));
    assert_eq!(
        fsm.on_frame(&Frame::Text(b"not a packet".to_vec())),
        FrameAction::Ignore(DecodeError::Malformed),
    );
    // binary and control frames are unsupported kinds: the task stops
    assert_eq!(fsm.on_frame(&Frame::Binary(vec![1, 2, 3])), FrameAction::Terminate);
    assert_eq!(fsm.on_frame(&Frame::Other), FrameAction::Terminate);
}
