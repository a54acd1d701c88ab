//! Transport tests: the intent-set state machine, request correlation, and
//! the cube-level event translation and command builders.

use toio::ble::Uuid;
use toio::bridge::Action;
use toio::bridge::Bridge;
use toio::bridge::CharInfo;
use toio::bridge::Event;
use toio::bridge::FatalError;
use toio::bridge::NativeEvent;
use toio::bridge::PowerState;
use toio::cube::convert;
use toio::cube::go_command;
use toio::cube::light_command;
use toio::cube::light_on_command;
use toio::cube::play_command;
use toio::cube::CommandError;
use toio::cube::LightOp;
use toio::cube::Position;
use toio::cube::SoundOp;
use toio::cube::Status;
use toio::note::Note;
use toio::proto::uuid_of;
use toio::proto::Button;
use toio::proto::ButtonState;
use toio::proto::Family;
use toio::proto::Id;
use toio::proto::IdPos;
use toio::proto::Light;
use toio::proto::LightOn;
use toio::proto::Message;
use toio::proto::Motion;
use toio::proto::MotionDetect;
use toio::proto::Motor;
use toio::proto::MotorDir;
use toio::proto::MotorId;
use toio::proto::MotorSimple;
use toio::proto::MotorTimed;
use toio::proto::Posture;
use toio::searcher::nearest_index;
use toio::session::Session;
use toio::session::TransportError;

fn some_chars() -> Vec<CharInfo> {
    vec![
        CharInfo {
            uuid: uuid_of(Family::Motor),
            handle: 11,
            can_read: false,
            can_notify: true,
        },
        CharInfo {
            uuid: uuid_of(Family::Battery),
            handle: 12,
            can_read: true,
            can_notify: true,
        },
    ]
}

#[test]
fn auto_reconnect_keeps_wanted_devices() {
    let mut bridge = Bridge::new();
    bridge.connect(7);
    // A native drop of a wanted device: no disconnection published, exactly
    // one connect re-issued.
    let (actions, events) = bridge.on_event(NativeEvent::Disconnected { device: 7 }).unwrap();
    assert_eq!(actions, vec![Action::Connect(7)]);
    assert!(events.is_empty());
    // A failed connect of a wanted device behaves the same.
    let (actions, events) = bridge.on_event(NativeEvent::ConnectFailed { device: 7 }).unwrap();
    assert_eq!(actions, vec![Action::Connect(7)]);
    assert!(events.is_empty());
}

#[test]
fn explicit_disconnect_reports_once() {
    let mut bridge = Bridge::new();
    bridge.connect(7);
    bridge.disconnect(7);
    // The device left the intent set before the native drop: exactly one
    // disconnection published, no reconnect attempt.
    let (actions, events) = bridge.on_event(NativeEvent::Disconnected { device: 7 }).unwrap();
    assert!(actions.is_empty());
    assert_eq!(events, vec![Event::Disconnected { device: 7 }]);
    // A failed connect of an unwanted device does nothing at all.
    let (actions, events) = bridge.on_event(NativeEvent::ConnectFailed { device: 7 }).unwrap();
    assert!(actions.is_empty());
    assert!(events.is_empty());
}

#[test]
fn fatal_radio_states() {
    let mut bridge = Bridge::new();
    assert_eq!(
        bridge.on_event(NativeEvent::StateChanged(PowerState::Unsupported)),
        Err(FatalError::Unsupported)
    );
    assert_eq!(
        bridge.on_event(NativeEvent::StateChanged(PowerState::Unauthorized)),
        Err(FatalError::Unauthorized)
    );
    // A powered-off radio is transparent.
    let (actions, events) =
        bridge.on_event(NativeEvent::StateChanged(PowerState::PoweredOff)).unwrap();
    assert!(actions.is_empty() && events.is_empty());
}

#[test]
fn discovery_filters_unconnectable() {
    let mut bridge = Bridge::new();
    let (_, events) = bridge
        .on_event(NativeEvent::Discovered {
            device: 1,
            service_match: true,
            connectable: Some(false),
            rssi: -40,
        })
        .unwrap();
    assert!(events.is_empty());
    let (_, events) = bridge
        .on_event(NativeEvent::Discovered {
            device: 1,
            service_match: true,
            connectable: None,
            rssi: -40,
        })
        .unwrap();
    assert_eq!(
        events,
        vec![Event::Discovered { device: 1, service_match: true, rssi: -40 }]
    );
}

#[test]
fn connect_flow_subscribes_and_reports() {
    let mut bridge = Bridge::new();
    bridge.connect(7);
    let (actions, _) = bridge.on_event(NativeEvent::Connected { device: 7 }).unwrap();
    assert_eq!(actions, vec![Action::DiscoverServices(7)]);
    let (actions, _) = bridge
        .on_event(NativeEvent::ServicesDiscovered { device: 7, services: Some(vec![3]) })
        .unwrap();
    assert_eq!(actions, vec![Action::DiscoverCharacteristics { device: 7, service: 3 }]);
    let cs = some_chars();
    let (actions, events) = bridge
        .on_event(NativeEvent::CharacteristicsDiscovered { device: 7, chars: Some(cs.clone()) })
        .unwrap();
    assert_eq!(
        actions,
        vec![
            Action::Subscribe { device: 7, handle: 11 },
            Action::ReadCharacteristic { device: 7, handle: 12 },
            Action::Subscribe { device: 7, handle: 12 },
        ]
    );
    assert_eq!(events, vec![Event::Connected { device: 7, chars: cs }]);
}

#[test]
fn connect_correlation_captures_characteristics() {
    let mut s = Session::new(7, -40);
    let events = vec![
        Event::Discovered { device: 7, service_match: true, rssi: -40 },
        Event::Connected { device: 9, chars: vec![] },
        Event::Connected { device: 7, chars: some_chars() },
    ];
    assert_eq!(s.on_connect_events(events), Ok(()));
    assert_eq!(s.lookup_char(&uuid_of(Family::Motor)), Ok(11));
    assert_eq!(s.lookup_char(&uuid_of(Family::Battery)), Ok(12));
    let missing = uuid_of(Family::Sound);
    assert_eq!(
        s.lookup_char(&missing),
        Err(TransportError::UnknownCharacteristic(missing))
    );
}

#[test]
fn connect_timeout_leaves_no_bookkeeping() {
    let mut s = Session::new(7, -40);
    // A matching connection never arrives within the window: the call times
    // out and the session keeps no connected state.
    let events = vec![
        Event::Connected { device: 9, chars: some_chars() },
        Event::Disconnected { device: 7 },
    ];
    assert_eq!(s.on_connect_events(events), Err(TransportError::ConnectTimeout));
    assert!(s.chars.is_empty());
    let motor = uuid_of(Family::Motor);
    assert_eq!(
        s.lookup_char(&motor),
        Err(TransportError::UnknownCharacteristic(motor))
    );
}

#[test]
fn write_correlation_never_cross_matches() {
    let s = Session::new(7, -40);
    let motor = uuid_of(Family::Motor);
    let sound = uuid_of(Family::Sound);
    // Concurrent unrelated writes: another characteristic of the same
    // device, and the same characteristic of another device, both answer
    // first; the scan still finds its own acknowledgment.
    let events = vec![
        Event::WriteRes { device: 7, ch: sound, ok: false },
        Event::WriteRes { device: 9, ch: motor, ok: false },
        Event::WriteRes { device: 7, ch: motor, ok: true },
    ];
    assert_eq!(s.write_response(&events, &motor), Ok(()));
    // Only unrelated acknowledgments: no response for this write.
    let unrelated = vec![
        Event::WriteRes { device: 7, ch: sound, ok: true },
        Event::WriteRes { device: 9, ch: motor, ok: true },
    ];
    assert_eq!(
        s.write_response(&unrelated, &motor),
        Err(TransportError::NoResponse)
    );
    // A matching rejection is reported as such.
    let rejected = vec![Event::WriteRes { device: 7, ch: motor, ok: false }];
    assert_eq!(
        s.write_response(&rejected, &motor),
        Err(TransportError::WriteRejected)
    );
}

#[test]
fn disconnect_correlation() {
    let s = Session::new(7, -40);
    let events = vec![
        Event::Disconnected { device: 9 },
        Event::Disconnected { device: 7 },
    ];
    assert_eq!(s.on_disconnect_events(&events), Ok(()));
    let other = vec![Event::Disconnected { device: 9 }];
    assert_eq!(
        s.on_disconnect_events(&other),
        Err(TransportError::DisconnectTimeout)
    );
}

#[test]
fn value_stream_filters_by_device() {
    let s = Session::new(7, -40);
    let battery = uuid_of(Family::Battery);
    assert_eq!(
        s.value_event(Event::Value { device: 7, ch: battery, value: vec![55] }),
        Some((battery, vec![55]))
    );
    assert_eq!(
        s.value_event(Event::Value { device: 9, ch: battery, value: vec![55] }),
        None
    );
    assert_eq!(s.value_event(Event::Disconnected { device: 7 }), None);
}

#[test]
fn convert_translates_messages() {
    assert_eq!(
        convert(Message::Id(Id::Pos(IdPos::new(10, 20, 30, 1, 2, 3)))),
        Some(vec![toio::cube::Event::Position(Some(Position::new(10, 20, 30)))])
    );
    assert_eq!(
        convert(Message::Motion(Motion::Detect(MotionDetect::new(
            false,
            true,
            false,
            Posture::HeadUp
        )))),
        Some(vec![
            toio::cube::Event::Slope(true),
            toio::cube::Event::Collision(true),
            toio::cube::Event::Posture(Posture::HeadUp),
        ])
    );
    assert_eq!(
        convert(Message::Button(Button::Func(ButtonState::Pressed))),
        Some(vec![toio::cube::Event::Button(true)])
    );
    assert_eq!(
        convert(Message::Battery(55)),
        Some(vec![toio::cube::Event::Battery(55)])
    );
    // Commands flowing by carry no event.
    assert_eq!(convert(Message::Light(Light::AllOff)), None);
}

#[test]
fn status_tracks_events() {
    let mut st = Status::new();
    assert_eq!(st.battery, None);
    st.update(toio::cube::Event::Battery(80));
    st.update(toio::cube::Event::Button(true));
    st.update(toio::cube::Event::Posture(Posture::HeadUp));
    assert_eq!(st.battery, Some(80));
    assert_eq!(st.button, Some(true));
    assert_eq!(st.version, None);
}

#[test]
fn go_builds_exact_motor_requests() {
    // Full forward on both wheels: the magnitude scales into the working
    // band, 70 becoming 82.
    assert_eq!(
        go_command(70, 70, None),
        Ok(Motor::Simple(MotorSimple::new(
            MotorId::Left,
            MotorDir::Forward,
            82,
            MotorId::Right,
            MotorDir::Forward,
            82,
        )))
    );
    // Negative speeds go backward; zero is backward at the band's floor.
    assert_eq!(
        go_command(-100, 0, None),
        Ok(Motor::Simple(MotorSimple::new(
            MotorId::Left,
            MotorDir::Backward,
            115,
            MotorId::Right,
            MotorDir::Backward,
            7,
        )))
    );
    // A duration turns the request into a timed one, in ten-millisecond
    // units.
    assert_eq!(
        go_command(10, 10, Some(2000)),
        Ok(Motor::Timed(MotorTimed::new(
            MotorId::Left,
            MotorDir::Forward,
            17,
            MotorId::Right,
            MotorDir::Forward,
            17,
            200,
        )))
    );
    assert_eq!(go_command(101, 0, None), Err(CommandError::InvalidSpeed));
    assert_eq!(go_command(0, -101, None), Err(CommandError::InvalidSpeed));
    assert_eq!(go_command(0, 0, Some(2560)), Err(CommandError::InvalidDuration));
    assert!(go_command(0, 0, Some(2559)).is_ok());
}

#[test]
fn play_builds_exact_sound_requests() {
    let ops = vec![SoundOp::new(Note::C5, 500), SoundOp::new(Note::A6, 5)];
    match play_command(3, &ops).unwrap() {
        toio::proto::Sound::Play(p) => {
            assert_eq!(p.repeat, 3);
            assert_eq!(p.num, 2);
            // 500 ms becomes 50 ticks; 5 ms is clamped up to one tick.
            assert_eq!(p.ops[0], toio::proto::SoundOp::new(50, Note::C5, 255));
            assert_eq!(p.ops[1], toio::proto::SoundOp::new(1, Note::A6, 255));
        }
        m => panic!("wrong message: {:?}", m),
    }
    assert_eq!(play_command(0, &vec![]), Err(CommandError::InvalidOpCount));
    let many = vec![SoundOp::new(Note::C5, 10); 60];
    assert_eq!(play_command(0, &many), Err(CommandError::InvalidOpCount));
    let one = vec![SoundOp::new(Note::C5, 10)];
    assert_eq!(play_command(256, &one), Err(CommandError::InvalidRepeat));
    let long = vec![SoundOp::new(Note::C5, 2560)];
    assert_eq!(play_command(0, &long), Err(CommandError::InvalidDuration));
}

#[test]
fn light_builds_exact_light_requests() {
    let ops = vec![
        LightOp::new(255, 0, 0, Some(100)),
        LightOp::new(0, 255, 0, None),
    ];
    match light_command(10, &ops).unwrap() {
        Light::Control(c) => {
            assert_eq!(c.repeat, 10);
            assert_eq!(c.num, 2);
            assert_eq!(c.ops[0], LightOn::new(10, 255, 0, 0));
            assert_eq!(c.ops[1], LightOn::new(0, 0, 255, 0));
        }
        m => panic!("wrong message: {:?}", m),
    }
    assert_eq!(light_command(0, &vec![]), Err(CommandError::InvalidOpCount));
    let many = vec![LightOp::new(1, 1, 1, None); 30];
    assert_eq!(light_command(0, &many), Err(CommandError::InvalidOpCount));
    let one = vec![LightOp::new(1, 1, 1, None)];
    assert_eq!(light_command(256, &one), Err(CommandError::InvalidRepeat));
    let long = vec![LightOp::new(1, 1, 1, Some(2560))];
    assert_eq!(light_command(0, &long), Err(CommandError::InvalidDuration));
    assert_eq!(
        light_on_command(0, 255, 0, None),
        Light::On(LightOn::new(0, 0, 255, 0))
    );
}

#[test]
fn nearest_picks_strongest_signal() {
    assert_eq!(nearest_index(&vec![]), None);
    assert_eq!(nearest_index(&vec![-70]), Some(0));
    assert_eq!(nearest_index(&vec![-70, -40, -90]), Some(1));
    // On a tie the later device wins, as the search keeps the last maximum.
    assert_eq!(nearest_index(&vec![-40, -90, -40]), Some(2));
}
