//! Wire-codec tests: the fixed layouts, round trips, and every error.

use toio::ble::Uuid;
use toio::decode::decode;
use toio::decode::unpack_battery;
use toio::decode::Error;
use toio::encode::encode;
use toio::proto::family_of_uuid;
use toio::proto::service_uuid;
use toio::proto::uuid_of;
use toio::note::Note;
use toio::proto::{Button, ButtonState, Config, ConfigCollision, ConfigDoubleTap, ConfigLevel,
    ConfigVersion, ConfigVersionRes, Family, Id, IdPos, IdStd, Light, LightControl, LightOff,
    LightOn, Message, Motion, MotionDetect, Motor, MotorAcc, MotorCubeDir, MotorId, MotorDir,
    MotorMultiTarget, MotorPriority, MotorSimple, MotorTarget, MotorTargetRes, MotorTimed,
    MoveType, Posture, Sound, SoundOp, SoundPlay, SoundPreset, SoundPresetId, SpeedChange,
    Target, TargetResValue, WriteOpt};

fn enc(msg: Message) -> (Uuid, Vec<u8>) {
    encode(&msg)
}

#[test]
fn test_id() {
    let (uuid, p) = enc(Message::Id(Id::Pos(IdPos::new(1, 2, 3, 4, 5, 6))));
    assert_eq!(
        p,
        vec![0x01, 0x01, 0x00, 0x02, 0x00, 0x03, 0x00, 0x04, 0x00, 0x05, 0x00, 0x06, 0x00]
    );
    let m = decode(&uuid, &p).unwrap();
    assert_eq!(m, Message::Id(Id::Pos(IdPos::new(1, 2, 3, 4, 5, 6))));
}

#[test]
fn test_motion() {
    let (uuid, p) = enc(Message::Motion(Motion::Detect(MotionDetect::new(
        false,
        true,
        false,
        Posture::FrontUp,
    ))));
    assert_eq!(p, vec![0x01, 0x00, 0x01, 0x00, 0x04]);
    let m = decode(&uuid, &p).unwrap();
    assert_eq!(
        m,
        Message::Motion(Motion::Detect(MotionDetect::new(
            false,
            true,
            false,
            Posture::FrontUp
        )))
    );
}

#[test]
fn test_button() {
    let (uuid, p) = enc(Message::Button(Button::Func(ButtonState::Pressed)));
    assert_eq!(p, vec![0x01, 0x80]);
    let m = decode(&uuid, &p).unwrap();
    assert_eq!(m, Message::Button(Button::Func(ButtonState::Pressed)));
}

#[test]
fn test_version() {
    let (uuid, p) = enc(Message::Config(Config::VersionRes(ConfigVersionRes::new(
        "testXY".into(),
    ))));
    assert_eq!(p, vec![0x81, 0x00, 0x74, 0x65, 0x73, 0x74, 0x58, 0x59]);
    let m = decode(&uuid, &p).unwrap();
    assert_eq!(
        m,
        Message::Config(Config::VersionRes(ConfigVersionRes::new("testXY".into())))
    );
}

#[test]
fn test_light() {
    let l = Light::Control(LightControl::new(
        0,
        2,
        vec![LightOn::new(1, 2, 3, 4), LightOn::new(5, 6, 7, 8)],
    ));
    let (uuid, p) = enc(Message::Light(l.clone()));
    assert_eq!(
        p,
        vec![
            0x04, 0x00, 0x02, 0x01, 0x01, 0x01, 0x02, 0x03, 0x04, 0x05, 0x01, 0x01, 0x06, 0x07,
            0x08
        ]
    );
    let m = decode(&uuid, &p).unwrap();
    assert_eq!(m, Message::Light(l));
}

fn round_trips(msg: Message) {
    let (uuid, p) = encode(&msg);
    assert_eq!(decode(&uuid, &p).unwrap(), msg);
}

#[test]
fn round_trip_every_variant() {
    round_trips(Message::Id(Id::Pos(IdPos::new(0, 65535, 360, 1, 2, 3))));
    round_trips(Message::Id(Id::Std(IdStd::new(4294967295, 0))));
    round_trips(Message::Id(Id::PosMissed));
    round_trips(Message::Id(Id::StdMissed));
    round_trips(Message::Motion(Motion::Detect(MotionDetect::new(
        true,
        false,
        true,
        Posture::LeftSideUp,
    ))));
    round_trips(Message::Button(Button::Func(ButtonState::Released)));
    round_trips(Message::Battery(0));
    round_trips(Message::Battery(255));
    round_trips(Message::Motor(Motor::Simple(MotorSimple::new(
        MotorId::Left,
        MotorDir::Forward,
        0,
        MotorId::Right,
        MotorDir::Backward,
        255,
    ))));
    round_trips(Message::Motor(Motor::Timed(MotorTimed::new(
        MotorId::Right,
        MotorDir::Backward,
        10,
        MotorId::Left,
        MotorDir::Forward,
        20,
        255,
    ))));
    round_trips(Message::Motor(Motor::Target(MotorTarget::new(
        7,
        30,
        MoveType::Straight,
        80,
        SpeedChange::AccDec,
        65535,
        0,
        180,
    ))));
    round_trips(Message::Motor(Motor::MultiTarget(MotorMultiTarget::new(
        1,
        0,
        MoveType::Curve,
        115,
        SpeedChange::Const,
        WriteOpt::Append,
        vec![],
    ))));
    round_trips(Message::Motor(Motor::MultiTarget(MotorMultiTarget::new(
        1,
        0,
        MoveType::ForwardOnly,
        115,
        SpeedChange::Acc,
        WriteOpt::Overwrite,
        vec![Target::new(1, 2, 3)],
    ))));
    round_trips(Message::Motor(Motor::MultiTarget(MotorMultiTarget::new(
        9,
        5,
        MoveType::Curve,
        50,
        SpeedChange::Dec,
        WriteOpt::Append,
        vec![
            Target::new(0, 0, 0),
            Target::new(65535, 65535, 65535),
            Target::new(100, 200, 300),
        ],
    ))));
    round_trips(Message::Motor(Motor::Acc(MotorAcc::new(
        3,
        50,
        10,
        65535,
        MotorCubeDir::Backward,
        MotorCubeDir::Forward,
        MotorPriority::Rotation,
        200,
    ))));
    round_trips(Message::Motor(Motor::TargetRes(MotorTargetRes::new(
        7,
        TargetResValue::Timeout,
    ))));
    round_trips(Message::Motor(Motor::MultiTargetRes(MotorTargetRes::new(
        8,
        TargetResValue::Full,
    ))));
    round_trips(Message::Light(Light::AllOff));
    round_trips(Message::Light(Light::Off(LightOff::new())));
    round_trips(Message::Light(Light::On(LightOn::new(0, 255, 0, 255))));
    round_trips(Message::Light(Light::Control(LightControl::new(255, 0, vec![]))));
    round_trips(Message::Sound(Sound::Stop));
    round_trips(Message::Sound(Sound::Preset(SoundPreset::new(
        SoundPresetId::Effect2,
        255,
    ))));
    round_trips(Message::Sound(Sound::Play(SoundPlay::new(
        2,
        3,
        vec![
            SoundOp::new(10, Note::C0, 0),
            SoundOp::new(255, Note::NoSound, 255),
            SoundOp::new(1, Note::G10, 128),
        ],
    ))));
    round_trips(Message::Sound(Sound::Play(SoundPlay::new(0, 0, vec![]))));
    round_trips(Message::Config(Config::Version(ConfigVersion::new())));
    round_trips(Message::Config(Config::Level(ConfigLevel::new(45))));
    round_trips(Message::Config(Config::Collision(ConfigCollision::new(7))));
    round_trips(Message::Config(Config::DoubleTap(ConfigDoubleTap::new(4))));
    round_trips(Message::Config(Config::VersionRes(ConfigVersionRes::new(
        String::new(),
    ))));
    round_trips(Message::Config(Config::VersionRes(ConfigVersionRes::new(
        "2.0.0".into(),
    ))));
}

#[test]
fn motor_simple_layout() {
    let (uuid, p) = enc(Message::Motor(Motor::Simple(MotorSimple::new(
        MotorId::Left,
        MotorDir::Forward,
        70,
        MotorId::Right,
        MotorDir::Forward,
        70,
    ))));
    assert_eq!(p, vec![0x01, 0x01, 0x01, 70, 0x02, 0x01, 70]);
    assert_eq!(uuid, uuid_of(Family::Motor));
}

#[test]
fn battery_layout() {
    let (uuid, p) = enc(Message::Battery(55));
    assert_eq!(p, vec![55]);
    assert_eq!(decode(&uuid, &[55]).unwrap(), Message::Battery(55));
}

#[test]
fn truncated_fixed_payload() {
    // One byte short of a motor simple request: the last speed is missing.
    let uuid = uuid_of(Family::Motor);
    let r = decode(&uuid, &[0x01, 0x01, 0x01, 70, 0x02, 0x01]);
    assert_eq!(r, Err(Error::Truncated(1, 0)));
    // One byte short of a position id: the last angle loses a byte.
    let uuid = uuid_of(Family::IdReader);
    let r = decode(
        &uuid,
        &[0x01, 0x01, 0x00, 0x02, 0x00, 0x03, 0x00, 0x04, 0x00, 0x05, 0x00, 0x06],
    );
    assert_eq!(r, Err(Error::Truncated(2, 1)));
    // The empty buffer lacks even the tag.
    let r = decode(&uuid, &[]);
    assert_eq!(r, Err(Error::Truncated(1, 0)));
}

#[test]
fn unknown_tag() {
    let uuid = uuid_of(Family::Light);
    let r = decode(&uuid, &[0x07, 0x00]);
    assert_eq!(r, Err(Error::UnknownVariant(0x07, Family::Light)));
    let uuid = uuid_of(Family::Motor);
    let r = decode(&uuid, &[0x85]);
    assert_eq!(r, Err(Error::UnknownVariant(0x85, Family::Motor)));
}

#[test]
fn unknown_enum_byte() {
    // A posture byte outside the table.
    let uuid = uuid_of(Family::Motion);
    let r = decode(&uuid, &[0x01, 0x00, 0x00, 0x00, 0x07]);
    assert_eq!(r, Err(Error::UnknownVariant(0x07, Family::Motion)));
    // A note byte outside the table.
    let uuid = uuid_of(Family::Sound);
    let r = decode(&uuid, &[0x03, 0x00, 0x01, 0x05, 0x81, 0xff]);
    assert_eq!(r, Err(Error::UnknownVariant(0x81, Family::Sound)));
}

#[test]
fn unknown_characteristic() {
    let bogus = Uuid([0u8; 16]);
    let r = decode(&bogus, &[0x01]);
    assert_eq!(r, Err(Error::UnknownCharacteristic(bogus)));
}

#[test]
fn trailing_sequence_exactness() {
    let uuid = uuid_of(Family::Light);
    // Two bytes of header plus twelve bytes decode to exactly two ops.
    let full = vec![
        0x04, 0x00, 0x02, 1, 1, 1, 2, 3, 4, 5, 1, 1, 6, 7, 8,
    ];
    match decode(&uuid, &full).unwrap() {
        Message::Light(Light::Control(c)) => assert_eq!(c.ops.len(), 2),
        m => panic!("wrong message: {:?}", m),
    }
    // A remainder that is not a multiple of six fails the final element.
    let ragged = vec![0x04, 0x00, 0x02, 1, 1, 1, 2, 3, 4, 5, 1, 1];
    assert_eq!(decode(&uuid, &ragged), Err(Error::Truncated(1, 0)));
    // Zero remaining bytes decode to zero elements.
    let empty = vec![0x04, 0x00, 0x00];
    match decode(&uuid, &empty).unwrap() {
        Message::Light(Light::Control(c)) => assert_eq!(c.ops.len(), 0),
        m => panic!("wrong message: {:?}", m),
    }
}

#[test]
fn trailing_bytes_ignored_when_fixed() {
    // A button state followed by stray bytes still decodes.
    let uuid = uuid_of(Family::Button);
    let r = decode(&uuid, &[0x01, 0x80, 0xaa, 0xbb]).unwrap();
    assert_eq!(r, Message::Button(Button::Func(ButtonState::Pressed)));
}

#[test]
fn version_text_survives_invalid_bytes() {
    // The version text is read lossily: an invalid UTF-8 byte becomes the
    // replacement character instead of failing the decode.
    let uuid = uuid_of(Family::Config);
    let r = decode(&uuid, &[0x81, 0x00, 0xff]).unwrap();
    match r {
        Message::Config(Config::VersionRes(v)) => {
            assert_eq!(v.version, "\u{FFFD}");
        }
        m => panic!("wrong message: {:?}", m),
    }
}

#[test]
fn battery_unpack() {
    assert_eq!(unpack_battery(&[55, 99]), Ok(55));
    assert_eq!(unpack_battery(&[]), Err(Error::Truncated(1, 0)));
}

#[test]
fn catalog_is_total_and_sound() {
    let families = [
        Family::IdReader,
        Family::Motor,
        Family::Light,
        Family::Sound,
        Family::Motion,
        Family::Button,
        Family::Battery,
        Family::Config,
    ];
    for f in families {
        assert_eq!(family_of_uuid(&uuid_of(f)), Some(f));
    }
    assert_eq!(family_of_uuid(&service_uuid()), None);
}

#[test]
fn note_codes_cover_every_byte() {
    assert_eq!(Note::from_code(0), Some(Note::C0));
    assert_eq!(Note::from_code(57), Some(Note::A4));
    assert_eq!(Note::from_code(128), Some(Note::NoSound));
    assert_eq!(Note::from_code(129), None);
    assert_eq!(Note::A4.code(), 57);
}

#[test]
fn deserializer_cursor() {
    let buf = [1u8, 2, 3];
    let mut d = toio::decode::Deserializer::new(&buf);
    assert!(d.check(3).is_ok());
    assert_eq!(d.check(4), Err(Error::Truncated(4, 3)));
    assert_eq!(d.read_u8(), Ok(1));
    assert_eq!(d.read_u16(), Ok(0x0302));
    assert!(d.is_empty());
    assert_eq!(d.read_u8(), Err(Error::Truncated(1, 0)));
}

#[test]
fn deserializer_trailing_string() {
    let buf = [0x61u8, 0x62];
    let mut d = toio::decode::Deserializer::new(&buf);
    assert_eq!(d.parse_str(), "ab");
    assert!(d.is_empty());
}

#[test]
fn serializer_little_endian() {
    let mut s = toio::encode::Serializer::new();
    s.put_u8(0xab);
    s.put_u16(0x0302);
    s.put_u32(0x11223344);
    s.put_bool(true);
    s.put_str("ab");
    assert_eq!(
        s.into_vec(),
        vec![0xab, 0x02, 0x03, 0x44, 0x33, 0x22, 0x11, 0x01, 0x61, 0x62]
    );
}
