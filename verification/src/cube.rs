//! The cube-level view of the protocol: semantic events derived from raw
//! messages, the status those events keep current, and the builders that
//! turn high-level commands into protocol messages, with the ranges the
//! cube accepts checked up front.

use vstd::prelude::*;

use crate::note::Note;
use crate::proto::Button;
use crate::proto::ButtonState;
use crate::proto::Config;
use crate::proto::Id;
use crate::proto::IdPos;
use crate::proto::IdStd;
use crate::proto::Light;
use crate::proto::LightControl;
use crate::proto::LightOn;
use crate::proto::Message;
use crate::proto::Motion;
use crate::proto::Motor;
use crate::proto::MotorDir;
use crate::proto::MotorId;
use crate::proto::MotorSimple;
use crate::proto::MotorTimed;
use crate::proto::Posture;
use crate::proto::Sound;
use crate::proto::SoundPlay;

verus! {

/// The cube position information read from a position id.
#[derive(Debug, Clone, Copy, PartialEq, Eq, Hash, Structural)]
pub struct Position {
    /// The x coordinate of the cube.
    pub x: u16,
    /// The y coordinate of the cube.
    pub y: u16,
    /// The angle of the cube.
    pub angle: u16,
}

impl Position {
    /// Builds a position value.
    pub fn new(x: u16, y: u16, angle: u16) -> (r: Self)
        ensures
            r == (Position { x, y, angle }),
    {
        Position { x, y, angle }
    }
}

impl From<IdPos> for Position {
    /// The cube's own coordinates of a position id.
    fn from(p: IdPos) -> (r: Self) {
        Position { x: p.cube_x, y: p.cube_y, angle: p.cube_angle }
    }
}

impl vstd::std_specs::convert::FromSpecImpl<IdPos> for Position {
    open spec fn obeys_from_spec() -> bool {
        true
    }

    open spec fn from_spec(p: IdPos) -> Position {
        Position { x: p.cube_x, y: p.cube_y, angle: p.cube_angle }
    }
}

/// The standard id information read from a standard id.
#[derive(Debug, Clone, Copy, PartialEq, Eq, Hash, Structural)]
pub struct StdId {
    /// The value of the standard id.
    pub id: u32,
    /// The angle of the cube.
    pub angle: u16,
}

impl StdId {
    /// Builds a standard id value.
    pub fn new(id: u32, angle: u16) -> (r: Self)
        ensures
            r == (StdId { id, angle }),
    {
        StdId { id, angle }
    }
}

impl From<IdStd> for StdId {
    /// The value and angle of a standard id.
    fn from(p: IdStd) -> (r: Self) {
        StdId { id: p.value, angle: p.angle }
    }
}

impl vstd::std_specs::convert::FromSpecImpl<IdStd> for StdId {
    open spec fn obeys_from_spec() -> bool {
        true
    }

    open spec fn from_spec(p: IdStd) -> StdId {
        StdId { id: p.value, angle: p.angle }
    }
}

/// The event sent to callers when the cube's status is updated.
#[derive(Debug, Clone, PartialEq, Eq)]
pub enum Event {
    /// The battery level, as a percentage.
    Battery(usize),
    /// Set if the cube collides with an object.
    Collision(bool),
    /// Set if the cube is on a slope.
    Slope(bool),
    /// Set if the button is pressed.
    Button(bool),
    /// The posture of the cube.
    Posture(Posture),
    /// The position information, absent when the cube left the mat.
    Position(Option<Position>),
    /// The standard id information, absent when the cube left the card.
    StdId(Option<StdId>),
    /// The protocol version.
    Version(String),
}

/// The last reported value of everything the events carry; each field is
/// absent until its first event arrives.
#[derive(Debug, Clone, PartialEq, Eq)]
pub struct Status {
    /// The protocol version.
    pub version: Option<String>,
    /// The battery level, as a percentage.
    pub battery: Option<usize>,
    /// Whether the cube is in collision.
    pub collision: Option<bool>,
    /// Whether the cube is on a slope.
    pub slope: Option<bool>,
    /// Whether the button is pressed.
    pub button: Option<bool>,
    /// The last position report.
    pub position: Option<Option<Position>>,
    /// The last standard id report.
    pub std_id: Option<Option<StdId>>,
}

impl Status {
    /// A status with nothing reported yet.
    pub fn new() -> (r: Self)
        ensures
            r == (Status {
                version: None::<String>,
                battery: None::<usize>,
                collision: None::<bool>,
                slope: None::<bool>,
                button: None::<bool>,
                position: None::<Option<Position>>,
                std_id: None::<Option<StdId>>,
            }),
    {
        Status {
            version: None,
            battery: None,
            collision: None,
            slope: None,
            button: None,
            position: None,
            std_id: None,
        }
    }

    /// Folds one event into the status: the event's field is set to the
    /// reported value; a posture report changes nothing.
    pub fn update(&mut self, e: Event)
        ensures
            match e {
                Event::Slope(s) => *final(self) == (Status { slope: Some(s), ..*old(self) }),
                Event::Collision(c) => *final(self) == (Status {
                    collision: Some(c),
                    ..*old(self)
                }),
                Event::Button(b) => *final(self) == (Status { button: Some(b), ..*old(self) }),
                Event::Battery(b) => *final(self) == (Status { battery: Some(b), ..*old(self) }),
                Event::Version(v) => *final(self) == (Status { version: Some(v), ..*old(self) }),
                Event::Position(p) => *final(self) == (Status { position: Some(p), ..*old(self) }),
                Event::StdId(p) => *final(self) == (Status { std_id: Some(p), ..*old(self) }),
                Event::Posture(_) => *final(self) == *old(self),
            },
    {
        match e {
            Event::Slope(s) => {
                self.slope = Some(s);
            }
            Event::Collision(c) => {
                self.collision = Some(c);
            }
            Event::Button(b) => {
                self.button = Some(b);
            }
            Event::Battery(b) => {
                self.battery = Some(b);
            }
            Event::Version(v) => {
                self.version = Some(v);
            }
            Event::Position(p) => {
                self.position = Some(p);
            }
            Event::StdId(p) => {
                self.std_id = Some(p);
            }
            Event::Posture(_) => {}
        }
    }
}

impl Default for Status {
    /// A status with nothing reported yet.
    fn default() -> (r: Self)
        ensures
            r == (Status {
                version: None::<String>,
                battery: None::<usize>,
                collision: None::<bool>,
                slope: None::<bool>,
                button: None::<bool>,
                position: None::<Option<Position>>,
                std_id: None::<Option<StdId>>,
            }),
    {
        Status::new()
    }
}

/// Translates one raw message into the semantic events it means; messages
/// that carry no event for callers (commands, responses to writes) give
/// none.
pub fn convert(msg: Message) -> (r: Option<Vec<Event>>)
    ensures
        match msg {
            Message::Id(Id::Pos(p)) => (r matches Some(v) && v@ =~= seq![
                Event::Position(
                    Some(Position { x: p.cube_x, y: p.cube_y, angle: p.cube_angle }),
                ),
            ]),
            Message::Id(Id::Std(p)) => (r matches Some(v) && v@ =~= seq![
                Event::StdId(Some(StdId { id: p.value, angle: p.angle })),
            ]),
            Message::Id(Id::PosMissed) => (r matches Some(v) && v@ =~= seq![
                Event::Position(None::<Position>),
            ]),
            Message::Id(Id::StdMissed) => (r matches Some(v) && v@ =~= seq![
                Event::StdId(None::<StdId>),
            ]),
            Message::Motion(Motion::Detect(m)) => (r matches Some(v) && v@ =~= seq![
                Event::Slope(!m.level),
                Event::Collision(m.collision),
                Event::Posture(m.posture),
            ]),
            Message::Button(Button::Func(b)) => (r matches Some(v) && v@ =~= seq![
                Event::Button(b == ButtonState::Pressed),
            ]),
            Message::Battery(b) => (r matches Some(v) && v@ =~= seq![
                Event::Battery(b as usize),
            ]),
            Message::Config(Config::VersionRes(res)) => (r matches Some(v) && v@ =~= seq![
                Event::Version(res.version),
            ]),
            _ => r is None,
        },
{
    match msg {
        Message::Id(Id::Pos(p)) => Some(
            vec![Event::Position(Some(Position { x: p.cube_x, y: p.cube_y, angle: p.cube_angle }))],
        ),
        Message::Id(Id::Std(p)) => Some(vec![Event::StdId(Some(StdId { id: p.value, angle: p.angle }))]),
        Message::Id(Id::PosMissed) => Some(vec![Event::Position(None)]),
        Message::Id(Id::StdMissed) => Some(vec![Event::StdId(None)]),
        Message::Motion(Motion::Detect(m)) => Some(
            vec![Event::Slope(!m.level), Event::Collision(m.collision), Event::Posture(m.posture)],
        ),
        Message::Button(Button::Func(b)) => Some(
            vec![Event::Button(match b { ButtonState::Pressed => true, ButtonState::Released => false })],
        ),
        Message::Battery(b) => Some(vec![Event::Battery(b as usize)]),
        Message::Config(Config::VersionRes(res)) => Some(vec![Event::Version(res.version)]),
        _ => None,
    }
}

/// Why a command was rejected before anything was sent.
#[derive(Debug, Clone, Copy, PartialEq, Eq, Structural)]
pub enum CommandError {
    /// A wheel speed is outside -100 to 100.
    InvalidSpeed,
    /// A duration is too long for the wire format.
    InvalidDuration,
    /// The number of operations is outside what one message can carry.
    InvalidOpCount,
    /// The repeat count does not fit in one byte.
    InvalidRepeat,
}

/// The rotation direction a signed wheel speed means: positive is forward.
pub open spec fn spec_wheel_dir(v: int) -> MotorDir {
    if v > 0 {
        MotorDir::Forward
    } else {
        MotorDir::Backward
    }
}

/// The wire speed a signed wheel speed means: the magnitude scaled from
/// 0..=100 into the cube's working band.
pub open spec fn spec_wheel_speed(v: int) -> u8
    recommends
        -100 <= v <= 100,
{
    ((if v >= 0 {
        v
    } else {
        -v
    }) * (115 - 7) / 100 + 7) as u8
}

/// A light operation as callers give it: a color and how long to show it;
/// no duration means forever.
#[derive(Debug, Clone, Copy, PartialEq, Eq)]
pub struct LightOp {
    /// The value of the red light.
    pub red: u8,
    /// The value of the green light.
    pub green: u8,
    /// The value of the blue light.
    pub blue: u8,
    /// The duration to turn on the light, in milliseconds.
    pub duration_ms: Option<u64>,
}

impl LightOp {
    /// Builds a light operation.
    pub fn new(red: u8, green: u8, blue: u8, duration_ms: Option<u64>) -> (r: Self)
        ensures
            r == (LightOp { red, green, blue, duration_ms }),
    {
        LightOp { red, green, blue, duration_ms }
    }
}

/// A sound operation as callers give it: a note and how long to play it.
#[derive(Debug, Clone, Copy, PartialEq, Eq, Structural)]
pub struct SoundOp {
    /// The sound note.
    pub note: Note,
    /// The duration to play the sound, in milliseconds.
    pub duration_ms: u64,
}

impl SoundOp {
    /// Builds a sound operation.
    pub fn new(note: Note, duration_ms: u64) -> (r: Self)
        ensures
            r == (SoundOp { note, duration_ms }),
    {
        SoundOp { note, duration_ms }
    }
}

/// The wire duration of a caller's millisecond count: ten-millisecond
/// units, at least one.
pub open spec fn spec_op_ticks(ms: u64) -> int {
    if ms / 10 > 1 {
        (ms / 10) as int
    } else {
        1
    }
}

/// The wire form of one sound operation, at full volume.
pub open spec fn spec_sound_op(op: SoundOp) -> crate::proto::SoundOp {
    crate::proto::SoundOp { duration: spec_op_ticks(op.duration_ms) as u8, note: op.note, vol: 255 }
}

/// The wire form of one light operation: no duration plays forever (zero).
pub open spec fn spec_light_op(op: LightOp) -> LightOn {
    let d = match op.duration_ms {
        Some(ms) => spec_op_ticks(ms),
        None => 0,
    };
    LightOn { duration: d as u8, num: 1, id: 1, red: op.red, green: op.green, blue: op.blue }
}

/// Builds the motor message that moves the cube: each wheel's speed must
/// lie in -100 to 100, and a duration, if given, below 2560 milliseconds.
/// Exactly the out-of-range inputs are rejected.
pub fn go_command(left: i64, right: i64, duration_ms: Option<u64>) -> (r: Result<
    Motor,
    CommandError,
>)
    ensures
        (left < -100 || left > 100 || right < -100 || right > 100) <==> r == Err::<
            Motor,
            CommandError,
        >(CommandError::InvalidSpeed),
        (-100 <= left <= 100 && -100 <= right <= 100 && (duration_ms matches Some(d) && d / 10
            > 255)) <==> r == Err::<Motor, CommandError>(CommandError::InvalidDuration),
        r matches Ok(m) ==> match duration_ms {
            None => m == Motor::Simple(MotorSimple {
                motor1: MotorId::Left,
                dir1: spec_wheel_dir(left as int),
                speed1: spec_wheel_speed(left as int),
                motor2: MotorId::Right,
                dir2: spec_wheel_dir(right as int),
                speed2: spec_wheel_speed(right as int),
            }),
            Some(d) => m == Motor::Timed(MotorTimed {
                motor1: MotorId::Left,
                dir1: spec_wheel_dir(left as int),
                speed1: spec_wheel_speed(left as int),
                motor2: MotorId::Right,
                dir2: spec_wheel_dir(right as int),
                speed2: spec_wheel_speed(right as int),
                duration: (d / 10) as u8,
            }),
        },
{
    if left < -100 || left > 100 || right < -100 || right > 100 {
        return Err(CommandError::InvalidSpeed);
    }
    let left_dir = if left > 0 {
        MotorDir::Forward
    } else {
        MotorDir::Backward
    };
    let right_dir = if right > 0 {
        MotorDir::Forward
    } else {
        MotorDir::Backward
    };
    let left_abs = if left >= 0 {
        left
    } else {
        -left
    };
    let right_abs = if right >= 0 {
        right
    } else {
        -right
    };
    let left_speed = (left_abs * (115 - 7) / 100 + 7) as u8;
    let right_speed = (right_abs * (115 - 7) / 100 + 7) as u8;
    match duration_ms {
        Some(d) => {
            let ticks = d / 10;
            if ticks > 255 {
                return Err(CommandError::InvalidDuration);
            }
            Ok(
                Motor::Timed(
                    MotorTimed {
                        motor1: MotorId::Left,
                        dir1: left_dir,
                        speed1: left_speed,
                        motor2: MotorId::Right,
                        dir2: right_dir,
                        speed2: right_speed,
                        duration: ticks as u8,
                    },
                ),
            )
        }
        None => Ok(
            Motor::Simple(
                MotorSimple {
                    motor1: MotorId::Left,
                    dir1: left_dir,
                    speed1: left_speed,
                    motor2: MotorId::Right,
                    dir2: right_dir,
                    speed2: right_speed,
                },
            ),
        ),
    }
}

/// Builds the sound message that plays a melody: one to 59 operations,
/// a repeat count below 256, and every duration below 2560 milliseconds.
/// Exactly the out-of-range inputs are rejected, the op count first, then
/// the repeat count, then the first over-long duration.
#[verifier::loop_isolation(false)]
pub fn play_command(repeat: u64, ops: &Vec<SoundOp>) -> (r: Result<Sound, CommandError>)
    ensures
        (ops@.len() == 0 || ops@.len() >= 60) <==> r == Err::<Sound, CommandError>(
            CommandError::InvalidOpCount,
        ),
        (1 <= ops@.len() < 60 && repeat > 255) <==> r == Err::<Sound, CommandError>(
            CommandError::InvalidRepeat,
        ),
        (1 <= ops@.len() < 60 && repeat <= 255 && (exists|i: int|
            0 <= i < ops@.len() && spec_op_ticks(#[trigger] ops@[i].duration_ms) > 255)) <==> r
            == Err::<Sound, CommandError>(CommandError::InvalidDuration),
        r matches Ok(m) ==> (m matches Sound::Play(p) && p.repeat == repeat && p.num == ops@.len()
            && p.ops@ =~= Seq::new(ops@.len(), |i: int| spec_sound_op(ops@[i]))),
{
    if ops.len() == 0 || ops.len() >= 60 {
        return Err(CommandError::InvalidOpCount);
    }
    if repeat > 255 {
        return Err(CommandError::InvalidRepeat);
    }
    let mut wire: Vec<crate::proto::SoundOp> = Vec::new();
    let mut i: usize = 0;
    while i < ops.len()
        invariant
            i <= ops@.len(),
            forall|j: int| 0 <= j < i ==> spec_op_ticks(#[trigger] ops@[j].duration_ms) <= 255,
            wire@ =~= Seq::new(i as nat, |j: int| spec_sound_op(ops@[j])),
        decreases ops@.len() - i,
    {
        let op = ops[i];
        let mut ticks = op.duration_ms / 10;
        if ticks < 1 {
            ticks = 1;
        }
        if ticks > 255 {
            return Err(CommandError::InvalidDuration);
        }
        wire.push(crate::proto::SoundOp { duration: ticks as u8, note: op.note, vol: 255 });
        i += 1;
    }
    let num = wire.len() as u8;
    Ok(Sound::Play(SoundPlay { repeat: repeat as u8, num, ops: wire }))
}

/// Builds the light message that runs a light program: one to 29
/// operations, a repeat count below 256, and every duration below 2560
/// milliseconds. Exactly the out-of-range inputs are rejected, in the same
/// order as for sound.
#[verifier::loop_isolation(false)]
pub fn light_command(repeat: u64, ops: &Vec<LightOp>) -> (r: Result<Light, CommandError>)
    ensures
        (ops@.len() == 0 || ops@.len() >= 30) <==> r == Err::<Light, CommandError>(
            CommandError::InvalidOpCount,
        ),
        (1 <= ops@.len() < 30 && repeat > 255) <==> r == Err::<Light, CommandError>(
            CommandError::InvalidRepeat,
        ),
        (1 <= ops@.len() < 30 && repeat <= 255 && (exists|i: int|
            0 <= i < ops@.len() && (#[trigger] ops@[i].duration_ms matches Some(ms)
                && spec_op_ticks(ms) > 255))) <==> r == Err::<Light, CommandError>(
            CommandError::InvalidDuration,
        ),
        r matches Ok(m) ==> (m matches Light::Control(p) && p.repeat == repeat && p.num
            == ops@.len() && p.ops@ =~= Seq::new(ops@.len(), |i: int| spec_light_op(ops@[i]))),
{
    if ops.len() == 0 || ops.len() >= 30 {
        return Err(CommandError::InvalidOpCount);
    }
    if repeat > 255 {
        return Err(CommandError::InvalidRepeat);
    }
    let mut wire: Vec<LightOn> = Vec::new();
    let mut i: usize = 0;
    while i < ops.len()
        invariant
            i <= ops@.len(),
            forall|j: int|
                0 <= j < i ==> !(#[trigger] ops@[j].duration_ms matches Some(ms) && spec_op_ticks(
                    ms,
                ) > 255),
            wire@ =~= Seq::new(i as nat, |j: int| spec_light_op(ops@[j])),
        decreases ops@.len() - i,
    {
        let op = ops[i];
        let ticks: u64 = match op.duration_ms {
            Some(ms) => {
                let mut t = ms / 10;
                if t < 1 {
                    t = 1;
                }
                if t > 255 {
                    return Err(CommandError::InvalidDuration);
                }
                t
            }
            None => 0,
        };
        wire.push(
            LightOn {
                duration: ticks as u8,
                num: 1,
                id: 1,
                red: op.red,
                green: op.green,
                blue: op.blue,
            },
        );
        i += 1;
    }
    let num = wire.len() as u8;
    Ok(Light::Control(LightControl { repeat: repeat as u8, num, ops: wire }))
}

/// Builds the light message that turns the light on: the duration, if any,
/// is taken in ten-millisecond units and truncated to one byte, as the
/// wire format holds no more.
pub fn light_on_command(red: u8, green: u8, blue: u8, duration_ms: Option<u64>) -> (r: Light)
    ensures
        r == Light::On(LightOn {
            duration: ((match duration_ms {
                Some(ms) => (ms / 10) % 0x100,
                None => 0,
            }) as u8),
            num: 1u8,
            id: 1u8,
            red,
            green,
            blue,
        }),
{
    let ticks: u64 = match duration_ms {
        Some(ms) => (ms / 10) % 0x100,
        None => 0,
    };
    Light::On(LightOn { duration: ticks as u8, num: 1, id: 1, red, green, blue })
}

} // verus!
