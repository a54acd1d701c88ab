//! Protocol data structures: the message variants carried by each GATT
//! characteristic of the cube, and the fixed characteristic catalog.
//!
//! Each characteristic (a `Family`) carries a closed set of message variants.
//! A variant is identified on the wire by a tag byte, followed by its payload
//! fields in declaration order: integers little-endian, enums as one backing
//! byte, and at most one trailing sequence or string that extends to the end
//! of the buffer.

use vstd::prelude::*;

use crate::ble::Uuid;

pub use crate::note::Note;

verus! {

/// The characteristic a message belongs to; the key of the message catalog.
#[derive(Debug, Clone, Copy, PartialEq, Eq, Structural)]
pub enum Family {
    /// The id reader characteristic.
    IdReader,
    /// The motor characteristic.
    Motor,
    /// The light characteristic.
    Light,
    /// The sound characteristic.
    Sound,
    /// The motion sensor characteristic.
    Motion,
    /// The button characteristic.
    Button,
    /// The battery characteristic.
    Battery,
    /// The configuration characteristic.
    Config,
}

/// The raw bytes of the cube service UUID.
pub open spec fn spec_service_uuid() -> Seq<u8> {
    seq![0x10u8, 0xb2, 0x01, 0x00, 0x5b, 0x3b, 0x45, 0x71, 0x95, 0x08, 0xcf, 0x3e, 0xfc, 0xd7, 0xbb, 0xae]
}

/// The raw bytes of the UUID of each characteristic. All characteristics
/// share the service UUID bytes except the fourth byte.
pub open spec fn spec_uuid_bytes(f: Family) -> Seq<u8> {
    spec_service_uuid().update(3, spec_uuid_key(f))
}

/// The fourth UUID byte, which alone distinguishes the characteristics.
pub open spec fn spec_uuid_key(f: Family) -> u8 {
    match f {
        Family::IdReader => 0x01,
        Family::Motor => 0x02,
        Family::Light => 0x03,
        Family::Sound => 0x04,
        Family::Motion => 0x06,
        Family::Button => 0x07,
        Family::Battery => 0x08,
        Family::Config => 0xff,
    }
}

/// The UUID of the cube service itself.
pub fn service_uuid() -> (u: Uuid)
    ensures
        u.bytes() =~= spec_service_uuid(),
{
    Uuid([0x10, 0xb2, 0x01, 0x00, 0x5b, 0x3b, 0x45, 0x71, 0x95, 0x08, 0xcf, 0x3e, 0xfc, 0xd7, 0xbb, 0xae])
}

/// The UUID of the characteristic that carries the given message family.
pub fn uuid_of(f: Family) -> (u: Uuid)
    ensures
        u.bytes() =~= spec_uuid_bytes(f),
{
    let key: u8 = match f {
        Family::IdReader => 0x01,
        Family::Motor => 0x02,
        Family::Light => 0x03,
        Family::Sound => 0x04,
        Family::Motion => 0x06,
        Family::Button => 0x07,
        Family::Battery => 0x08,
        Family::Config => 0xff,
    };
    Uuid([0x10, 0xb2, 0x01, key, 0x5b, 0x3b, 0x45, 0x71, 0x95, 0x08, 0xcf, 0x3e, 0xfc, 0xd7, 0xbb, 0xae])
}

/// The family whose characteristic UUID has the given bytes, if any.
pub open spec fn spec_family_of(b: Seq<u8>) -> Option<Family> {
    if b =~= spec_uuid_bytes(Family::IdReader) {
        Some(Family::IdReader)
    } else if b =~= spec_uuid_bytes(Family::Motor) {
        Some(Family::Motor)
    } else if b =~= spec_uuid_bytes(Family::Light) {
        Some(Family::Light)
    } else if b =~= spec_uuid_bytes(Family::Sound) {
        Some(Family::Sound)
    } else if b =~= spec_uuid_bytes(Family::Motion) {
        Some(Family::Motion)
    } else if b =~= spec_uuid_bytes(Family::Button) {
        Some(Family::Button)
    } else if b =~= spec_uuid_bytes(Family::Battery) {
        Some(Family::Battery)
    } else if b =~= spec_uuid_bytes(Family::Config) {
        Some(Family::Config)
    } else {
        None
    }
}

/// Looks a UUID up in the characteristic catalog.
pub fn family_of_uuid(u: &Uuid) -> (r: Option<Family>)
    ensures
        r == spec_family_of(u.bytes()),
{
    if u.eq_bytes(&uuid_of(Family::IdReader)) {
        Some(Family::IdReader)
    } else if u.eq_bytes(&uuid_of(Family::Motor)) {
        Some(Family::Motor)
    } else if u.eq_bytes(&uuid_of(Family::Light)) {
        Some(Family::Light)
    } else if u.eq_bytes(&uuid_of(Family::Sound)) {
        Some(Family::Sound)
    } else if u.eq_bytes(&uuid_of(Family::Motion)) {
        Some(Family::Motion)
    } else if u.eq_bytes(&uuid_of(Family::Button)) {
        Some(Family::Button)
    } else if u.eq_bytes(&uuid_of(Family::Battery)) {
        Some(Family::Battery)
    } else if u.eq_bytes(&uuid_of(Family::Config)) {
        Some(Family::Config)
    } else {
        None
    }
}

/// Position id read by the sensor.
#[derive(Debug, Clone, Copy, PartialEq, Eq, Structural)]
pub struct IdPos {
    /// The x coordinate of the cube.
    pub cube_x: u16,
    /// The y coordinate of the cube.
    pub cube_y: u16,
    /// The angle of the cube.
    pub cube_angle: u16,
    /// The x coordinate read by the sensor.
    pub sensor_x: u16,
    /// The y coordinate read by the sensor.
    pub sensor_y: u16,
    /// The angle read by the sensor.
    pub sensor_angle: u16,
}

impl IdPos {
    /// Builds a position id value.
    pub fn new(cube_x: u16, cube_y: u16, cube_angle: u16, sensor_x: u16, sensor_y: u16, sensor_angle: u16) -> (r: Self)
        ensures
            r == (IdPos { cube_x, cube_y, cube_angle, sensor_x, sensor_y, sensor_angle }),
    {
        IdPos { cube_x, cube_y, cube_angle, sensor_x, sensor_y, sensor_angle }
    }
}

/// Standard id read by the sensor.
#[derive(Debug, Clone, Copy, PartialEq, Eq, Structural)]
pub struct IdStd {
    /// The value of the standard id.
    pub value: u32,
    /// The angle of the cube.
    pub angle: u16,
}

impl IdStd {
    /// Builds a standard id value.
    pub fn new(value: u32, angle: u16) -> (r: Self)
        ensures
            r == (IdStd { value, angle }),
    {
        IdStd { value, angle }
    }
}

/// Message from the id reader.
#[derive(Debug, Clone, Copy, PartialEq, Eq, Structural)]
pub enum Id {
    /// The content of the position id.
    Pos(IdPos),
    /// The content of the standard id.
    Std(IdStd),
    /// The cube left the position id area.
    PosMissed,
    /// The cube left the standard id area.
    StdMissed,
}

/// Posture of the cube.
#[derive(Debug, Clone, Copy, PartialEq, Eq, Structural)]
pub enum Posture {
    /// The top side of the cube is up.
    HeadUp,
    /// The bottom side of the cube is up.
    BottomUp,
    /// The back side of the cube is up.
    BackUp,
    /// The front side of the cube is up.
    FrontUp,
    /// The right side of the cube is up.
    RightSideUp,
    /// The left side of the cube is up.
    LeftSideUp,
}

/// The backing byte of a posture value.
pub open spec fn posture_code(p: Posture) -> u8 {
    match p {
        Posture::HeadUp => 0x01,
        Posture::BottomUp => 0x02,
        Posture::BackUp => 0x03,
        Posture::FrontUp => 0x04,
        Posture::RightSideUp => 0x05,
        Posture::LeftSideUp => 0x06,
    }
}

/// The posture value with the given backing byte, if any.
pub open spec fn posture_from(b: u8) -> Option<Posture> {
    if b == 0x01 {
        Some(Posture::HeadUp)
    } else if b == 0x02 {
        Some(Posture::BottomUp)
    } else if b == 0x03 {
        Some(Posture::BackUp)
    } else if b == 0x04 {
        Some(Posture::FrontUp)
    } else if b == 0x05 {
        Some(Posture::RightSideUp)
    } else if b == 0x06 {
        Some(Posture::LeftSideUp)
    } else {
        None
    }
}

impl Posture {
    /// The backing byte written on the wire.
    pub fn code(&self) -> (r: u8)
        ensures
            r == posture_code(*self),
    {
        match self {
            Posture::HeadUp => 0x01,
            Posture::BottomUp => 0x02,
            Posture::BackUp => 0x03,
            Posture::FrontUp => 0x04,
            Posture::RightSideUp => 0x05,
            Posture::LeftSideUp => 0x06,
        }
    }

    /// Reads a posture value back from its backing byte.
    pub fn from_code(b: u8) -> (r: Option<Posture>)
        ensures
            r == posture_from(b),
    {
        match b {
            0x01 => Some(Posture::HeadUp),
            0x02 => Some(Posture::BottomUp),
            0x03 => Some(Posture::BackUp),
            0x04 => Some(Posture::FrontUp),
            0x05 => Some(Posture::RightSideUp),
            0x06 => Some(Posture::LeftSideUp),
            _ => None,
        }
    }
}

/// The state of the motion sensor.
#[derive(Debug, Clone, Copy, PartialEq, Eq, Structural)]
pub struct MotionDetect {
    /// Set if the cube is level to the ground.
    pub level: bool,
    /// Set if the cube collides with an object.
    pub collision: bool,
    /// Set if the cube is tapped twice.
    pub double_tap: bool,
    /// The posture of the cube.
    pub posture: Posture,
}

impl MotionDetect {
    /// Builds a motion sensor state.
    pub fn new(level: bool, collision: bool, double_tap: bool, posture: Posture) -> (r: Self)
        ensures
            r == (MotionDetect { level, collision, double_tap, posture }),
    {
        MotionDetect { level, collision, double_tap, posture }
    }
}

/// Message from the motion sensor.
#[derive(Debug, Clone, Copy, PartialEq, Eq, Structural)]
pub enum Motion {
    /// The state of the motion sensor.
    Detect(MotionDetect),
}

/// The state of the button.
#[derive(Debug, Clone, Copy, PartialEq, Eq, Structural)]
pub enum ButtonState {
    /// The button is not pressed.
    Released,
    /// The button is pressed.
    Pressed,
}

/// The backing byte of a button state.
pub open spec fn button_state_code(s: ButtonState) -> u8 {
    match s {
        ButtonState::Released => 0x00,
        ButtonState::Pressed => 0x80,
    }
}

/// The button state with the given backing byte, if any.
pub open spec fn button_state_from(b: u8) -> Option<ButtonState> {
    if b == 0x00 {
        Some(ButtonState::Released)
    } else if b == 0x80 {
        Some(ButtonState::Pressed)
    } else {
        None
    }
}

impl ButtonState {
    /// The backing byte written on the wire.
    pub fn code(&self) -> (r: u8)
        ensures
            r == button_state_code(*self),
    {
        match self {
            ButtonState::Released => 0x00,
            ButtonState::Pressed => 0x80,
        }
    }

    /// Reads a button state back from its backing byte.
    pub fn from_code(b: u8) -> (r: Option<ButtonState>)
        ensures
            r == button_state_from(b),
    {
        match b {
            0x00 => Some(ButtonState::Released),
            0x80 => Some(ButtonState::Pressed),
            _ => None,
        }
    }
}

/// Message from the button.
#[derive(Debug, Clone, Copy, PartialEq, Eq, Structural)]
pub enum Button {
    /// The state of the button.
    Func(ButtonState),
}

/// The id of the motor.
#[derive(Debug, Clone, Copy, PartialEq, Eq, Structural)]
pub enum MotorId {
    /// The left motor.
    Left,
    /// The right motor.
    Right,
}

/// The backing byte of a motor id.
pub open spec fn motor_id_code(m: MotorId) -> u8 {
    match m {
        MotorId::Left => 0x01,
        MotorId::Right => 0x02,
    }
}

/// The motor id with the given backing byte, if any.
pub open spec fn motor_id_from(b: u8) -> Option<MotorId> {
    if b == 0x01 {
        Some(MotorId::Left)
    } else if b == 0x02 {
        Some(MotorId::Right)
    } else {
        None
    }
}

impl MotorId {
    /// The backing byte written on the wire.
    pub fn code(&self) -> (r: u8)
        ensures
            r == motor_id_code(*self),
    {
        match self {
            MotorId::Left => 0x01,
            MotorId::Right => 0x02,
        }
    }

    /// Reads a motor id back from its backing byte.
    pub fn from_code(b: u8) -> (r: Option<MotorId>)
        ensures
            r == motor_id_from(b),
    {
        match b {
            0x01 => Some(MotorId::Left),
            0x02 => Some(MotorId::Right),
            _ => None,
        }
    }
}

/// The direction of the motor rotation.
#[derive(Debug, Clone, Copy, PartialEq, Eq, Structural)]
pub enum MotorDir {
    /// Rotate forward.
    Forward,
    /// Rotate backward.
    Backward,
}

/// The backing byte of a motor direction.
pub open spec fn motor_dir_code(d: MotorDir) -> u8 {
    match d {
        MotorDir::Forward => 0x01,
        MotorDir::Backward => 0x02,
    }
}

/// The motor direction with the given backing byte, if any.
pub open spec fn motor_dir_from(b: u8) -> Option<MotorDir> {
    if b == 0x01 {
        Some(MotorDir::Forward)
    } else if b == 0x02 {
        Some(MotorDir::Backward)
    } else {
        None
    }
}

impl MotorDir {
    /// The backing byte written on the wire.
    pub fn code(&self) -> (r: u8)
        ensures
            r == motor_dir_code(*self),
    {
        match self {
            MotorDir::Forward => 0x01,
            MotorDir::Backward => 0x02,
        }
    }

    /// Reads a motor direction back from its backing byte.
    pub fn from_code(b: u8) -> (r: Option<MotorDir>)
        ensures
            r == motor_dir_from(b),
    {
        match b {
            0x01 => Some(MotorDir::Forward),
            0x02 => Some(MotorDir::Backward),
            _ => None,
        }
    }
}

/// The simple request to rotate the motors.
#[derive(Debug, Clone, Copy, PartialEq, Eq, Structural)]
pub struct MotorSimple {
    /// The id of the first motor.
    pub motor1: MotorId,
    /// The rotation direction of the first motor.
    pub dir1: MotorDir,
    /// The rotation speed of the first motor.
    pub speed1: u8,
    /// The id of the second motor.
    pub motor2: MotorId,
    /// The rotation direction of the second motor.
    pub dir2: MotorDir,
    /// The rotation speed of the second motor.
    pub speed2: u8,
}

impl MotorSimple {
    /// Builds a simple motor request.
    pub fn new(motor1: MotorId, dir1: MotorDir, speed1: u8, motor2: MotorId, dir2: MotorDir, speed2: u8) -> (r: Self)
        ensures
            r == (MotorSimple { motor1, dir1, speed1, motor2, dir2, speed2 }),
    {
        MotorSimple { motor1, dir1, speed1, motor2, dir2, speed2 }
    }
}

/// The request to rotate the motors for a duration.
#[derive(Debug, Clone, Copy, PartialEq, Eq, Structural)]
pub struct MotorTimed {
    /// The id of the first motor.
    pub motor1: MotorId,
    /// The rotation direction of the first motor.
    pub dir1: MotorDir,
    /// The rotation speed of the first motor.
    pub speed1: u8,
    /// The id of the second motor.
    pub motor2: MotorId,
    /// The rotation direction of the second motor.
    pub dir2: MotorDir,
    /// The rotation speed of the second motor.
    pub speed2: u8,
    /// The duration to keep rotating, in units of ten milliseconds.
    pub duration: u8,
}

impl MotorTimed {
    /// Builds a timed motor request.
    pub fn new(motor1: MotorId, dir1: MotorDir, speed1: u8, motor2: MotorId, dir2: MotorDir, speed2: u8, duration: u8) -> (r: Self)
        ensures
            r == (MotorTimed { motor1, dir1, speed1, motor2, dir2, speed2, duration }),
    {
        MotorTimed { motor1, dir1, speed1, motor2, dir2, speed2, duration }
    }
}

/// The type of the movement.
#[derive(Debug, Clone, Copy, PartialEq, Eq, Structural)]
pub enum MoveType {
    /// The cube goes to the target position, spinning accordingly.
    Curve,
    /// The cube goes to the target position without going backward.
    ForwardOnly,
    /// The cube spins first and then goes straight to the target position.
    Straight,
}

/// The backing byte of a move type.
pub open spec fn move_type_code(m: MoveType) -> u8 {
    match m {
        MoveType::Curve => 0x00,
        MoveType::ForwardOnly => 0x01,
        MoveType::Straight => 0x02,
    }
}

/// The move type with the given backing byte, if any.
pub open spec fn move_type_from(b: u8) -> Option<MoveType> {
    if b == 0x00 {
        Some(MoveType::Curve)
    } else if b == 0x01 {
        Some(MoveType::ForwardOnly)
    } else if b == 0x02 {
        Some(MoveType::Straight)
    } else {
        None
    }
}

impl MoveType {
    /// The backing byte written on the wire.
    pub fn code(&self) -> (r: u8)
        ensures
            r == move_type_code(*self),
    {
        match self {
            MoveType::Curve => 0x00,
            MoveType::ForwardOnly => 0x01,
            MoveType::Straight => 0x02,
        }
    }

    /// Reads a move type back from its backing byte.
    pub fn from_code(b: u8) -> (r: Option<MoveType>)
        ensures
            r == move_type_from(b),
    {
        match b {
            0x00 => Some(MoveType::Curve),
            0x01 => Some(MoveType::ForwardOnly),
            0x02 => Some(MoveType::Straight),
            _ => None,
        }
    }
}

/// The change of the speed during a movement.
#[derive(Debug, Clone, Copy, PartialEq, Eq, Structural)]
pub enum SpeedChange {
    /// The speed is constant.
    Const,
    /// The speed increases.
    Acc,
    /// The speed decreases.
    Dec,
    /// The speed increases first then decreases.
    AccDec,
}

/// The backing byte of a speed change.
pub open spec fn speed_change_code(s: SpeedChange) -> u8 {
    match s {
        SpeedChange::Const => 0x00,
        SpeedChange::Acc => 0x01,
        SpeedChange::Dec => 0x02,
        SpeedChange::AccDec => 0x03,
    }
}

/// The speed change with the given backing byte, if any.
pub open spec fn speed_change_from(b: u8) -> Option<SpeedChange> {
    if b == 0x00 {
        Some(SpeedChange::Const)
    } else if b == 0x01 {
        Some(SpeedChange::Acc)
    } else if b == 0x02 {
        Some(SpeedChange::Dec)
    } else if b == 0x03 {
        Some(SpeedChange::AccDec)
    } else {
        None
    }
}

impl SpeedChange {
    /// The backing byte written on the wire.
    pub fn code(&self) -> (r: u8)
        ensures
            r == speed_change_code(*self),
    {
        match self {
            SpeedChange::Const => 0x00,
            SpeedChange::Acc => 0x01,
            SpeedChange::Dec => 0x02,
            SpeedChange::AccDec => 0x03,
        }
    }

    /// Reads a speed change back from its backing byte.
    pub fn from_code(b: u8) -> (r: Option<SpeedChange>)
        ensures
            r == speed_change_from(b),
    {
        match b {
            0x00 => Some(SpeedChange::Const),
            0x01 => Some(SpeedChange::Acc),
            0x02 => Some(SpeedChange::Dec),
            0x03 => Some(SpeedChange::AccDec),
            _ => None,
        }
    }
}

/// The request to move to the specified position.
#[derive(Debug, Clone, Copy, PartialEq, Eq, Structural)]
pub struct MotorTarget {
    /// The request id to find the corresponding response to this request.
    pub id: u8,
    /// The timeout in seconds.
    pub timeout: u8,
    /// The type of the movement.
    pub move_type: MoveType,
    /// The maximum speed.
    pub max_speed: u8,
    /// The change of the speed during movement.
    pub speed_change: SpeedChange,
    /// Unused.
    pub reserved: u8,
    /// The x coordinate of the target position.
    pub x: u16,
    /// The y coordinate of the target position.
    pub y: u16,
    /// The angle of the cube at the target position.
    pub angle: u16,
}

impl MotorTarget {
    /// Builds a target-position motor request; the unused byte is zero.
    pub fn new(id: u8, timeout: u8, move_type: MoveType, max_speed: u8, speed_change: SpeedChange, x: u16, y: u16, angle: u16) -> (r: Self)
        ensures
            r == (MotorTarget { id, timeout, move_type, max_speed, speed_change, reserved: 0u8, x, y, angle }),
    {
        MotorTarget { id, timeout, move_type, max_speed, speed_change, reserved: 0, x, y, angle }
    }
}

/// The option for additional requests.
#[derive(Debug, Clone, Copy, PartialEq, Eq, Structural)]
pub enum WriteOpt {
    /// The new request overwrites the pending request.
    Overwrite,
    /// The new request is scheduled after the pending request if condition met.
    Append,
}

/// The backing byte of a write option.
pub open spec fn write_opt_code(w: WriteOpt) -> u8 {
    match w {
        WriteOpt::Overwrite => 0x00,
        WriteOpt::Append => 0x01,
    }
}

/// The write option with the given backing byte, if any.
pub open spec fn write_opt_from(b: u8) -> Option<WriteOpt> {
    if b == 0x00 {
        Some(WriteOpt::Overwrite)
    } else if b == 0x01 {
        Some(WriteOpt::Append)
    } else {
        None
    }
}

impl WriteOpt {
    /// The backing byte written on the wire.
    pub fn code(&self) -> (r: u8)
        ensures
            r == write_opt_code(*self),
    {
        match self {
            WriteOpt::Overwrite => 0x00,
            WriteOpt::Append => 0x01,
        }
    }

    /// Reads a write option back from its backing byte.
    pub fn from_code(b: u8) -> (r: Option<WriteOpt>)
        ensures
            r == write_opt_from(b),
    {
        match b {
            0x00 => Some(WriteOpt::Overwrite),
            0x01 => Some(WriteOpt::Append),
            _ => None,
        }
    }
}

/// One target position of a multi-target request.
#[derive(Debug, Clone, Copy, PartialEq, Eq, Structural)]
pub struct Target {
    /// The x coordinate of the target position.
    pub x: u16,
    /// The y coordinate of the target position.
    pub y: u16,
    /// The angle of the cube at the target position.
    pub angle: u16,
}

impl Target {
    /// Builds a target position.
    pub fn new(x: u16, y: u16, angle: u16) -> (r: Self)
        ensures
            r == (Target { x, y, angle }),
    {
        Target { x, y, angle }
    }
}

/// The request to visit multiple target positions. The targets are the
/// trailing sequence of the payload: their count is implicit in the
/// buffer length.
#[derive(Debug, Clone, PartialEq, Eq)]
pub struct MotorMultiTarget {
    /// The request id to find the corresponding response to this request.
    pub id: u8,
    /// The timeout in seconds.
    pub timeout: u8,
    /// The type of the movement.
    pub move_type: MoveType,
    /// The maximum speed.
    pub max_speed: u8,
    /// The change of the speed during movement.
    pub speed_change: SpeedChange,
    /// Unused.
    pub reserved: u8,
    /// The option for additional requests.
    pub writeopt: WriteOpt,
    /// The list of target positions to visit.
    pub targets: Vec<Target>,
}

/// The mathematical value of a multi-target request.
#[verifier::ext_equal]
pub struct SpecMotorMultiTarget {
    /// The request id.
    pub id: u8,
    /// The timeout in seconds.
    pub timeout: u8,
    /// The type of the movement.
    pub move_type: MoveType,
    /// The maximum speed.
    pub max_speed: u8,
    /// The change of the speed during movement.
    pub speed_change: SpeedChange,
    /// Unused.
    pub reserved: u8,
    /// The option for additional requests.
    pub writeopt: WriteOpt,
    /// The target positions.
    pub targets: Seq<Target>,
}

impl View for MotorMultiTarget {
    type V = SpecMotorMultiTarget;

    open spec fn view(&self) -> SpecMotorMultiTarget {
        SpecMotorMultiTarget {
            id: self.id,
            timeout: self.timeout,
            move_type: self.move_type,
            max_speed: self.max_speed,
            speed_change: self.speed_change,
            reserved: self.reserved,
            writeopt: self.writeopt,
            targets: self.targets@,
        }
    }
}

impl MotorMultiTarget {
    /// Builds a multi-target motor request; the unused byte is zero.
    pub fn new(id: u8, timeout: u8, move_type: MoveType, max_speed: u8, speed_change: SpeedChange, writeopt: WriteOpt, targets: Vec<Target>) -> (r: Self)
        ensures
            r@ == (SpecMotorMultiTarget { id, timeout, move_type, max_speed, speed_change, reserved: 0u8, writeopt, targets: targets@ }),
    {
        MotorMultiTarget { id, timeout, move_type, max_speed, speed_change, reserved: 0, writeopt, targets }
    }
}

/// The direction of the cube rotation/translation.
#[derive(Debug, Clone, Copy, PartialEq, Eq, Structural)]
pub enum MotorCubeDir {
    /// Forward.
    Forward,
    /// Backward.
    Backward,
}

/// The backing byte of a cube direction.
pub open spec fn motor_cube_dir_code(d: MotorCubeDir) -> u8 {
    match d {
        MotorCubeDir::Forward => 0x00,
        MotorCubeDir::Backward => 0x01,
    }
}

/// The cube direction with the given backing byte, if any.
pub open spec fn motor_cube_dir_from(b: u8) -> Option<MotorCubeDir> {
    if b == 0x00 {
        Some(MotorCubeDir::Forward)
    } else if b == 0x01 {
        Some(MotorCubeDir::Backward)
    } else {
        None
    }
}

impl MotorCubeDir {
    /// The backing byte written on the wire.
    pub fn code(&self) -> (r: u8)
        ensures
            r == motor_cube_dir_code(*self),
    {
        match self {
            MotorCubeDir::Forward => 0x00,
            MotorCubeDir::Backward => 0x01,
        }
    }

    /// Reads a cube direction back from its backing byte.
    pub fn from_code(b: u8) -> (r: Option<MotorCubeDir>)
        ensures
            r == motor_cube_dir_from(b),
    {
        match b {
            0x00 => Some(MotorCubeDir::Forward),
            0x01 => Some(MotorCubeDir::Backward),
            _ => None,
        }
    }
}

/// The priority of translation/rotation speed.
#[derive(Debug, Clone, Copy, PartialEq, Eq, Structural)]
pub enum MotorPriority {
    /// The translation speed is prioritized.
    Translation,
    /// The rotation speed is prioritized.
    Rotation,
}

/// The backing byte of a motor priority.
pub open spec fn motor_priority_code(p: MotorPriority) -> u8 {
    match p {
        MotorPriority::Translation => 0x00,
        MotorPriority::Rotation => 0x01,
    }
}

/// The motor priority with the given backing byte, if any.
pub open spec fn motor_priority_from(b: u8) -> Option<MotorPriority> {
    if b == 0x00 {
        Some(MotorPriority::Translation)
    } else if b == 0x01 {
        Some(MotorPriority::Rotation)
    } else {
        None
    }
}

impl MotorPriority {
    /// The backing byte written on the wire.
    pub fn code(&self) -> (r: u8)
        ensures
            r == motor_priority_code(*self),
    {
        match self {
            MotorPriority::Translation => 0x00,
            MotorPriority::Rotation => 0x01,
        }
    }

    /// Reads a motor priority back from its backing byte.
    pub fn from_code(b: u8) -> (r: Option<MotorPriority>)
        ensures
            r == motor_priority_from(b),
    {
        match b {
            0x00 => Some(MotorPriority::Translation),
            0x01 => Some(MotorPriority::Rotation),
            _ => None,
        }
    }
}

/// The request to move the cube with acceleration.
#[derive(Debug, Clone, Copy, PartialEq, Eq, Structural)]
pub struct MotorAcc {
    /// The request id to find the corresponding response to this request.
    pub id: u8,
    /// The speed of the cube.
    pub speed: u8,
    /// The acceleration of the cube.
    pub acc: u8,
    /// The rotation speed of the cube.
    pub rotate_speed: u16,
    /// The rotation direction of the cube.
    pub rotate_dir: MotorCubeDir,
    /// The translation direction of the cube.
    pub trans_dir: MotorCubeDir,
    /// The priority of translation/rotation speed.
    pub prio: MotorPriority,
    /// The duration to keep moving the cube in seconds.
    pub duration: u8,
}

impl MotorAcc {
    /// Builds an acceleration motor request.
    pub fn new(id: u8, speed: u8, acc: u8, rotate_speed: u16, rotate_dir: MotorCubeDir, trans_dir: MotorCubeDir, prio: MotorPriority, duration: u8) -> (r: Self)
        ensures
            r == (MotorAcc { id, speed, acc, rotate_speed, rotate_dir, trans_dir, prio, duration }),
    {
        MotorAcc { id, speed, acc, rotate_speed, rotate_dir, trans_dir, prio, duration }
    }
}

/// The result value of a request with target.
#[derive(Debug, Clone, Copy, PartialEq, Eq, Structural)]
pub enum TargetResValue {
    /// Succeeded.
    Success,
    /// The request timed out.
    Timeout,
    /// The cube is out of the area of position id.
    IdMissed,
    /// The given parameters were invalid.
    InvalidParam,
    /// The state of the cube went invalid.
    InvalidState,
    /// The new request was written.
    OtherWrite,
    /// The request was not supported.
    Unsupported,
    /// The number of the pending requests exceeds the capacity.
    Full,
}

/// The backing byte of a target result value.
pub open spec fn target_res_code(v: TargetResValue) -> u8 {
    match v {
        TargetResValue::Success => 0x00,
        TargetResValue::Timeout => 0x01,
        TargetResValue::IdMissed => 0x02,
        TargetResValue::InvalidParam => 0x03,
        TargetResValue::InvalidState => 0x04,
        TargetResValue::OtherWrite => 0x05,
        TargetResValue::Unsupported => 0x06,
        TargetResValue::Full => 0x07,
    }
}

/// The target result value with the given backing byte, if any.
pub open spec fn target_res_from(b: u8) -> Option<TargetResValue> {
    if b == 0x00 {
        Some(TargetResValue::Success)
    } else if b == 0x01 {
        Some(TargetResValue::Timeout)
    } else if b == 0x02 {
        Some(TargetResValue::IdMissed)
    } else if b == 0x03 {
        Some(TargetResValue::InvalidParam)
    } else if b == 0x04 {
        Some(TargetResValue::InvalidState)
    } else if b == 0x05 {
        Some(TargetResValue::OtherWrite)
    } else if b == 0x06 {
        Some(TargetResValue::Unsupported)
    } else if b == 0x07 {
        Some(TargetResValue::Full)
    } else {
        None
    }
}

impl TargetResValue {
    /// The backing byte written on the wire.
    pub fn code(&self) -> (r: u8)
        ensures
            r == target_res_code(*self),
    {
        match self {
            TargetResValue::Success => 0x00,
            TargetResValue::Timeout => 0x01,
            TargetResValue::IdMissed => 0x02,
            TargetResValue::InvalidParam => 0x03,
            TargetResValue::InvalidState => 0x04,
            TargetResValue::OtherWrite => 0x05,
            TargetResValue::Unsupported => 0x06,
            TargetResValue::Full => 0x07,
        }
    }

    /// Reads a target result value back from its backing byte.
    pub fn from_code(b: u8) -> (r: Option<TargetResValue>)
        ensures
            r == target_res_from(b),
    {
        match b {
            0x00 => Some(TargetResValue::Success),
            0x01 => Some(TargetResValue::Timeout),
            0x02 => Some(TargetResValue::IdMissed),
            0x03 => Some(TargetResValue::InvalidParam),
            0x04 => Some(TargetResValue::InvalidState),
            0x05 => Some(TargetResValue::OtherWrite),
            0x06 => Some(TargetResValue::Unsupported),
            0x07 => Some(TargetResValue::Full),
            _ => None,
        }
    }
}

/// The response to a request with target position.
#[derive(Debug, Clone, Copy, PartialEq, Eq, Structural)]
pub struct MotorTargetRes {
    /// The request id.
    pub id: u8,
    /// The result value of the request.
    pub res: TargetResValue,
}

impl MotorTargetRes {
    /// Builds a target response value.
    pub fn new(id: u8, res: TargetResValue) -> (r: Self)
        ensures
            r == (MotorTargetRes { id, res }),
    {
        MotorTargetRes { id, res }
    }
}

/// Message from/to the motor.
#[derive(Debug, Clone, PartialEq, Eq)]
pub enum Motor {
    /// Simple request.
    Simple(MotorSimple),
    /// Request with duration.
    Timed(MotorTimed),
    /// Request with target position.
    Target(MotorTarget),
    /// Request with multiple target positions.
    MultiTarget(MotorMultiTarget),
    /// Request with acceleration.
    Acc(MotorAcc),
    /// Response to the request with target.
    TargetRes(MotorTargetRes),
    /// Response to the request with multiple targets.
    MultiTargetRes(MotorTargetRes),
}

/// The mathematical value of a motor message.
#[verifier::ext_equal]
pub enum SpecMotor {
    /// Simple request.
    Simple(MotorSimple),
    /// Request with duration.
    Timed(MotorTimed),
    /// Request with target position.
    Target(MotorTarget),
    /// Request with multiple target positions.
    MultiTarget(SpecMotorMultiTarget),
    /// Request with acceleration.
    Acc(MotorAcc),
    /// Response to the request with target.
    TargetRes(MotorTargetRes),
    /// Response to the request with multiple targets.
    MultiTargetRes(MotorTargetRes),
}

impl View for Motor {
    type V = SpecMotor;

    open spec fn view(&self) -> SpecMotor {
        match self {
            Motor::Simple(v) => SpecMotor::Simple(*v),
            Motor::Timed(v) => SpecMotor::Timed(*v),
            Motor::Target(v) => SpecMotor::Target(*v),
            Motor::MultiTarget(v) => SpecMotor::MultiTarget(v@),
            Motor::Acc(v) => SpecMotor::Acc(*v),
            Motor::TargetRes(v) => SpecMotor::TargetRes(*v),
            Motor::MultiTargetRes(v) => SpecMotor::MultiTargetRes(*v),
        }
    }
}

/// Turns off the specified light.
#[derive(Debug, Clone, Copy, PartialEq, Eq, Structural)]
pub struct LightOff {
    /// The number of lights to turn off.
    pub num: u8,
    /// The id of the light to turn off.
    pub id: u8,
}

impl LightOff {
    /// Builds a light-off request for the single built-in light.
    pub fn new() -> (r: Self)
        ensures
            r == (LightOff { num: 1u8, id: 1u8 }),
    {
        LightOff { num: 1, id: 1 }
    }
}

/// Turns on the specified light.
#[derive(Debug, Clone, Copy, PartialEq, Eq, Structural)]
pub struct LightOn {
    /// The duration for the light to be on, in units of ten milliseconds.
    pub duration: u8,
    /// The number of the lights to turn on.
    pub num: u8,
    /// The id of the light to turn on.
    pub id: u8,
    /// The level of the red light.
    pub red: u8,
    /// The level of the green light.
    pub green: u8,
    /// The level of the blue light.
    pub blue: u8,
}

impl LightOn {
    /// Builds a light-on request for the single built-in light.
    pub fn new(duration: u8, red: u8, green: u8, blue: u8) -> (r: Self)
        ensures
            r == (LightOn { duration, num: 1u8, id: 1u8, red, green, blue }),
    {
        LightOn { duration, num: 1, id: 1, red, green, blue }
    }
}

/// Controls lights in accordance with a list of operations. The operations
/// are the trailing sequence of the payload: their count on the wire is
/// implicit in the buffer length.
#[derive(Debug, Clone, PartialEq, Eq)]
pub struct LightControl {
    /// The repeat count.
    pub repeat: u8,
    /// The number of operations.
    pub num: u8,
    /// The list of operations for lights.
    pub ops: Vec<LightOn>,
}

/// The mathematical value of a light-control message.
#[verifier::ext_equal]
pub struct SpecLightControl {
    /// The repeat count.
    pub repeat: u8,
    /// The number of operations.
    pub num: u8,
    /// The operations for lights.
    pub ops: Seq<LightOn>,
}

impl View for LightControl {
    type V = SpecLightControl;

    open spec fn view(&self) -> SpecLightControl {
        SpecLightControl { repeat: self.repeat, num: self.num, ops: self.ops@ }
    }
}

impl LightControl {
    /// Builds a light-control request.
    pub fn new(repeat: u8, num: u8, ops: Vec<LightOn>) -> (r: Self)
        ensures
            r@ == (SpecLightControl { repeat, num, ops: ops@ }),
    {
        LightControl { repeat, num, ops }
    }
}

/// Message to the lights.
#[derive(Debug, Clone, PartialEq, Eq)]
pub enum Light {
    /// Turns off all the lights.
    AllOff,
    /// Turns off a light.
    Off(LightOff),
    /// Turns on a light.
    On(LightOn),
    /// Controls lights with a list of operations.
    Control(LightControl),
}

/// The mathematical value of a light message.
#[verifier::ext_equal]
pub enum SpecLight {
    /// Turns off all the lights.
    AllOff,
    /// Turns off a light.
    Off(LightOff),
    /// Turns on a light.
    On(LightOn),
    /// Controls lights with a list of operations.
    Control(SpecLightControl),
}

impl View for Light {
    type V = SpecLight;

    open spec fn view(&self) -> SpecLight {
        match self {
            Light::AllOff => SpecLight::AllOff,
            Light::Off(v) => SpecLight::Off(*v),
            Light::On(v) => SpecLight::On(*v),
            Light::Control(v) => SpecLight::Control(v@),
        }
    }
}

/// The id of a preset sound.
#[derive(Debug, Clone, Copy, PartialEq, Eq, Structural)]
pub enum SoundPresetId {
    /// Enter.
    Enter,
    /// Selected.
    Selected,
    /// Cancel.
    Cancel,
    /// Cursor.
    Cursor,
    /// Mat in.
    MatIn,
    /// Mat out.
    MatOut,
    /// Get 1.
    Get1,
    /// Get 2.
    Get2,
    /// Get 3.
    Get3,
    /// Effect 1.
    Effect1,
    /// Effect 2.
    Effect2,
}

/// The backing byte of a preset sound id.
pub open spec fn sound_preset_code(s: SoundPresetId) -> u8 {
    match s {
        SoundPresetId::Enter => 0,
        SoundPresetId::Selected => 1,
        SoundPresetId::Cancel => 2,
        SoundPresetId::Cursor => 3,
        SoundPresetId::MatIn => 4,
        SoundPresetId::MatOut => 5,
        SoundPresetId::Get1 => 6,
        SoundPresetId::Get2 => 7,
        SoundPresetId::Get3 => 8,
        SoundPresetId::Effect1 => 9,
        SoundPresetId::Effect2 => 10,
    }
}

/// The preset sound id with the given backing byte, if any.
pub open spec fn sound_preset_from(b: u8) -> Option<SoundPresetId> {
    if b == 0 {
        Some(SoundPresetId::Enter)
    } else if b == 1 {
        Some(SoundPresetId::Selected)
    } else if b == 2 {
        Some(SoundPresetId::Cancel)
    } else if b == 3 {
        Some(SoundPresetId::Cursor)
    } else if b == 4 {
        Some(SoundPresetId::MatIn)
    } else if b == 5 {
        Some(SoundPresetId::MatOut)
    } else if b == 6 {
        Some(SoundPresetId::Get1)
    } else if b == 7 {
        Some(SoundPresetId::Get2)
    } else if b == 8 {
        Some(SoundPresetId::Get3)
    } else if b == 9 {
        Some(SoundPresetId::Effect1)
    } else if b == 10 {
        Some(SoundPresetId::Effect2)
    } else {
        None
    }
}

impl SoundPresetId {
    /// The backing byte written on the wire.
    pub fn code(&self) -> (r: u8)
        ensures
            r == sound_preset_code(*self),
    {
        match self {
            SoundPresetId::Enter => 0,
            SoundPresetId::Selected => 1,
            SoundPresetId::Cancel => 2,
            SoundPresetId::Cursor => 3,
            SoundPresetId::MatIn => 4,
            SoundPresetId::MatOut => 5,
            SoundPresetId::Get1 => 6,
            SoundPresetId::Get2 => 7,
            SoundPresetId::Get3 => 8,
            SoundPresetId::Effect1 => 9,
            SoundPresetId::Effect2 => 10,
        }
    }

    /// Reads a preset sound id back from its backing byte.
    pub fn from_code(b: u8) -> (r: Option<SoundPresetId>)
        ensures
            r == sound_preset_from(b),
    {
        match b {
            0 => Some(SoundPresetId::Enter),
            1 => Some(SoundPresetId::Selected),
            2 => Some(SoundPresetId::Cancel),
            3 => Some(SoundPresetId::Cursor),
            4 => Some(SoundPresetId::MatIn),
            5 => Some(SoundPresetId::MatOut),
            6 => Some(SoundPresetId::Get1),
            7 => Some(SoundPresetId::Get2),
            8 => Some(SoundPresetId::Get3),
            9 => Some(SoundPresetId::Effect1),
            10 => Some(SoundPresetId::Effect2),
            _ => None,
        }
    }
}

/// Plays a preset sound.
#[derive(Debug, Clone, Copy, PartialEq, Eq, Structural)]
pub struct SoundPreset {
    /// The id of the preset sound to play.
    pub id: SoundPresetId,
    /// The sound volume.
    pub vol: u8,
}

impl SoundPreset {
    /// Builds a preset sound request.
    pub fn new(id: SoundPresetId, vol: u8) -> (r: Self)
        ensures
            r == (SoundPreset { id, vol }),
    {
        SoundPreset { id, vol }
    }
}

/// Plays a sound with the specified note.
#[derive(Debug, Clone, Copy, PartialEq, Eq, Structural)]
pub struct SoundOp {
    /// The duration to play the sound, in units of ten milliseconds.
    pub duration: u8,
    /// The sound note.
    pub note: Note,
    /// The sound volume.
    pub vol: u8,
}

impl SoundOp {
    /// Builds one sound operation.
    pub fn new(duration: u8, note: Note, vol: u8) -> (r: Self)
        ensures
            r == (SoundOp { duration, note, vol }),
    {
        SoundOp { duration, note, vol }
    }
}

/// Plays sound in accordance with a list of operations. The operations are
/// the trailing sequence of the payload: their count on the wire is implicit
/// in the buffer length.
#[derive(Debug, Clone, PartialEq, Eq)]
pub struct SoundPlay {
    /// The repeat count.
    pub repeat: u8,
    /// The number of operations.
    pub num: u8,
    /// The list of operations to play sounds.
    pub ops: Vec<SoundOp>,
}

/// The mathematical value of a sound-play message.
#[verifier::ext_equal]
pub struct SpecSoundPlay {
    /// The repeat count.
    pub repeat: u8,
    /// The number of operations.
    pub num: u8,
    /// The operations to play sounds.
    pub ops: Seq<SoundOp>,
}

impl View for SoundPlay {
    type V = SpecSoundPlay;

    open spec fn view(&self) -> SpecSoundPlay {
        SpecSoundPlay { repeat: self.repeat, num: self.num, ops: self.ops@ }
    }
}

impl SoundPlay {
    /// Builds a sound-play request.
    pub fn new(repeat: u8, num: u8, ops: Vec<SoundOp>) -> (r: Self)
        ensures
            r@ == (SpecSoundPlay { repeat, num, ops: ops@ }),
    {
        SoundPlay { repeat, num, ops }
    }
}

/// Message to the sound device.
#[derive(Debug, Clone, PartialEq, Eq)]
pub enum Sound {
    /// Stops playing.
    Stop,
    /// Plays the preset sound.
    Preset(SoundPreset),
    /// Plays the sound with a list of operations.
    Play(SoundPlay),
}

/// The mathematical value of a sound message.
#[verifier::ext_equal]
pub enum SpecSound {
    /// Stops playing.
    Stop,
    /// Plays the preset sound.
    Preset(SoundPreset),
    /// Plays the sound with a list of operations.
    Play(SpecSoundPlay),
}

impl View for Sound {
    type V = SpecSound;

    open spec fn view(&self) -> SpecSound {
        match self {
            Sound::Stop => SpecSound::Stop,
            Sound::Preset(v) => SpecSound::Preset(*v),
            Sound::Play(v) => SpecSound::Play(v@),
        }
    }
}

/// Requests the protocol version.
#[derive(Debug, Clone, Copy, PartialEq, Eq, Structural)]
pub struct ConfigVersion {
    /// Unused.
    pub reserve: u8,
}

impl ConfigVersion {
    /// Builds a version request; the unused byte is zero.
    pub fn new() -> (r: Self)
        ensures
            r == (ConfigVersion { reserve: 0u8 }),
    {
        ConfigVersion { reserve: 0 }
    }
}

/// Changes the settings of level detection.
#[derive(Debug, Clone, Copy, PartialEq, Eq, Structural)]
pub struct ConfigLevel {
    /// Unused.
    pub reserved: u8,
    /// The threshold for level detection.
    pub threshold: u8,
}

impl ConfigLevel {
    /// Builds a level-detection setting; the unused byte is zero.
    pub fn new(threshold: u8) -> (r: Self)
        ensures
            r == (ConfigLevel { reserved: 0u8, threshold }),
    {
        ConfigLevel { reserved: 0, threshold }
    }
}

/// Changes the settings of collision detection.
#[derive(Debug, Clone, Copy, PartialEq, Eq, Structural)]
pub struct ConfigCollision {
    /// Unused.
    pub reserved: u8,
    /// The threshold for collision detection.
    pub threshold: u8,
}

impl ConfigCollision {
    /// Builds a collision-detection setting; the unused byte is zero.
    pub fn new(threshold: u8) -> (r: Self)
        ensures
            r == (ConfigCollision { reserved: 0u8, threshold }),
    {
        ConfigCollision { reserved: 0, threshold }
    }
}

/// Changes the settings of double-tap detection.
#[derive(Debug, Clone, Copy, PartialEq, Eq, Structural)]
pub struct ConfigDoubleTap {
    /// Unused.
    pub reserved: u8,
    /// The interval for double-tap detection.
    pub interval: u8,
}

impl ConfigDoubleTap {
    /// Builds a double-tap setting; the unused byte is zero.
    pub fn new(interval: u8) -> (r: Self)
        ensures
            r == (ConfigDoubleTap { reserved: 0u8, interval }),
    {
        ConfigDoubleTap { reserved: 0, interval }
    }
}

/// The protocol version information. The version text is the trailing
/// string of the payload: it extends to the end of the buffer.
#[derive(Debug, Clone, PartialEq, Eq)]
pub struct ConfigVersionRes {
    /// Unused.
    pub reserved: u8,
    /// The protocol version.
    pub version: String,
}

/// The mathematical value of a version response.
#[verifier::ext_equal]
pub struct SpecConfigVersionRes {
    /// Unused.
    pub reserved: u8,
    /// The protocol version text.
    pub version: Seq<char>,
}

impl View for ConfigVersionRes {
    type V = SpecConfigVersionRes;

    open spec fn view(&self) -> SpecConfigVersionRes {
        SpecConfigVersionRes { reserved: self.reserved, version: self.version@ }
    }
}

impl ConfigVersionRes {
    /// Builds a version response; the unused byte is zero.
    pub fn new(version: String) -> (r: Self)
        ensures
            r@ == (SpecConfigVersionRes { reserved: 0u8, version: version@ }),
    {
        ConfigVersionRes { reserved: 0, version }
    }
}

/// Message from/to the configuration characteristic.
#[derive(Debug, Clone, PartialEq, Eq)]
pub enum Config {
    /// Requests the protocol version.
    Version(ConfigVersion),
    /// Changes the settings of level detection.
    Level(ConfigLevel),
    /// Changes the settings of collision detection.
    Collision(ConfigCollision),
    /// Changes the settings of double-tap detection.
    DoubleTap(ConfigDoubleTap),
    /// The protocol version information.
    VersionRes(ConfigVersionRes),
}

/// The mathematical value of a configuration message.
#[verifier::ext_equal]
pub enum SpecConfig {
    /// Requests the protocol version.
    Version(ConfigVersion),
    /// Changes the settings of level detection.
    Level(ConfigLevel),
    /// Changes the settings of collision detection.
    Collision(ConfigCollision),
    /// Changes the settings of double-tap detection.
    DoubleTap(ConfigDoubleTap),
    /// The protocol version information.
    VersionRes(SpecConfigVersionRes),
}

impl View for Config {
    type V = SpecConfig;

    open spec fn view(&self) -> SpecConfig {
        match self {
            Config::Version(v) => SpecConfig::Version(*v),
            Config::Level(v) => SpecConfig::Level(*v),
            Config::Collision(v) => SpecConfig::Collision(*v),
            Config::DoubleTap(v) => SpecConfig::DoubleTap(*v),
            Config::VersionRes(v) => SpecConfig::VersionRes(v@),
        }
    }
}

/// Message read from or written to a characteristic.
#[derive(Debug, Clone, PartialEq, Eq)]
pub enum Message {
    /// Message for the id reader.
    Id(Id),
    /// Message for the motion sensor.
    Motion(Motion),
    /// Message for the button.
    Button(Button),
    /// Message for the battery: the remaining level as a raw byte.
    Battery(u8),
    /// Message for the motor.
    Motor(Motor),
    /// Message for the lights.
    Light(Light),
    /// Message for the sound device.
    Sound(Sound),
    /// Message for the configuration.
    Config(Config),
}

/// The mathematical value of a message.
#[verifier::ext_equal]
pub enum SpecMessage {
    /// Message for the id reader.
    Id(Id),
    /// Message for the motion sensor.
    Motion(Motion),
    /// Message for the button.
    Button(Button),
    /// Message for the battery.
    Battery(u8),
    /// Message for the motor.
    Motor(SpecMotor),
    /// Message for the lights.
    Light(SpecLight),
    /// Message for the sound device.
    Sound(SpecSound),
    /// Message for the configuration.
    Config(SpecConfig),
}

impl View for Message {
    type V = SpecMessage;

    open spec fn view(&self) -> SpecMessage {
        match self {
            Message::Id(v) => SpecMessage::Id(*v),
            Message::Motion(v) => SpecMessage::Motion(*v),
            Message::Button(v) => SpecMessage::Button(*v),
            Message::Battery(v) => SpecMessage::Battery(*v),
            Message::Motor(v) => SpecMessage::Motor(v@),
            Message::Light(v) => SpecMessage::Light(v@),
            Message::Sound(v) => SpecMessage::Sound(v@),
            Message::Config(v) => SpecMessage::Config(v@),
        }
    }
}

/// The family whose characteristic carries the given message.
pub open spec fn spec_family(m: SpecMessage) -> Family {
    match m {
        SpecMessage::Id(_) => Family::IdReader,
        SpecMessage::Motion(_) => Family::Motion,
        SpecMessage::Button(_) => Family::Button,
        SpecMessage::Battery(_) => Family::Battery,
        SpecMessage::Motor(_) => Family::Motor,
        SpecMessage::Light(_) => Family::Light,
        SpecMessage::Sound(_) => Family::Sound,
        SpecMessage::Config(_) => Family::Config,
    }
}

impl Message {
    /// The family whose characteristic carries this message.
    pub fn family(&self) -> (f: Family)
        ensures
            f == spec_family(self@),
    {
        match self {
            Message::Id(_) => Family::IdReader,
            Message::Motion(_) => Family::Motion,
            Message::Button(_) => Family::Button,
            Message::Battery(_) => Family::Battery,
            Message::Motor(_) => Family::Motor,
            Message::Light(_) => Family::Light,
            Message::Sound(_) => Family::Sound,
            Message::Config(_) => Family::Config,
        }
    }
}

} // verus!
