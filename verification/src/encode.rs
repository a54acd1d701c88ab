//! Packing messages into wire bytes.
//!
//! The wire format of every message is given by the `spec_enc_*` functions:
//! one tag byte selecting the variant (the battery level alone is tagless),
//! then the payload fields in declaration order, integers little-endian,
//! enums as their backing byte, and a trailing sequence or string written
//! element by element with no length prefix and no terminator.

use vstd::prelude::*;

use crate::ble::Uuid;
use crate::note::note_code;
use crate::proto::Button;
use crate::proto::Id;
use crate::proto::IdPos;
use crate::proto::IdStd;
use crate::proto::LightOff;
use crate::proto::LightOn;
use crate::proto::Message;
use crate::proto::Motion;
use crate::proto::MotionDetect;
use crate::proto::MotorAcc;
use crate::proto::MotorSimple;
use crate::proto::MotorTarget;
use crate::proto::MotorTargetRes;
use crate::proto::MotorTimed;
use crate::proto::SoundOp;
use crate::proto::SoundPreset;
use crate::proto::SpecConfig;
use crate::proto::SpecConfigVersionRes;
use crate::proto::SpecLight;
use crate::proto::SpecLightControl;
use crate::proto::SpecMessage;
use crate::proto::SpecMotor;
use crate::proto::SpecMotorMultiTarget;
use crate::proto::SpecSound;
use crate::proto::SpecSoundPlay;
use crate::proto::Target;
use crate::proto::button_state_code;
use crate::proto::motor_cube_dir_code;
use crate::proto::motor_dir_code;
use crate::proto::motor_id_code;
use crate::proto::motor_priority_code;
use crate::proto::move_type_code;
use crate::proto::posture_code;
use crate::proto::sound_preset_code;
use crate::proto::spec_family;
use crate::proto::spec_uuid_bytes;
use crate::proto::speed_change_code;
use crate::proto::target_res_code;
use crate::proto::uuid_of;
use crate::proto::write_opt_code;
use vstd::utf8::encode_utf8;

verus! {

/// A 16-bit integer as two little-endian bytes.
pub open spec fn spec_u16_le(x: u16) -> Seq<u8> {
    seq![(x % 0x100) as u8, (x / 0x100) as u8]
}

/// A 32-bit integer as four little-endian bytes.
pub open spec fn spec_u32_le(x: u32) -> Seq<u8> {
    seq![
        (x % 0x100) as u8,
        ((x / 0x100) % 0x100) as u8,
        ((x / 0x10000) % 0x100) as u8,
        (x / 0x1000000) as u8,
    ]
}

/// A boolean as one byte, one for true.
pub open spec fn spec_bool_byte(v: bool) -> u8 {
    if v {
        1
    } else {
        0
    }
}

/// The payload bytes of a position id.
pub open spec fn spec_enc_id_pos(p: IdPos) -> Seq<u8> {
    spec_u16_le(p.cube_x) + spec_u16_le(p.cube_y) + spec_u16_le(p.cube_angle)
        + spec_u16_le(p.sensor_x) + spec_u16_le(p.sensor_y) + spec_u16_le(p.sensor_angle)
}

/// The payload bytes of a standard id.
pub open spec fn spec_enc_id_std(s: IdStd) -> Seq<u8> {
    spec_u32_le(s.value) + spec_u16_le(s.angle)
}

/// The wire bytes of an id reader message.
pub open spec fn spec_enc_id(m: Id) -> Seq<u8> {
    match m {
        Id::Pos(p) => seq![0x01u8] + spec_enc_id_pos(p),
        Id::Std(s) => seq![0x02u8] + spec_enc_id_std(s),
        Id::PosMissed => seq![0x03u8],
        Id::StdMissed => seq![0x04u8],
    }
}

/// The payload bytes of a motion sensor state.
pub open spec fn spec_enc_motion_detect(m: MotionDetect) -> Seq<u8> {
    seq![
        spec_bool_byte(m.level),
        spec_bool_byte(m.collision),
        spec_bool_byte(m.double_tap),
        posture_code(m.posture),
    ]
}

/// The wire bytes of a motion sensor message.
pub open spec fn spec_enc_motion(m: Motion) -> Seq<u8> {
    match m {
        Motion::Detect(d) => seq![0x01u8] + spec_enc_motion_detect(d),
    }
}

/// The wire bytes of a button message.
pub open spec fn spec_enc_button(m: Button) -> Seq<u8> {
    match m {
        Button::Func(s) => seq![0x01u8, button_state_code(s)],
    }
}

/// The payload bytes of a simple motor request.
pub open spec fn spec_enc_motor_simple(m: MotorSimple) -> Seq<u8> {
    seq![
        motor_id_code(m.motor1),
        motor_dir_code(m.dir1),
        m.speed1,
        motor_id_code(m.motor2),
        motor_dir_code(m.dir2),
        m.speed2,
    ]
}

/// The payload bytes of a timed motor request.
pub open spec fn spec_enc_motor_timed(m: MotorTimed) -> Seq<u8> {
    seq![
        motor_id_code(m.motor1),
        motor_dir_code(m.dir1),
        m.speed1,
        motor_id_code(m.motor2),
        motor_dir_code(m.dir2),
        m.speed2,
        m.duration,
    ]
}

/// The payload bytes of a target-position motor request.
pub open spec fn spec_enc_motor_target(m: MotorTarget) -> Seq<u8> {
    seq![
        m.id,
        m.timeout,
        move_type_code(m.move_type),
        m.max_speed,
        speed_change_code(m.speed_change),
        m.reserved,
    ] + spec_u16_le(m.x) + spec_u16_le(m.y) + spec_u16_le(m.angle)
}

/// The payload bytes of one target position.
pub open spec fn spec_enc_target(t: Target) -> Seq<u8> {
    spec_u16_le(t.x) + spec_u16_le(t.y) + spec_u16_le(t.angle)
}

/// The bytes of a sequence of target positions, one element after the other.
pub open spec fn spec_enc_targets(ts: Seq<Target>) -> Seq<u8>
    decreases ts.len(),
{
    if ts.len() == 0 {
        Seq::empty()
    } else {
        spec_enc_target(ts[0]) + spec_enc_targets(ts.drop_first())
    }
}

/// The payload bytes of a multi-target motor request.
pub open spec fn spec_enc_motor_multi(m: SpecMotorMultiTarget) -> Seq<u8> {
    seq![
        m.id,
        m.timeout,
        move_type_code(m.move_type),
        m.max_speed,
        speed_change_code(m.speed_change),
        m.reserved,
        write_opt_code(m.writeopt),
    ] + spec_enc_targets(m.targets)
}

/// The payload bytes of an acceleration motor request.
pub open spec fn spec_enc_motor_acc(m: MotorAcc) -> Seq<u8> {
    seq![m.id, m.speed, m.acc] + spec_u16_le(m.rotate_speed) + seq![
        motor_cube_dir_code(m.rotate_dir),
        motor_cube_dir_code(m.trans_dir),
        motor_priority_code(m.prio),
        m.duration,
    ]
}

/// The payload bytes of a target response.
pub open spec fn spec_enc_motor_target_res(m: MotorTargetRes) -> Seq<u8> {
    seq![m.id, target_res_code(m.res)]
}

/// The wire bytes of a motor message.
pub open spec fn spec_enc_motor(m: SpecMotor) -> Seq<u8> {
    match m {
        SpecMotor::Simple(v) => seq![0x01u8] + spec_enc_motor_simple(v),
        SpecMotor::Timed(v) => seq![0x02u8] + spec_enc_motor_timed(v),
        SpecMotor::Target(v) => seq![0x03u8] + spec_enc_motor_target(v),
        SpecMotor::MultiTarget(v) => seq![0x04u8] + spec_enc_motor_multi(v),
        SpecMotor::Acc(v) => seq![0x05u8] + spec_enc_motor_acc(v),
        SpecMotor::TargetRes(v) => seq![0x83u8] + spec_enc_motor_target_res(v),
        SpecMotor::MultiTargetRes(v) => seq![0x84u8] + spec_enc_motor_target_res(v),
    }
}

/// The payload bytes of a light-off request.
pub open spec fn spec_enc_light_off(m: LightOff) -> Seq<u8> {
    seq![m.num, m.id]
}

/// The payload bytes of a light-on request.
pub open spec fn spec_enc_light_on(m: LightOn) -> Seq<u8> {
    seq![m.duration, m.num, m.id, m.red, m.green, m.blue]
}

/// The bytes of a sequence of light operations, one element after the other.
pub open spec fn spec_enc_light_ops(ops: Seq<LightOn>) -> Seq<u8>
    decreases ops.len(),
{
    if ops.len() == 0 {
        Seq::empty()
    } else {
        spec_enc_light_on(ops[0]) + spec_enc_light_ops(ops.drop_first())
    }
}

/// The payload bytes of a light-control request.
pub open spec fn spec_enc_light_control(m: SpecLightControl) -> Seq<u8> {
    seq![m.repeat, m.num] + spec_enc_light_ops(m.ops)
}

/// The wire bytes of a light message.
pub open spec fn spec_enc_light(m: SpecLight) -> Seq<u8> {
    match m {
        SpecLight::AllOff => seq![0x01u8],
        SpecLight::Off(v) => seq![0x02u8] + spec_enc_light_off(v),
        SpecLight::On(v) => seq![0x03u8] + spec_enc_light_on(v),
        SpecLight::Control(v) => seq![0x04u8] + spec_enc_light_control(v),
    }
}

/// The payload bytes of a preset sound request.
pub open spec fn spec_enc_sound_preset(m: SoundPreset) -> Seq<u8> {
    seq![sound_preset_code(m.id), m.vol]
}

/// The payload bytes of one sound operation.
pub open spec fn spec_enc_sound_op(m: SoundOp) -> Seq<u8> {
    seq![m.duration, note_code(m.note), m.vol]
}

/// The bytes of a sequence of sound operations, one element after the other.
pub open spec fn spec_enc_sound_ops(ops: Seq<SoundOp>) -> Seq<u8>
    decreases ops.len(),
{
    if ops.len() == 0 {
        Seq::empty()
    } else {
        spec_enc_sound_op(ops[0]) + spec_enc_sound_ops(ops.drop_first())
    }
}

/// The payload bytes of a sound-play request.
pub open spec fn spec_enc_sound_play(m: SpecSoundPlay) -> Seq<u8> {
    seq![m.repeat, m.num] + spec_enc_sound_ops(m.ops)
}

/// The wire bytes of a sound message.
pub open spec fn spec_enc_sound(m: SpecSound) -> Seq<u8> {
    match m {
        SpecSound::Stop => seq![0x01u8],
        SpecSound::Preset(v) => seq![0x02u8] + spec_enc_sound_preset(v),
        SpecSound::Play(v) => seq![0x03u8] + spec_enc_sound_play(v),
    }
}

/// The payload bytes of a version response: the unused byte, then the
/// version text in UTF-8 to the end of the buffer.
pub open spec fn spec_enc_version_res(m: SpecConfigVersionRes) -> Seq<u8> {
    seq![m.reserved] + encode_utf8(m.version)
}

/// The wire bytes of a configuration message.
pub open spec fn spec_enc_config(m: SpecConfig) -> Seq<u8> {
    match m {
        SpecConfig::Version(v) => seq![0x01u8, v.reserve],
        SpecConfig::Level(v) => seq![0x02u8, v.reserved, v.threshold],
        SpecConfig::Collision(v) => seq![0x03u8, v.reserved, v.threshold],
        SpecConfig::DoubleTap(v) => seq![0x04u8, v.reserved, v.interval],
        SpecConfig::VersionRes(v) => seq![0x81u8] + spec_enc_version_res(v),
    }
}

/// The wire bytes of a message: what `encode` writes and what the cube
/// itself sends on the message's characteristic.
pub open spec fn spec_encode(m: SpecMessage) -> Seq<u8> {
    match m {
        SpecMessage::Id(v) => spec_enc_id(v),
        SpecMessage::Motion(v) => spec_enc_motion(v),
        SpecMessage::Button(v) => spec_enc_button(v),
        SpecMessage::Battery(v) => seq![v],
        SpecMessage::Motor(v) => spec_enc_motor(v),
        SpecMessage::Light(v) => spec_enc_light(v),
        SpecMessage::Sound(v) => spec_enc_sound(v),
        SpecMessage::Config(v) => spec_enc_config(v),
    }
}

/// Accumulates the wire bytes of one message.
pub struct Serializer {
    /// The bytes written so far.
    pub buf: Vec<u8>,
}

impl Serializer {
    /// A serializer with an empty buffer.
    pub fn new() -> (r: Self)
        ensures
            r.buf@ =~= Seq::<u8>::empty(),
    {
        Serializer { buf: Vec::new() }
    }

    /// Writes one raw byte.
    pub fn put_u8(&mut self, v: u8)
        ensures
            final(self).buf@ =~= old(self).buf@ + seq![v],
    {
        self.buf.push(v);
    }

    /// Writes a boolean as one byte, one for true.
    pub fn put_bool(&mut self, v: bool)
        ensures
            final(self).buf@ =~= old(self).buf@ + seq![spec_bool_byte(v)],
    {
        if v {
            self.buf.push(1);
        } else {
            self.buf.push(0);
        }
    }

    /// Writes a 16-bit integer as two little-endian bytes.
    pub fn put_u16(&mut self, v: u16)
        ensures
            final(self).buf@ =~= old(self).buf@ + spec_u16_le(v),
    {
        self.buf.push((v % 0x100) as u8);
        self.buf.push((v / 0x100) as u8);
    }

    /// Writes a 32-bit integer as four little-endian bytes.
    pub fn put_u32(&mut self, v: u32)
        ensures
            final(self).buf@ =~= old(self).buf@ + spec_u32_le(v),
    {
        self.buf.push((v % 0x100) as u8);
        self.buf.push(((v / 0x100) % 0x100) as u8);
        self.buf.push(((v / 0x10000) % 0x100) as u8);
        self.buf.push((v / 0x1000000) as u8);
    }

    /// Writes the UTF-8 bytes of a string, with no length prefix and no
    /// terminator.
    pub fn put_str(&mut self, s: &str)
        ensures
            final(self).buf@ =~= old(self).buf@ + encode_utf8(s@),
    {
        let bytes = s.as_bytes();
        let mut i: usize = 0;
        while i < bytes.len()
            invariant
                i <= bytes@.len(),
                bytes@ == encode_utf8(s@),
                self.buf@ =~= old(self).buf@ + bytes@.take(i as int),
            decreases bytes@.len() - i,
        {
            self.buf.push(bytes[i]);
            i += 1;
            assert(bytes@.take(i as int) =~= bytes@.take(i as int - 1) + seq![bytes@[i as int - 1]]);
        }
        assert(bytes@.take(bytes@.len() as int) =~= bytes@);
    }

    /// Hands the accumulated bytes out.
    pub fn into_vec(self) -> (r: Vec<u8>)
        ensures
            r@ == self.buf@,
    {
        self.buf
    }
}

/// Writes the payload of a position id.
fn put_id_pos(s: &mut Serializer, p: &IdPos)
    ensures
        final(s).buf@ =~= old(s).buf@ + spec_enc_id_pos(*p),
{
    s.put_u16(p.cube_x);
    s.put_u16(p.cube_y);
    s.put_u16(p.cube_angle);
    s.put_u16(p.sensor_x);
    s.put_u16(p.sensor_y);
    s.put_u16(p.sensor_angle);
}

/// Writes the payload of a standard id.
fn put_id_std(s: &mut Serializer, p: &IdStd)
    ensures
        final(s).buf@ =~= old(s).buf@ + spec_enc_id_std(*p),
{
    s.put_u32(p.value);
    s.put_u16(p.angle);
}

/// Writes the payload of a motion sensor state.
fn put_motion_detect(s: &mut Serializer, m: &MotionDetect)
    ensures
        final(s).buf@ =~= old(s).buf@ + spec_enc_motion_detect(*m),
{
    s.put_bool(m.level);
    s.put_bool(m.collision);
    s.put_bool(m.double_tap);
    s.put_u8(m.posture.code());
}

/// Writes the payload of a simple motor request.
fn put_motor_simple(s: &mut Serializer, m: &MotorSimple)
    ensures
        final(s).buf@ =~= old(s).buf@ + spec_enc_motor_simple(*m),
{
    s.put_u8(m.motor1.code());
    s.put_u8(m.dir1.code());
    s.put_u8(m.speed1);
    s.put_u8(m.motor2.code());
    s.put_u8(m.dir2.code());
    s.put_u8(m.speed2);
}

/// Writes the payload of a timed motor request.
fn put_motor_timed(s: &mut Serializer, m: &MotorTimed)
    ensures
        final(s).buf@ =~= old(s).buf@ + spec_enc_motor_timed(*m),
{
    s.put_u8(m.motor1.code());
    s.put_u8(m.dir1.code());
    s.put_u8(m.speed1);
    s.put_u8(m.motor2.code());
    s.put_u8(m.dir2.code());
    s.put_u8(m.speed2);
    s.put_u8(m.duration);
}

/// Writes the payload of a target-position motor request.
fn put_motor_target(s: &mut Serializer, m: &MotorTarget)
    ensures
        final(s).buf@ =~= old(s).buf@ + spec_enc_motor_target(*m),
{
    s.put_u8(m.id);
    s.put_u8(m.timeout);
    s.put_u8(m.move_type.code());
    s.put_u8(m.max_speed);
    s.put_u8(m.speed_change.code());
    s.put_u8(m.reserved);
    s.put_u16(m.x);
    s.put_u16(m.y);
    s.put_u16(m.angle);
}

/// Writes the payload of one target position.
fn put_target(s: &mut Serializer, t: &Target)
    ensures
        final(s).buf@ =~= old(s).buf@ + spec_enc_target(*t),
{
    s.put_u16(t.x);
    s.put_u16(t.y);
    s.put_u16(t.angle);
}

/// Appending one element to a target sequence appends its bytes.
proof fn lemma_enc_targets_push(ts: Seq<Target>, t: Target)
    ensures
        spec_enc_targets(ts.push(t)) =~= spec_enc_targets(ts) + spec_enc_target(t),
    decreases ts.len(),
{
    if ts.len() == 0 {
        assert(ts.push(t)[0] == t);
        assert(ts.push(t).drop_first() =~= Seq::<Target>::empty());
        assert(spec_enc_targets(ts.push(t).drop_first()) =~= Seq::<u8>::empty());
        assert(spec_enc_targets(ts.push(t)) =~= spec_enc_target(t) + Seq::<u8>::empty());
        assert(spec_enc_targets(ts) =~= Seq::<u8>::empty());
    } else {
        assert(ts.push(t)[0] == ts[0]);
        assert(ts.push(t).drop_first() =~= ts.drop_first().push(t));
        lemma_enc_targets_push(ts.drop_first(), t);
        assert(spec_enc_targets(ts.push(t)) =~= spec_enc_target(ts[0]) + (spec_enc_targets(ts.drop_first()) + spec_enc_target(t)));
        assert(spec_enc_targets(ts) =~= spec_enc_target(ts[0]) + spec_enc_targets(ts.drop_first()));
    }
}

/// Writes a sequence of target positions.
fn put_targets(s: &mut Serializer, ts: &Vec<Target>)
    ensures
        final(s).buf@ =~= old(s).buf@ + spec_enc_targets(ts@),
{
    let mut i: usize = 0;
    while i < ts.len()
        invariant
            i <= ts@.len(),
            s.buf@ =~= old(s).buf@ + spec_enc_targets(ts@.take(i as int)),
        decreases ts@.len() - i,
    {
        put_target(s, &ts[i]);
        i += 1;
        proof {
            assert(ts@.take(i as int) =~= ts@.take(i as int - 1).push(ts@[i as int - 1]));
            lemma_enc_targets_push(ts@.take(i as int - 1), ts@[i as int - 1]);
        }
    }
    assert(ts@.take(ts@.len() as int) =~= ts@);
}

/// Writes the payload of an acceleration motor request.
fn put_motor_acc(s: &mut Serializer, m: &MotorAcc)
    ensures
        final(s).buf@ =~= old(s).buf@ + spec_enc_motor_acc(*m),
{
    s.put_u8(m.id);
    s.put_u8(m.speed);
    s.put_u8(m.acc);
    s.put_u16(m.rotate_speed);
    s.put_u8(m.rotate_dir.code());
    s.put_u8(m.trans_dir.code());
    s.put_u8(m.prio.code());
    s.put_u8(m.duration);
}

/// Writes the payload of a target response.
fn put_motor_target_res(s: &mut Serializer, m: &MotorTargetRes)
    ensures
        final(s).buf@ =~= old(s).buf@ + spec_enc_motor_target_res(*m),
{
    s.put_u8(m.id);
    s.put_u8(m.res.code());
}

/// Writes the payload of a light-on request.
fn put_light_on(s: &mut Serializer, m: &LightOn)
    ensures
        final(s).buf@ =~= old(s).buf@ + spec_enc_light_on(*m),
{
    s.put_u8(m.duration);
    s.put_u8(m.num);
    s.put_u8(m.id);
    s.put_u8(m.red);
    s.put_u8(m.green);
    s.put_u8(m.blue);
}

/// Appending one element to a light operation sequence appends its bytes.
proof fn lemma_enc_light_ops_push(ops: Seq<LightOn>, op: LightOn)
    ensures
        spec_enc_light_ops(ops.push(op)) =~= spec_enc_light_ops(ops) + spec_enc_light_on(op),
    decreases ops.len(),
{
    if ops.len() == 0 {
        assert(ops.push(op)[0] == op);
        assert(ops.push(op).drop_first() =~= Seq::<LightOn>::empty());
        assert(spec_enc_light_ops(ops.push(op).drop_first()) =~= Seq::<u8>::empty());
        assert(spec_enc_light_ops(ops.push(op)) =~= spec_enc_light_on(op) + Seq::<u8>::empty());
        assert(spec_enc_light_ops(ops) =~= Seq::<u8>::empty());
    } else {
        assert(ops.push(op)[0] == ops[0]);
        assert(ops.push(op).drop_first() =~= ops.drop_first().push(op));
        lemma_enc_light_ops_push(ops.drop_first(), op);
        assert(spec_enc_light_ops(ops.push(op)) =~= spec_enc_light_on(ops[0]) + (spec_enc_light_ops(ops.drop_first()) + spec_enc_light_on(op)));
        assert(spec_enc_light_ops(ops) =~= spec_enc_light_on(ops[0]) + spec_enc_light_ops(ops.drop_first()));
    }
}

/// Writes a sequence of light operations.
fn put_light_ops(s: &mut Serializer, ops: &Vec<LightOn>)
    ensures
        final(s).buf@ =~= old(s).buf@ + spec_enc_light_ops(ops@),
{
    let mut i: usize = 0;
    while i < ops.len()
        invariant
            i <= ops@.len(),
            s.buf@ =~= old(s).buf@ + spec_enc_light_ops(ops@.take(i as int)),
        decreases ops@.len() - i,
    {
        put_light_on(s, &ops[i]);
        i += 1;
        proof {
            assert(ops@.take(i as int) =~= ops@.take(i as int - 1).push(ops@[i as int - 1]));
            lemma_enc_light_ops_push(ops@.take(i as int - 1), ops@[i as int - 1]);
        }
    }
    assert(ops@.take(ops@.len() as int) =~= ops@);
}

/// Writes the payload of one sound operation.
fn put_sound_op(s: &mut Serializer, m: &SoundOp)
    ensures
        final(s).buf@ =~= old(s).buf@ + spec_enc_sound_op(*m),
{
    s.put_u8(m.duration);
    s.put_u8(m.note.code());
    s.put_u8(m.vol);
}

/// Appending one element to a sound operation sequence appends its bytes.
proof fn lemma_enc_sound_ops_push(ops: Seq<SoundOp>, op: SoundOp)
    ensures
        spec_enc_sound_ops(ops.push(op)) =~= spec_enc_sound_ops(ops) + spec_enc_sound_op(op),
    decreases ops.len(),
{
    if ops.len() == 0 {
        assert(ops.push(op)[0] == op);
        assert(ops.push(op).drop_first() =~= Seq::<SoundOp>::empty());
        assert(spec_enc_sound_ops(ops.push(op).drop_first()) =~= Seq::<u8>::empty());
        assert(spec_enc_sound_ops(ops.push(op)) =~= spec_enc_sound_op(op) + Seq::<u8>::empty());
        assert(spec_enc_sound_ops(ops) =~= Seq::<u8>::empty());
    } else {
        assert(ops.push(op)[0] == ops[0]);
        assert(ops.push(op).drop_first() =~= ops.drop_first().push(op));
        lemma_enc_sound_ops_push(ops.drop_first(), op);
        assert(spec_enc_sound_ops(ops.push(op)) =~= spec_enc_sound_op(ops[0]) + (spec_enc_sound_ops(ops.drop_first()) + spec_enc_sound_op(op)));
        assert(spec_enc_sound_ops(ops) =~= spec_enc_sound_op(ops[0]) + spec_enc_sound_ops(ops.drop_first()));
    }
}

/// Writes a sequence of sound operations.
fn put_sound_ops(s: &mut Serializer, ops: &Vec<SoundOp>)
    ensures
        final(s).buf@ =~= old(s).buf@ + spec_enc_sound_ops(ops@),
{
    let mut i: usize = 0;
    while i < ops.len()
        invariant
            i <= ops@.len(),
            s.buf@ =~= old(s).buf@ + spec_enc_sound_ops(ops@.take(i as int)),
        decreases ops@.len() - i,
    {
        put_sound_op(s, &ops[i]);
        i += 1;
        proof {
            assert(ops@.take(i as int) =~= ops@.take(i as int - 1).push(ops@[i as int - 1]));
            lemma_enc_sound_ops_push(ops@.take(i as int - 1), ops@[i as int - 1]);
        }
    }
    assert(ops@.take(ops@.len() as int) =~= ops@);
}

/// Packs a message for its characteristic: returns the characteristic's
/// UUID and exactly the wire bytes that `spec_encode` gives the message.
pub fn encode(msg: &Message) -> (r: (Uuid, Vec<u8>))
    ensures
        r.0.bytes() =~= spec_uuid_bytes(spec_family(msg@)),
        r.1@ =~= spec_encode(msg@),
{
    let uuid = uuid_of(msg.family());
    let mut s = Serializer::new();
    match msg {
        Message::Id(m) => match m {
            Id::Pos(p) => {
                s.put_u8(0x01);
                put_id_pos(&mut s, p);
            }
            Id::Std(p) => {
                s.put_u8(0x02);
                put_id_std(&mut s, p);
            }
            Id::PosMissed => {
                s.put_u8(0x03);
            }
            Id::StdMissed => {
                s.put_u8(0x04);
            }
        },
        Message::Motion(m) => match m {
            Motion::Detect(d) => {
                s.put_u8(0x01);
                put_motion_detect(&mut s, d);
            }
        },
        Message::Button(m) => match m {
            Button::Func(b) => {
                s.put_u8(0x01);
                s.put_u8(b.code());
            }
        },
        Message::Battery(v) => {
            s.put_u8(*v);
        }
        Message::Motor(m) => match m {
            crate::proto::Motor::Simple(v) => {
                s.put_u8(0x01);
                put_motor_simple(&mut s, v);
            }
            crate::proto::Motor::Timed(v) => {
                s.put_u8(0x02);
                put_motor_timed(&mut s, v);
            }
            crate::proto::Motor::Target(v) => {
                s.put_u8(0x03);
                put_motor_target(&mut s, v);
            }
            crate::proto::Motor::MultiTarget(v) => {
                s.put_u8(0x04);
                s.put_u8(v.id);
                s.put_u8(v.timeout);
                s.put_u8(v.move_type.code());
                s.put_u8(v.max_speed);
                s.put_u8(v.speed_change.code());
                s.put_u8(v.reserved);
                s.put_u8(v.writeopt.code());
                put_targets(&mut s, &v.targets);
            }
            crate::proto::Motor::Acc(v) => {
                s.put_u8(0x05);
                put_motor_acc(&mut s, v);
            }
            crate::proto::Motor::TargetRes(v) => {
                s.put_u8(0x83);
                put_motor_target_res(&mut s, v);
            }
            crate::proto::Motor::MultiTargetRes(v) => {
                s.put_u8(0x84);
                put_motor_target_res(&mut s, v);
            }
        },
        Message::Light(m) => match m {
            crate::proto::Light::AllOff => {
                s.put_u8(0x01);
            }
            crate::proto::Light::Off(v) => {
                s.put_u8(0x02);
                s.put_u8(v.num);
                s.put_u8(v.id);
            }
            crate::proto::Light::On(v) => {
                s.put_u8(0x03);
                put_light_on(&mut s, v);
            }
            crate::proto::Light::Control(v) => {
                s.put_u8(0x04);
                s.put_u8(v.repeat);
                s.put_u8(v.num);
                put_light_ops(&mut s, &v.ops);
            }
        },
        Message::Sound(m) => match m {
            crate::proto::Sound::Stop => {
                s.put_u8(0x01);
            }
            crate::proto::Sound::Preset(v) => {
                s.put_u8(0x02);
                s.put_u8(v.id.code());
                s.put_u8(v.vol);
            }
            crate::proto::Sound::Play(v) => {
                s.put_u8(0x03);
                s.put_u8(v.repeat);
                s.put_u8(v.num);
                put_sound_ops(&mut s, &v.ops);
            }
        },
        Message::Config(m) => match m {
            crate::proto::Config::Version(v) => {
                s.put_u8(0x01);
                s.put_u8(v.reserve);
            }
            crate::proto::Config::Level(v) => {
                s.put_u8(0x02);
                s.put_u8(v.reserved);
                s.put_u8(v.threshold);
            }
            crate::proto::Config::Collision(v) => {
                s.put_u8(0x03);
                s.put_u8(v.reserved);
                s.put_u8(v.threshold);
            }
            crate::proto::Config::DoubleTap(v) => {
                s.put_u8(0x04);
                s.put_u8(v.reserved);
                s.put_u8(v.interval);
            }
            crate::proto::Config::VersionRes(v) => {
                s.put_u8(0x81);
                s.put_u8(v.reserved);
                s.put_str(v.version.as_str());
            }
        },
    }
    (uuid, s.into_vec())
}

} // verus!
