//! Unpacking wire bytes into messages.
//!
//! Decoding is the mirror of `spec_encode`: the characteristic UUID selects
//! the variant table, the first byte selects the variant, and the payload is
//! read with a cursor that advances by each field's fixed width. A trailing
//! sequence decodes one element at a time until the end of the buffer; a
//! trailing string consumes all remaining bytes as text. Extra bytes after a
//! fixed-width payload are ignored. The `sdec_*` functions state exactly
//! which value or which error every buffer yields.

use vstd::prelude::*;

use crate::ble::Uuid;
use crate::note::Note;
use crate::note::note_from;
use crate::proto::Button;
use crate::proto::ButtonState;
use crate::proto::Config;
use crate::proto::ConfigCollision;
use crate::proto::ConfigDoubleTap;
use crate::proto::ConfigLevel;
use crate::proto::ConfigVersion;
use crate::proto::ConfigVersionRes;
use crate::proto::Family;
use crate::proto::Id;
use crate::proto::IdPos;
use crate::proto::IdStd;
use crate::proto::Light;
use crate::proto::LightControl;
use crate::proto::LightOff;
use crate::proto::LightOn;
use crate::proto::Message;
use crate::proto::Motion;
use crate::proto::MotionDetect;
use crate::proto::Motor;
use crate::proto::MotorAcc;
use crate::proto::MotorCubeDir;
use crate::proto::MotorDir;
use crate::proto::MotorId;
use crate::proto::MotorMultiTarget;
use crate::proto::MotorPriority;
use crate::proto::MotorSimple;
use crate::proto::MotorTarget;
use crate::proto::MotorTargetRes;
use crate::proto::MotorTimed;
use crate::proto::MoveType;
use crate::proto::Posture;
use crate::proto::Sound;
use crate::proto::SoundOp;
use crate::proto::SoundPlay;
use crate::proto::SoundPreset;
use crate::proto::SoundPresetId;
use crate::proto::SpecConfig;
use crate::proto::SpecConfigVersionRes;
use crate::proto::SpecLight;
use crate::proto::SpecLightControl;
use crate::proto::SpecMessage;
use crate::proto::SpecMotor;
use crate::proto::SpecMotorMultiTarget;
use crate::proto::SpecSound;
use crate::proto::SpecSoundPlay;
use crate::proto::SpeedChange;
use crate::proto::Target;
use crate::proto::TargetResValue;
use crate::proto::WriteOpt;
use crate::proto::button_state_from;
use crate::proto::motor_cube_dir_from;
use crate::proto::motor_dir_from;
use crate::proto::motor_id_from;
use crate::proto::motor_priority_from;
use crate::proto::move_type_from;
use crate::proto::posture_from;
use crate::proto::sound_preset_from;
use crate::proto::spec_family_of;
use crate::proto::spec_uuid_bytes;
use crate::proto::speed_change_from;
use crate::proto::target_res_from;
use crate::proto::write_opt_from;
use vstd::utf8::decode_utf8;
use vstd::utf8::valid_utf8;

verus! {

/// Why a buffer cannot be decoded.
#[derive(Debug, Clone, Copy, PartialEq, Eq)]
pub enum Error {
    /// The UUID matches no characteristic of the catalog.
    UnknownCharacteristic(Uuid),
    /// The byte matches no discriminant of the family: first the byte read,
    /// then the family whose table was consulted.
    UnknownVariant(u8, Family),
    /// The buffer is shorter than a fixed-width read: first the width the
    /// field expects, then the bytes that remained.
    Truncated(usize, usize),
}

/// What `String::from_utf8_lossy` returns on bytes that are not valid
/// UTF-8: determined by the bytes alone.
pub uninterp spec fn lossy_of(b: Seq<u8>) -> Seq<char>;

/// Relies on std's `String::from_utf8_lossy`: valid UTF-8 converts
/// losslessly; invalid sequences are replaced, depending on the bytes alone.
#[verifier::external_body]
fn from_utf8_lossy(b: &[u8]) -> (r: String)
    ensures
        valid_utf8(b@) ==> r@ == decode_utf8(b@),
        !valid_utf8(b@) ==> r@ == lossy_of(b@),
{
    String::from_utf8_lossy(b).into_owned()
}

/// The text that a trailing string field holds for the given bytes.
pub open spec fn spec_str_of(b: Seq<u8>) -> Seq<char> {
    if valid_utf8(b) {
        decode_utf8(b)
    } else {
        lossy_of(b)
    }
}

/// Reads the first byte.
pub open spec fn srd_u8(b: Seq<u8>) -> Result<u8, Error> {
    if b.len() < 1 {
        Err(Error::Truncated(1, b.len() as usize))
    } else {
        Ok(b[0])
    }
}

/// Reads the first byte as a boolean: any non-zero byte is true.
pub open spec fn srd_bool(b: Seq<u8>) -> Result<bool, Error> {
    match srd_u8(b) {
        Err(e) => Err(e),
        Ok(v) => Ok(v != 0),
    }
}

/// The 16-bit integer held by the first two bytes, little-endian.
pub open spec fn spec_le16(b: Seq<u8>) -> u16
    recommends
        b.len() >= 2,
{
    (b[0] + 0x100 * b[1]) as u16
}

/// Reads the first two bytes as a little-endian 16-bit integer.
pub open spec fn srd_u16(b: Seq<u8>) -> Result<u16, Error> {
    if b.len() < 2 {
        Err(Error::Truncated(2, b.len() as usize))
    } else {
        Ok(spec_le16(b))
    }
}

/// The 32-bit integer held by the first four bytes, little-endian.
pub open spec fn spec_le32(b: Seq<u8>) -> u32
    recommends
        b.len() >= 4,
{
    (b[0] + 0x100 * b[1] + 0x10000 * b[2] + 0x1000000 * b[3]) as u32
}

/// Reads the first four bytes as a little-endian 32-bit integer.
pub open spec fn srd_u32(b: Seq<u8>) -> Result<u32, Error> {
    if b.len() < 4 {
        Err(Error::Truncated(4, b.len() as usize))
    } else {
        Ok(spec_le32(b))
    }
}

/// A cursor over the bytes of one characteristic value.
pub struct Deserializer<'a> {
    buf: &'a [u8],
    pos: usize,
}

impl<'a> Deserializer<'a> {
    /// The cursor never passes the end of the buffer.
    pub closed spec fn wf(self) -> bool {
        self.pos <= self.buf@.len()
    }

    /// The bytes not consumed yet.
    pub closed spec fn remaining(self) -> Seq<u8> {
        self.buf@.skip(self.pos as int)
    }

    /// A cursor at the start of the buffer.
    pub fn new(buf: &'a [u8]) -> (r: Self)
        ensures
            r.wf(),
            r.remaining() =~= buf@,
    {
        Deserializer { buf, pos: 0 }
    }

    /// Whether every byte has been consumed.
    pub fn is_empty(&self) -> (r: bool)
        requires
            self.wf(),
        ensures
            r <==> self.remaining().len() == 0,
    {
        self.pos == self.buf.len()
    }

    /// Fails with the exact shortfall when fewer than `len` bytes remain.
    pub fn check(&self, len: usize) -> (r: Result<(), Error>)
        requires
            self.wf(),
        ensures
            r is Ok <==> self.remaining().len() >= len,
            r is Err ==> r == Err::<(), Error>(Error::Truncated(len, self.remaining().len() as usize)),
    {
        let rem = self.buf.len() - self.pos;
        if rem < len {
            Err(Error::Truncated(len, rem))
        } else {
            Ok(())
        }
    }

    /// Reads one byte.
    pub fn read_u8(&mut self) -> (r: Result<u8, Error>)
        requires
            old(self).wf(),
        ensures
            final(self).wf(),
            r == srd_u8(old(self).remaining()),
            r is Ok ==> final(self).remaining() =~= old(self).remaining().skip(1),
            r is Err ==> *final(self) == *old(self),
    {
        match self.check(1) {
            Err(e) => Err(e),
            Ok(()) => {
                let v = self.buf[self.pos];
                self.pos = self.pos + 1;
                Ok(v)
            }
        }
    }

    /// Reads one byte as a boolean: any non-zero byte is true.
    pub fn read_bool(&mut self) -> (r: Result<bool, Error>)
        requires
            old(self).wf(),
        ensures
            final(self).wf(),
            r == srd_bool(old(self).remaining()),
            r is Ok ==> final(self).remaining() =~= old(self).remaining().skip(1),
            r is Err ==> *final(self) == *old(self),
    {
        match self.read_u8() {
            Err(e) => Err(e),
            Ok(v) => Ok(v != 0),
        }
    }

    /// Reads two bytes as a little-endian 16-bit integer.
    pub fn read_u16(&mut self) -> (r: Result<u16, Error>)
        requires
            old(self).wf(),
        ensures
            final(self).wf(),
            r == srd_u16(old(self).remaining()),
            r is Ok ==> final(self).remaining() =~= old(self).remaining().skip(2),
            r is Err ==> *final(self) == *old(self),
    {
        match self.check(2) {
            Err(e) => Err(e),
            Ok(()) => {
                let b0 = self.buf[self.pos];
                let b1 = self.buf[self.pos + 1];
                self.pos = self.pos + 2;
                Ok(b0 as u16 + 0x100 * (b1 as u16))
            }
        }
    }

    /// Reads four bytes as a little-endian 32-bit integer.
    pub fn read_u32(&mut self) -> (r: Result<u32, Error>)
        requires
            old(self).wf(),
        ensures
            final(self).wf(),
            r == srd_u32(old(self).remaining()),
            r is Ok ==> final(self).remaining() =~= old(self).remaining().skip(4),
            r is Err ==> *final(self) == *old(self),
    {
        match self.check(4) {
            Err(e) => Err(e),
            Ok(()) => {
                let b0 = self.buf[self.pos];
                let b1 = self.buf[self.pos + 1];
                let b2 = self.buf[self.pos + 2];
                let b3 = self.buf[self.pos + 3];
                self.pos = self.pos + 4;
                Ok(b0 as u32 + 0x100 * (b1 as u32) + 0x10000 * (b2 as u32) + 0x1000000 * (b3 as u32))
            }
        }
    }

    /// Consumes every remaining byte as text: a trailing string field is not
    /// length-prefixed and runs to the end of the buffer.
    pub fn parse_str(&mut self) -> (r: String)
        requires
            old(self).wf(),
        ensures
            final(self).wf(),
            r@ == spec_str_of(old(self).remaining()),
            final(self).remaining().len() == 0,
    {
        let mut rest: Vec<u8> = Vec::new();
        while self.pos < self.buf.len()
            invariant
                self.wf(),
                self.buf@ == old(self).buf@,
                self.pos >= old(self).pos,
                rest@ =~= self.buf@.subrange(old(self).pos as int, self.pos as int),
            decreases self.buf@.len() - self.pos,
        {
            rest.push(self.buf[self.pos]);
            self.pos = self.pos + 1;
        }
        assert(rest@ =~= old(self).remaining());
        from_utf8_lossy(rest.as_slice())
    }
}


/// The value or the exact error that a position id payload yields.
pub open spec fn sdec_id_pos(b: Seq<u8>) -> Result<IdPos, Error> {
    match srd_u16(b) {
        Err(e) => Err(e),
        Ok(cube_x) => match srd_u16(b.skip(2)) {
            Err(e) => Err(e),
            Ok(cube_y) => match srd_u16(b.skip(4)) {
                Err(e) => Err(e),
                Ok(cube_angle) => match srd_u16(b.skip(6)) {
                    Err(e) => Err(e),
                    Ok(sensor_x) => match srd_u16(b.skip(8)) {
                        Err(e) => Err(e),
                        Ok(sensor_y) => match srd_u16(b.skip(10)) {
                            Err(e) => Err(e),
                            Ok(sensor_angle) => Ok(IdPos {
                                cube_x,
                                cube_y,
                                cube_angle,
                                sensor_x,
                                sensor_y,
                                sensor_angle,
                            }),
                        },
                    },
                },
            },
        },
    }
}

/// The value or the exact error that a standard id payload yields.
pub open spec fn sdec_id_std(b: Seq<u8>) -> Result<IdStd, Error> {
    match srd_u32(b) {
        Err(e) => Err(e),
        Ok(value) => match srd_u16(b.skip(4)) {
            Err(e) => Err(e),
            Ok(angle) => Ok(IdStd { value, angle }),
        },
    }
}

/// The message or the exact error that an id reader buffer yields.
pub open spec fn sdec_id(b: Seq<u8>) -> Result<Id, Error> {
    match srd_u8(b) {
        Err(e) => Err(e),
        Ok(tag) => if tag == 0x01 {
            match sdec_id_pos(b.skip(1)) {
                Err(e) => Err(e),
                Ok(p) => Ok(Id::Pos(p)),
            }
        } else if tag == 0x02 {
            match sdec_id_std(b.skip(1)) {
                Err(e) => Err(e),
                Ok(p) => Ok(Id::Std(p)),
            }
        } else if tag == 0x03 {
            Ok(Id::PosMissed)
        } else if tag == 0x04 {
            Ok(Id::StdMissed)
        } else {
            Err(Error::UnknownVariant(tag, Family::IdReader))
        },
    }
}

/// The value or the exact error that a motion sensor payload yields.
pub open spec fn sdec_motion_detect(b: Seq<u8>) -> Result<MotionDetect, Error> {
    match srd_bool(b) {
        Err(e) => Err(e),
        Ok(level) => match srd_bool(b.skip(1)) {
            Err(e) => Err(e),
            Ok(collision) => match srd_bool(b.skip(2)) {
                Err(e) => Err(e),
                Ok(double_tap) => match srd_u8(b.skip(3)) {
                    Err(e) => Err(e),
                    Ok(pb) => match posture_from(pb) {
                        None => Err(Error::UnknownVariant(pb, Family::Motion)),
                        Some(posture) => Ok(MotionDetect { level, collision, double_tap, posture }),
                    },
                },
            },
        },
    }
}

/// The message or the exact error that a motion sensor buffer yields.
pub open spec fn sdec_motion(b: Seq<u8>) -> Result<Motion, Error> {
    match srd_u8(b) {
        Err(e) => Err(e),
        Ok(tag) => if tag == 0x01 {
            match sdec_motion_detect(b.skip(1)) {
                Err(e) => Err(e),
                Ok(d) => Ok(Motion::Detect(d)),
            }
        } else {
            Err(Error::UnknownVariant(tag, Family::Motion))
        },
    }
}

/// The message or the exact error that a button buffer yields.
pub open spec fn sdec_button(b: Seq<u8>) -> Result<Button, Error> {
    match srd_u8(b) {
        Err(e) => Err(e),
        Ok(tag) => if tag == 0x01 {
            match srd_u8(b.skip(1)) {
                Err(e) => Err(e),
                Ok(sb) => match button_state_from(sb) {
                    None => Err(Error::UnknownVariant(sb, Family::Button)),
                    Some(st) => Ok(Button::Func(st)),
                },
            }
        } else {
            Err(Error::UnknownVariant(tag, Family::Button))
        },
    }
}

/// The value or the exact error that a simple motor payload yields.
pub open spec fn sdec_motor_simple(b: Seq<u8>) -> Result<MotorSimple, Error> {
    match srd_u8(b) {
        Err(e) => Err(e),
        Ok(m1) => match motor_id_from(m1) {
            None => Err(Error::UnknownVariant(m1, Family::Motor)),
            Some(motor1) => match srd_u8(b.skip(1)) {
                Err(e) => Err(e),
                Ok(d1) => match motor_dir_from(d1) {
                    None => Err(Error::UnknownVariant(d1, Family::Motor)),
                    Some(dir1) => match srd_u8(b.skip(2)) {
                        Err(e) => Err(e),
                        Ok(speed1) => match srd_u8(b.skip(3)) {
                            Err(e) => Err(e),
                            Ok(m2) => match motor_id_from(m2) {
                                None => Err(Error::UnknownVariant(m2, Family::Motor)),
                                Some(motor2) => match srd_u8(b.skip(4)) {
                                    Err(e) => Err(e),
                                    Ok(d2) => match motor_dir_from(d2) {
                                        None => Err(Error::UnknownVariant(d2, Family::Motor)),
                                        Some(dir2) => match srd_u8(b.skip(5)) {
                                            Err(e) => Err(e),
                                            Ok(speed2) => Ok(MotorSimple {
                                                motor1,
                                                dir1,
                                                speed1,
                                                motor2,
                                                dir2,
                                                speed2,
                                            }),
                                        },
                                    },
                                },
                            },
                        },
                    },
                },
            },
        },
    }
}

/// The value or the exact error that a timed motor payload yields.
pub open spec fn sdec_motor_timed(b: Seq<u8>) -> Result<MotorTimed, Error> {
    match sdec_motor_simple(b) {
        Err(e) => Err(e),
        Ok(s) => match srd_u8(b.skip(6)) {
            Err(e) => Err(e),
            Ok(duration) => Ok(MotorTimed {
                motor1: s.motor1,
                dir1: s.dir1,
                speed1: s.speed1,
                motor2: s.motor2,
                dir2: s.dir2,
                speed2: s.speed2,
                duration,
            }),
        },
    }
}

/// The value or the exact error that a target-position motor payload yields.
pub open spec fn sdec_motor_target(b: Seq<u8>) -> Result<MotorTarget, Error> {
    match srd_u8(b) {
        Err(e) => Err(e),
        Ok(id) => match srd_u8(b.skip(1)) {
            Err(e) => Err(e),
            Ok(timeout) => match srd_u8(b.skip(2)) {
                Err(e) => Err(e),
                Ok(mt) => match move_type_from(mt) {
                    None => Err(Error::UnknownVariant(mt, Family::Motor)),
                    Some(move_type) => match srd_u8(b.skip(3)) {
                        Err(e) => Err(e),
                        Ok(max_speed) => match srd_u8(b.skip(4)) {
                            Err(e) => Err(e),
                            Ok(sc) => match speed_change_from(sc) {
                                None => Err(Error::UnknownVariant(sc, Family::Motor)),
                                Some(speed_change) => match srd_u8(b.skip(5)) {
                                    Err(e) => Err(e),
                                    Ok(reserved) => match srd_u16(b.skip(6)) {
                                        Err(e) => Err(e),
                                        Ok(x) => match srd_u16(b.skip(8)) {
                                            Err(e) => Err(e),
                                            Ok(y) => match srd_u16(b.skip(10)) {
                                                Err(e) => Err(e),
                                                Ok(angle) => Ok(MotorTarget {
                                                    id,
                                                    timeout,
                                                    move_type,
                                                    max_speed,
                                                    speed_change,
                                                    reserved,
                                                    x,
                                                    y,
                                                    angle,
                                                }),
                                            },
                                        },
                                    },
                                },
                            },
                        },
                    },
                },
            },
        },
    }
}

/// The value or the exact error that one target position yields.
pub open spec fn sdec_target(b: Seq<u8>) -> Result<Target, Error> {
    match srd_u16(b) {
        Err(e) => Err(e),
        Ok(x) => match srd_u16(b.skip(2)) {
            Err(e) => Err(e),
            Ok(y) => match srd_u16(b.skip(4)) {
                Err(e) => Err(e),
                Ok(angle) => Ok(Target { x, y, angle }),
            },
        },
    }
}

/// The targets or the exact error that a trailing target sequence yields:
/// one six-byte element at a time until the end of the buffer.
pub open spec fn sdec_targets(b: Seq<u8>) -> Result<Seq<Target>, Error>
    decreases b.len(),
{
    if b.len() == 0 {
        Ok(Seq::empty())
    } else if b.len() < 6 {
        match sdec_target(b) {
            Err(e) => Err(e),
            Ok(t) => Ok(seq![t]),
        }
    } else {
        match sdec_target(b) {
            Err(e) => Err(e),
            Ok(t) => match sdec_targets(b.skip(6)) {
                Err(e) => Err(e),
                Ok(rest) => Ok(seq![t] + rest),
            },
        }
    }
}

/// The value or the exact error that a multi-target motor payload yields.
pub open spec fn sdec_motor_multi(b: Seq<u8>) -> Result<SpecMotorMultiTarget, Error> {
    match srd_u8(b) {
        Err(e) => Err(e),
        Ok(id) => match srd_u8(b.skip(1)) {
            Err(e) => Err(e),
            Ok(timeout) => match srd_u8(b.skip(2)) {
                Err(e) => Err(e),
                Ok(mt) => match move_type_from(mt) {
                    None => Err(Error::UnknownVariant(mt, Family::Motor)),
                    Some(move_type) => match srd_u8(b.skip(3)) {
                        Err(e) => Err(e),
                        Ok(max_speed) => match srd_u8(b.skip(4)) {
                            Err(e) => Err(e),
                            Ok(sc) => match speed_change_from(sc) {
                                None => Err(Error::UnknownVariant(sc, Family::Motor)),
                                Some(speed_change) => match srd_u8(b.skip(5)) {
                                    Err(e) => Err(e),
                                    Ok(reserved) => match srd_u8(b.skip(6)) {
                                        Err(e) => Err(e),
                                        Ok(wo) => match write_opt_from(wo) {
                                            None => Err(Error::UnknownVariant(wo, Family::Motor)),
                                            Some(writeopt) => match sdec_targets(b.skip(7)) {
                                                Err(e) => Err(e),
                                                Ok(targets) => Ok(SpecMotorMultiTarget {
                                                    id,
                                                    timeout,
                                                    move_type,
                                                    max_speed,
                                                    speed_change,
                                                    reserved,
                                                    writeopt,
                                                    targets,
                                                }),
                                            },
                                        },
                                    },
                                },
                            },
                        },
                    },
                },
            },
        },
    }
}

/// The value or the exact error that an acceleration motor payload yields.
pub open spec fn sdec_motor_acc(b: Seq<u8>) -> Result<MotorAcc, Error> {
    match srd_u8(b) {
        Err(e) => Err(e),
        Ok(id) => match srd_u8(b.skip(1)) {
            Err(e) => Err(e),
            Ok(speed) => match srd_u8(b.skip(2)) {
                Err(e) => Err(e),
                Ok(acc) => match srd_u16(b.skip(3)) {
                    Err(e) => Err(e),
                    Ok(rotate_speed) => match srd_u8(b.skip(5)) {
                        Err(e) => Err(e),
                        Ok(rd) => match motor_cube_dir_from(rd) {
                            None => Err(Error::UnknownVariant(rd, Family::Motor)),
                            Some(rotate_dir) => match srd_u8(b.skip(6)) {
                                Err(e) => Err(e),
                                Ok(td) => match motor_cube_dir_from(td) {
                                    None => Err(Error::UnknownVariant(td, Family::Motor)),
                                    Some(trans_dir) => match srd_u8(b.skip(7)) {
                                        Err(e) => Err(e),
                                        Ok(pr) => match motor_priority_from(pr) {
                                            None => Err(Error::UnknownVariant(pr, Family::Motor)),
                                            Some(prio) => match srd_u8(b.skip(8)) {
                                                Err(e) => Err(e),
                                                Ok(duration) => Ok(MotorAcc {
                                                    id,
                                                    speed,
                                                    acc,
                                                    rotate_speed,
                                                    rotate_dir,
                                                    trans_dir,
                                                    prio,
                                                    duration,
                                                }),
                                            },
                                        },
                                    },
                                },
                            },
                        },
                    },
                },
            },
        },
    }
}

/// The value or the exact error that a target response payload yields.
pub open spec fn sdec_motor_target_res(b: Seq<u8>) -> Result<MotorTargetRes, Error> {
    match srd_u8(b) {
        Err(e) => Err(e),
        Ok(id) => match srd_u8(b.skip(1)) {
            Err(e) => Err(e),
            Ok(rv) => match target_res_from(rv) {
                None => Err(Error::UnknownVariant(rv, Family::Motor)),
                Some(res) => Ok(MotorTargetRes { id, res }),
            },
        },
    }
}

/// The message or the exact error that a motor buffer yields.
pub open spec fn sdec_motor(b: Seq<u8>) -> Result<SpecMotor, Error> {
    match srd_u8(b) {
        Err(e) => Err(e),
        Ok(tag) => if tag == 0x01 {
            match sdec_motor_simple(b.skip(1)) {
                Err(e) => Err(e),
                Ok(v) => Ok(SpecMotor::Simple(v)),
            }
        } else if tag == 0x02 {
            match sdec_motor_timed(b.skip(1)) {
                Err(e) => Err(e),
                Ok(v) => Ok(SpecMotor::Timed(v)),
            }
        } else if tag == 0x03 {
            match sdec_motor_target(b.skip(1)) {
                Err(e) => Err(e),
                Ok(v) => Ok(SpecMotor::Target(v)),
            }
        } else if tag == 0x04 {
            match sdec_motor_multi(b.skip(1)) {
                Err(e) => Err(e),
                Ok(v) => Ok(SpecMotor::MultiTarget(v)),
            }
        } else if tag == 0x05 {
            match sdec_motor_acc(b.skip(1)) {
                Err(e) => Err(e),
                Ok(v) => Ok(SpecMotor::Acc(v)),
            }
        } else if tag == 0x83 {
            match sdec_motor_target_res(b.skip(1)) {
                Err(e) => Err(e),
                Ok(v) => Ok(SpecMotor::TargetRes(v)),
            }
        } else if tag == 0x84 {
            match sdec_motor_target_res(b.skip(1)) {
                Err(e) => Err(e),
                Ok(v) => Ok(SpecMotor::MultiTargetRes(v)),
            }
        } else {
            Err(Error::UnknownVariant(tag, Family::Motor))
        },
    }
}

/// The value or the exact error that a light-off payload yields.
pub open spec fn sdec_light_off(b: Seq<u8>) -> Result<LightOff, Error> {
    match srd_u8(b) {
        Err(e) => Err(e),
        Ok(num) => match srd_u8(b.skip(1)) {
            Err(e) => Err(e),
            Ok(id) => Ok(LightOff { num, id }),
        },
    }
}

/// The value or the exact error that a light-on payload yields.
pub open spec fn sdec_light_on(b: Seq<u8>) -> Result<LightOn, Error> {
    match srd_u8(b) {
        Err(e) => Err(e),
        Ok(duration) => match srd_u8(b.skip(1)) {
            Err(e) => Err(e),
            Ok(num) => match srd_u8(b.skip(2)) {
                Err(e) => Err(e),
                Ok(id) => match srd_u8(b.skip(3)) {
                    Err(e) => Err(e),
                    Ok(red) => match srd_u8(b.skip(4)) {
                        Err(e) => Err(e),
                        Ok(green) => match srd_u8(b.skip(5)) {
                            Err(e) => Err(e),
                            Ok(blue) => Ok(LightOn { duration, num, id, red, green, blue }),
                        },
                    },
                },
            },
        },
    }
}

/// The operations or the exact error that a trailing light operation
/// sequence yields: one six-byte element at a time until the end.
pub open spec fn sdec_light_ops(b: Seq<u8>) -> Result<Seq<LightOn>, Error>
    decreases b.len(),
{
    if b.len() == 0 {
        Ok(Seq::empty())
    } else if b.len() < 6 {
        match sdec_light_on(b) {
            Err(e) => Err(e),
            Ok(v) => Ok(seq![v]),
        }
    } else {
        match sdec_light_on(b) {
            Err(e) => Err(e),
            Ok(v) => match sdec_light_ops(b.skip(6)) {
                Err(e) => Err(e),
                Ok(rest) => Ok(seq![v] + rest),
            },
        }
    }
}

/// The value or the exact error that a light-control payload yields.
pub open spec fn sdec_light_control(b: Seq<u8>) -> Result<SpecLightControl, Error> {
    match srd_u8(b) {
        Err(e) => Err(e),
        Ok(repeat) => match srd_u8(b.skip(1)) {
            Err(e) => Err(e),
            Ok(num) => match sdec_light_ops(b.skip(2)) {
                Err(e) => Err(e),
                Ok(ops) => Ok(SpecLightControl { repeat, num, ops }),
            },
        },
    }
}

/// The message or the exact error that a light buffer yields.
pub open spec fn sdec_light(b: Seq<u8>) -> Result<SpecLight, Error> {
    match srd_u8(b) {
        Err(e) => Err(e),
        Ok(tag) => if tag == 0x01 {
            Ok(SpecLight::AllOff)
        } else if tag == 0x02 {
            match sdec_light_off(b.skip(1)) {
                Err(e) => Err(e),
                Ok(v) => Ok(SpecLight::Off(v)),
            }
        } else if tag == 0x03 {
            match sdec_light_on(b.skip(1)) {
                Err(e) => Err(e),
                Ok(v) => Ok(SpecLight::On(v)),
            }
        } else if tag == 0x04 {
            match sdec_light_control(b.skip(1)) {
                Err(e) => Err(e),
                Ok(v) => Ok(SpecLight::Control(v)),
            }
        } else {
            Err(Error::UnknownVariant(tag, Family::Light))
        },
    }
}

/// The value or the exact error that a preset sound payload yields.
pub open spec fn sdec_sound_preset(b: Seq<u8>) -> Result<SoundPreset, Error> {
    match srd_u8(b) {
        Err(e) => Err(e),
        Ok(ib) => match sound_preset_from(ib) {
            None => Err(Error::UnknownVariant(ib, Family::Sound)),
            Some(id) => match srd_u8(b.skip(1)) {
                Err(e) => Err(e),
                Ok(vol) => Ok(SoundPreset { id, vol }),
            },
        },
    }
}

/// The value or the exact error that one sound operation yields.
pub open spec fn sdec_sound_op(b: Seq<u8>) -> Result<SoundOp, Error> {
    match srd_u8(b) {
        Err(e) => Err(e),
        Ok(duration) => match srd_u8(b.skip(1)) {
            Err(e) => Err(e),
            Ok(nb) => match note_from(nb) {
                None => Err(Error::UnknownVariant(nb, Family::Sound)),
                Some(note) => match srd_u8(b.skip(2)) {
                    Err(e) => Err(e),
                    Ok(vol) => Ok(SoundOp { duration, note, vol }),
                },
            },
        },
    }
}

/// The operations or the exact error that a trailing sound operation
/// sequence yields: one three-byte element at a time until the end.
pub open spec fn sdec_sound_ops(b: Seq<u8>) -> Result<Seq<SoundOp>, Error>
    decreases b.len(),
{
    if b.len() == 0 {
        Ok(Seq::empty())
    } else if b.len() < 3 {
        match sdec_sound_op(b) {
            Err(e) => Err(e),
            Ok(v) => Ok(seq![v]),
        }
    } else {
        match sdec_sound_op(b) {
            Err(e) => Err(e),
            Ok(v) => match sdec_sound_ops(b.skip(3)) {
                Err(e) => Err(e),
                Ok(rest) => Ok(seq![v] + rest),
            },
        }
    }
}

/// The value or the exact error that a sound-play payload yields.
pub open spec fn sdec_sound_play(b: Seq<u8>) -> Result<SpecSoundPlay, Error> {
    match srd_u8(b) {
        Err(e) => Err(e),
        Ok(repeat) => match srd_u8(b.skip(1)) {
            Err(e) => Err(e),
            Ok(num) => match sdec_sound_ops(b.skip(2)) {
                Err(e) => Err(e),
                Ok(ops) => Ok(SpecSoundPlay { repeat, num, ops }),
            },
        },
    }
}

/// The message or the exact error that a sound buffer yields.
pub open spec fn sdec_sound(b: Seq<u8>) -> Result<SpecSound, Error> {
    match srd_u8(b) {
        Err(e) => Err(e),
        Ok(tag) => if tag == 0x01 {
            Ok(SpecSound::Stop)
        } else if tag == 0x02 {
            match sdec_sound_preset(b.skip(1)) {
                Err(e) => Err(e),
                Ok(v) => Ok(SpecSound::Preset(v)),
            }
        } else if tag == 0x03 {
            match sdec_sound_play(b.skip(1)) {
                Err(e) => Err(e),
                Ok(v) => Ok(SpecSound::Play(v)),
            }
        } else {
            Err(Error::UnknownVariant(tag, Family::Sound))
        },
    }
}

/// The value or the exact error that a version response payload yields.
pub open spec fn sdec_version_res(b: Seq<u8>) -> Result<SpecConfigVersionRes, Error> {
    match srd_u8(b) {
        Err(e) => Err(e),
        Ok(reserved) => Ok(SpecConfigVersionRes { reserved, version: spec_str_of(b.skip(1)) }),
    }
}

/// The message or the exact error that a configuration buffer yields.
pub open spec fn sdec_config(b: Seq<u8>) -> Result<SpecConfig, Error> {
    match srd_u8(b) {
        Err(e) => Err(e),
        Ok(tag) => if tag == 0x01 {
            match srd_u8(b.skip(1)) {
                Err(e) => Err(e),
                Ok(reserve) => Ok(SpecConfig::Version(ConfigVersion { reserve })),
            }
        } else if tag == 0x02 {
            match srd_u8(b.skip(1)) {
                Err(e) => Err(e),
                Ok(reserved) => match srd_u8(b.skip(2)) {
                    Err(e) => Err(e),
                    Ok(threshold) => Ok(SpecConfig::Level(ConfigLevel { reserved, threshold })),
                },
            }
        } else if tag == 0x03 {
            match srd_u8(b.skip(1)) {
                Err(e) => Err(e),
                Ok(reserved) => match srd_u8(b.skip(2)) {
                    Err(e) => Err(e),
                    Ok(threshold) => Ok(SpecConfig::Collision(ConfigCollision { reserved, threshold })),
                },
            }
        } else if tag == 0x04 {
            match srd_u8(b.skip(1)) {
                Err(e) => Err(e),
                Ok(reserved) => match srd_u8(b.skip(2)) {
                    Err(e) => Err(e),
                    Ok(interval) => Ok(SpecConfig::DoubleTap(ConfigDoubleTap { reserved, interval })),
                },
            }
        } else if tag == 0x81 {
            match sdec_version_res(b.skip(1)) {
                Err(e) => Err(e),
                Ok(v) => Ok(SpecConfig::VersionRes(v)),
            }
        } else {
            Err(Error::UnknownVariant(tag, Family::Config))
        },
    }
}

/// The message or the exact error that a buffer of the given family yields.
pub open spec fn sdec_msg(f: Family, b: Seq<u8>) -> Result<SpecMessage, Error> {
    match f {
        Family::IdReader => match sdec_id(b) {
            Err(e) => Err(e),
            Ok(v) => Ok(SpecMessage::Id(v)),
        },
        Family::Motion => match sdec_motion(b) {
            Err(e) => Err(e),
            Ok(v) => Ok(SpecMessage::Motion(v)),
        },
        Family::Button => match sdec_button(b) {
            Err(e) => Err(e),
            Ok(v) => Ok(SpecMessage::Button(v)),
        },
        Family::Battery => match srd_u8(b) {
            Err(e) => Err(e),
            Ok(v) => Ok(SpecMessage::Battery(v)),
        },
        Family::Motor => match sdec_motor(b) {
            Err(e) => Err(e),
            Ok(v) => Ok(SpecMessage::Motor(v)),
        },
        Family::Light => match sdec_light(b) {
            Err(e) => Err(e),
            Ok(v) => Ok(SpecMessage::Light(v)),
        },
        Family::Sound => match sdec_sound(b) {
            Err(e) => Err(e),
            Ok(v) => Ok(SpecMessage::Sound(v)),
        },
        Family::Config => match sdec_config(b) {
            Err(e) => Err(e),
            Ok(v) => Ok(SpecMessage::Config(v)),
        },
    }
}

/// The message or the exact error that `decode` yields for a characteristic
/// value: an unknown UUID is rejected before any byte is read.
pub open spec fn spec_decode(u: Uuid, b: Seq<u8>) -> Result<SpecMessage, Error> {
    match spec_family_of(u.bytes()) {
        None => Err(Error::UnknownCharacteristic(u)),
        Some(f) => sdec_msg(f, b),
    }
}

/// A decode result with its message taken to its mathematical value.
pub open spec fn view_res<T: View>(r: Result<T, Error>) -> Result<T::V, Error> {
    match r {
        Ok(v) => Ok(v@),
        Err(e) => Err(e),
    }
}


/// Reads the fixed twelve bytes of a position id.
fn dec_id_pos(d: &mut Deserializer) -> (r: Result<IdPos, Error>)
    requires
        old(d).wf(),
    ensures
        final(d).wf(),
        r == sdec_id_pos(old(d).remaining()),
{
    let ghost b = old(d).remaining();
    let cube_x = match d.read_u16() { Ok(v) => v, Err(e) => return Err(e) };
    assert(d.remaining() =~= b.skip(2));
    let cube_y = match d.read_u16() { Ok(v) => v, Err(e) => return Err(e) };
    assert(d.remaining() =~= b.skip(4));
    let cube_angle = match d.read_u16() { Ok(v) => v, Err(e) => return Err(e) };
    assert(d.remaining() =~= b.skip(6));
    let sensor_x = match d.read_u16() { Ok(v) => v, Err(e) => return Err(e) };
    assert(d.remaining() =~= b.skip(8));
    let sensor_y = match d.read_u16() { Ok(v) => v, Err(e) => return Err(e) };
    assert(d.remaining() =~= b.skip(10));
    let sensor_angle = match d.read_u16() { Ok(v) => v, Err(e) => return Err(e) };
    Ok(IdPos { cube_x, cube_y, cube_angle, sensor_x, sensor_y, sensor_angle })
}

/// Reads the fixed six bytes of a standard id.
fn dec_id_std(d: &mut Deserializer) -> (r: Result<IdStd, Error>)
    requires
        old(d).wf(),
    ensures
        final(d).wf(),
        r == sdec_id_std(old(d).remaining()),
{
    let ghost b = old(d).remaining();
    let value = match d.read_u32() { Ok(v) => v, Err(e) => return Err(e) };
    assert(d.remaining() =~= b.skip(4));
    let angle = match d.read_u16() { Ok(v) => v, Err(e) => return Err(e) };
    Ok(IdStd { value, angle })
}

/// Decodes an id reader buffer.
fn dec_id(d: &mut Deserializer) -> (r: Result<Id, Error>)
    requires
        old(d).wf(),
    ensures
        final(d).wf(),
        r == sdec_id(old(d).remaining()),
{
    let ghost b = old(d).remaining();
    let tag = match d.read_u8() { Ok(v) => v, Err(e) => return Err(e) };
    assert(d.remaining() =~= b.skip(1));
    if tag == 0x01 {
        match dec_id_pos(d) { Ok(v) => Ok(Id::Pos(v)), Err(e) => Err(e) }
    } else if tag == 0x02 {
        match dec_id_std(d) { Ok(v) => Ok(Id::Std(v)), Err(e) => Err(e) }
    } else if tag == 0x03 {
        Ok(Id::PosMissed)
    } else if tag == 0x04 {
        Ok(Id::StdMissed)
    } else {
        Err(Error::UnknownVariant(tag, Family::IdReader))
    }
}

/// Reads the fixed four bytes of a motion sensor state.
fn dec_motion_detect(d: &mut Deserializer) -> (r: Result<MotionDetect, Error>)
    requires
        old(d).wf(),
    ensures
        final(d).wf(),
        r == sdec_motion_detect(old(d).remaining()),
{
    let ghost b = old(d).remaining();
    let level = match d.read_bool() { Ok(v) => v, Err(e) => return Err(e) };
    assert(d.remaining() =~= b.skip(1));
    let collision = match d.read_bool() { Ok(v) => v, Err(e) => return Err(e) };
    assert(d.remaining() =~= b.skip(2));
    let double_tap = match d.read_bool() { Ok(v) => v, Err(e) => return Err(e) };
    assert(d.remaining() =~= b.skip(3));
    let pb = match d.read_u8() { Ok(v) => v, Err(e) => return Err(e) };
    let posture = match Posture::from_code(pb) {
        Some(p) => p,
        None => return Err(Error::UnknownVariant(pb, Family::Motion)),
    };
    Ok(MotionDetect { level, collision, double_tap, posture })
}

/// Decodes a motion sensor buffer.
fn dec_motion(d: &mut Deserializer) -> (r: Result<Motion, Error>)
    requires
        old(d).wf(),
    ensures
        final(d).wf(),
        r == sdec_motion(old(d).remaining()),
{
    let ghost b = old(d).remaining();
    let tag = match d.read_u8() { Ok(v) => v, Err(e) => return Err(e) };
    assert(d.remaining() =~= b.skip(1));
    if tag == 0x01 {
        match dec_motion_detect(d) { Ok(v) => Ok(Motion::Detect(v)), Err(e) => Err(e) }
    } else {
        Err(Error::UnknownVariant(tag, Family::Motion))
    }
}

/// Decodes a button buffer.
fn dec_button(d: &mut Deserializer) -> (r: Result<Button, Error>)
    requires
        old(d).wf(),
    ensures
        final(d).wf(),
        r == sdec_button(old(d).remaining()),
{
    let ghost b = old(d).remaining();
    let tag = match d.read_u8() { Ok(v) => v, Err(e) => return Err(e) };
    assert(d.remaining() =~= b.skip(1));
    if tag == 0x01 {
        let sb = match d.read_u8() { Ok(v) => v, Err(e) => return Err(e) };
        match ButtonState::from_code(sb) {
            Some(st) => Ok(Button::Func(st)),
            None => Err(Error::UnknownVariant(sb, Family::Button)),
        }
    } else {
        Err(Error::UnknownVariant(tag, Family::Button))
    }
}

/// Reads the fixed six bytes of a simple motor request.
fn dec_motor_simple(d: &mut Deserializer) -> (r: Result<MotorSimple, Error>)
    requires
        old(d).wf(),
    ensures
        final(d).wf(),
        r == sdec_motor_simple(old(d).remaining()),
        r is Ok ==> final(d).remaining() =~= old(d).remaining().skip(6),
{
    let ghost b = old(d).remaining();
    let m1 = match d.read_u8() { Ok(v) => v, Err(e) => return Err(e) };
    let motor1 = match MotorId::from_code(m1) {
        Some(v) => v,
        None => return Err(Error::UnknownVariant(m1, Family::Motor)),
    };
    assert(d.remaining() =~= b.skip(1));
    let d1 = match d.read_u8() { Ok(v) => v, Err(e) => return Err(e) };
    let dir1 = match MotorDir::from_code(d1) {
        Some(v) => v,
        None => return Err(Error::UnknownVariant(d1, Family::Motor)),
    };
    assert(d.remaining() =~= b.skip(2));
    let speed1 = match d.read_u8() { Ok(v) => v, Err(e) => return Err(e) };
    assert(d.remaining() =~= b.skip(3));
    let m2 = match d.read_u8() { Ok(v) => v, Err(e) => return Err(e) };
    let motor2 = match MotorId::from_code(m2) {
        Some(v) => v,
        None => return Err(Error::UnknownVariant(m2, Family::Motor)),
    };
    assert(d.remaining() =~= b.skip(4));
    let d2 = match d.read_u8() { Ok(v) => v, Err(e) => return Err(e) };
    let dir2 = match MotorDir::from_code(d2) {
        Some(v) => v,
        None => return Err(Error::UnknownVariant(d2, Family::Motor)),
    };
    assert(d.remaining() =~= b.skip(5));
    let speed2 = match d.read_u8() { Ok(v) => v, Err(e) => return Err(e) };
    assert(d.remaining() =~= b.skip(6));
    Ok(MotorSimple { motor1, dir1, speed1, motor2, dir2, speed2 })
}

/// Reads the fixed seven bytes of a timed motor request.
fn dec_motor_timed(d: &mut Deserializer) -> (r: Result<MotorTimed, Error>)
    requires
        old(d).wf(),
    ensures
        final(d).wf(),
        r == sdec_motor_timed(old(d).remaining()),
{
    let ghost b = old(d).remaining();
    let s = match dec_motor_simple(d) { Ok(v) => v, Err(e) => return Err(e) };
    assert(d.remaining() =~= b.skip(6));
    let duration = match d.read_u8() { Ok(v) => v, Err(e) => return Err(e) };
    Ok(MotorTimed {
        motor1: s.motor1,
        dir1: s.dir1,
        speed1: s.speed1,
        motor2: s.motor2,
        dir2: s.dir2,
        speed2: s.speed2,
        duration,
    })
}

/// Reads the fixed twelve bytes of a target-position motor request.
fn dec_motor_target(d: &mut Deserializer) -> (r: Result<MotorTarget, Error>)
    requires
        old(d).wf(),
    ensures
        final(d).wf(),
        r == sdec_motor_target(old(d).remaining()),
{
    let ghost b = old(d).remaining();
    let id = match d.read_u8() { Ok(v) => v, Err(e) => return Err(e) };
    assert(d.remaining() =~= b.skip(1));
    let timeout = match d.read_u8() { Ok(v) => v, Err(e) => return Err(e) };
    assert(d.remaining() =~= b.skip(2));
    let mt = match d.read_u8() { Ok(v) => v, Err(e) => return Err(e) };
    let move_type = match MoveType::from_code(mt) {
        Some(v) => v,
        None => return Err(Error::UnknownVariant(mt, Family::Motor)),
    };
    assert(d.remaining() =~= b.skip(3));
    let max_speed = match d.read_u8() { Ok(v) => v, Err(e) => return Err(e) };
    assert(d.remaining() =~= b.skip(4));
    let sc = match d.read_u8() { Ok(v) => v, Err(e) => return Err(e) };
    let speed_change = match SpeedChange::from_code(sc) {
        Some(v) => v,
        None => return Err(Error::UnknownVariant(sc, Family::Motor)),
    };
    assert(d.remaining() =~= b.skip(5));
    let reserved = match d.read_u8() { Ok(v) => v, Err(e) => return Err(e) };
    assert(d.remaining() =~= b.skip(6));
    let x = match d.read_u16() { Ok(v) => v, Err(e) => return Err(e) };
    assert(d.remaining() =~= b.skip(8));
    let y = match d.read_u16() { Ok(v) => v, Err(e) => return Err(e) };
    assert(d.remaining() =~= b.skip(10));
    let angle = match d.read_u16() { Ok(v) => v, Err(e) => return Err(e) };
    Ok(MotorTarget { id, timeout, move_type, max_speed, speed_change, reserved, x, y, angle })
}

/// Reads the fixed six bytes of one target position.
fn dec_target(d: &mut Deserializer) -> (r: Result<Target, Error>)
    requires
        old(d).wf(),
    ensures
        final(d).wf(),
        r == sdec_target(old(d).remaining()),
        r is Ok ==> final(d).remaining() =~= old(d).remaining().skip(6),
{
    let ghost b = old(d).remaining();
    let x = match d.read_u16() { Ok(v) => v, Err(e) => return Err(e) };
    assert(d.remaining() =~= b.skip(2));
    let y = match d.read_u16() { Ok(v) => v, Err(e) => return Err(e) };
    assert(d.remaining() =~= b.skip(4));
    let angle = match d.read_u16() { Ok(v) => v, Err(e) => return Err(e) };
    assert(d.remaining() =~= b.skip(6));
    Ok(Target { x, y, angle })
}

/// Reads target positions until the end of the buffer.
#[verifier::loop_isolation(false)]
fn dec_targets(d: &mut Deserializer) -> (r: Result<Vec<Target>, Error>)
    requires
        old(d).wf(),
    ensures
        final(d).wf(),
        match r {
            Ok(v) => sdec_targets(old(d).remaining()) == Ok::<Seq<Target>, Error>(v@),
            Err(e) => sdec_targets(old(d).remaining()) == Err::<Seq<Target>, Error>(e),
        },
{
    let ghost b0 = old(d).remaining();
    let mut out: Vec<Target> = Vec::new();
    while !d.is_empty()
        invariant
            d.wf(),
            sdec_targets(b0) == match sdec_targets(d.remaining()) {
                Ok(rest) => Ok::<Seq<Target>, Error>(out@ + rest),
                Err(e) => Err::<Seq<Target>, Error>(e),
            },
        decreases d.remaining().len(),
    {
        let ghost before = d.remaining();
        match dec_target(d) {
            Err(e) => {
                return Err(e);
            }
            Ok(t) => {
                proof {
                    assert(before.len() >= 6);
                    assert(sdec_targets(before) == match sdec_targets(before.skip(6)) {
                        Ok(rest) => Ok::<Seq<Target>, Error>(seq![t] + rest),
                        Err(e) => Err::<Seq<Target>, Error>(e),
                    });
                }
                let ghost prev = out@;
                out.push(t);
                proof {
                    if sdec_targets(d.remaining()) is Ok {
                        let rest = sdec_targets(d.remaining())->Ok_0;
                        assert(out@ + rest =~= prev + (seq![t] + rest));
                    }
                }
            }
        }
    }
    assert(sdec_targets(d.remaining()) == Ok::<Seq<Target>, Error>(Seq::empty()));
    assert(out@ + Seq::<Target>::empty() =~= out@);
    Ok(out)
}

/// Reads a multi-target motor payload: the fixed header, then targets to
/// the end of the buffer.
fn dec_motor_multi(d: &mut Deserializer) -> (r: Result<MotorMultiTarget, Error>)
    requires
        old(d).wf(),
    ensures
        final(d).wf(),
        view_res(r) == sdec_motor_multi(old(d).remaining()),
{
    let ghost b = old(d).remaining();
    let id = match d.read_u8() { Ok(v) => v, Err(e) => return Err(e) };
    assert(d.remaining() =~= b.skip(1));
    let timeout = match d.read_u8() { Ok(v) => v, Err(e) => return Err(e) };
    assert(d.remaining() =~= b.skip(2));
    let mt = match d.read_u8() { Ok(v) => v, Err(e) => return Err(e) };
    let move_type = match MoveType::from_code(mt) {
        Some(v) => v,
        None => return Err(Error::UnknownVariant(mt, Family::Motor)),
    };
    assert(d.remaining() =~= b.skip(3));
    let max_speed = match d.read_u8() { Ok(v) => v, Err(e) => return Err(e) };
    assert(d.remaining() =~= b.skip(4));
    let sc = match d.read_u8() { Ok(v) => v, Err(e) => return Err(e) };
    let speed_change = match SpeedChange::from_code(sc) {
        Some(v) => v,
        None => return Err(Error::UnknownVariant(sc, Family::Motor)),
    };
    assert(d.remaining() =~= b.skip(5));
    let reserved = match d.read_u8() { Ok(v) => v, Err(e) => return Err(e) };
    assert(d.remaining() =~= b.skip(6));
    let wo = match d.read_u8() { Ok(v) => v, Err(e) => return Err(e) };
    let writeopt = match WriteOpt::from_code(wo) {
        Some(v) => v,
        None => return Err(Error::UnknownVariant(wo, Family::Motor)),
    };
    assert(d.remaining() =~= b.skip(7));
    let targets = match dec_targets(d) { Ok(v) => v, Err(e) => return Err(e) };
    Ok(MotorMultiTarget { id, timeout, move_type, max_speed, speed_change, reserved, writeopt, targets })
}

/// Reads the fixed nine bytes of an acceleration motor request.
fn dec_motor_acc(d: &mut Deserializer) -> (r: Result<MotorAcc, Error>)
    requires
        old(d).wf(),
    ensures
        final(d).wf(),
        r == sdec_motor_acc(old(d).remaining()),
{
    let ghost b = old(d).remaining();
    let id = match d.read_u8() { Ok(v) => v, Err(e) => return Err(e) };
    assert(d.remaining() =~= b.skip(1));
    let speed = match d.read_u8() { Ok(v) => v, Err(e) => return Err(e) };
    assert(d.remaining() =~= b.skip(2));
    let acc = match d.read_u8() { Ok(v) => v, Err(e) => return Err(e) };
    assert(d.remaining() =~= b.skip(3));
    let rotate_speed = match d.read_u16() { Ok(v) => v, Err(e) => return Err(e) };
    assert(d.remaining() =~= b.skip(5));
    let rd = match d.read_u8() { Ok(v) => v, Err(e) => return Err(e) };
    let rotate_dir = match MotorCubeDir::from_code(rd) {
        Some(v) => v,
        None => return Err(Error::UnknownVariant(rd, Family::Motor)),
    };
    assert(d.remaining() =~= b.skip(6));
    let td = match d.read_u8() { Ok(v) => v, Err(e) => return Err(e) };
    let trans_dir = match MotorCubeDir::from_code(td) {
        Some(v) => v,
        None => return Err(Error::UnknownVariant(td, Family::Motor)),
    };
    assert(d.remaining() =~= b.skip(7));
    let pr = match d.read_u8() { Ok(v) => v, Err(e) => return Err(e) };
    let prio = match MotorPriority::from_code(pr) {
        Some(v) => v,
        None => return Err(Error::UnknownVariant(pr, Family::Motor)),
    };
    assert(d.remaining() =~= b.skip(8));
    let duration = match d.read_u8() { Ok(v) => v, Err(e) => return Err(e) };
    Ok(MotorAcc { id, speed, acc, rotate_speed, rotate_dir, trans_dir, prio, duration })
}

/// Reads the fixed two bytes of a target response.
fn dec_motor_target_res(d: &mut Deserializer) -> (r: Result<MotorTargetRes, Error>)
    requires
        old(d).wf(),
    ensures
        final(d).wf(),
        r == sdec_motor_target_res(old(d).remaining()),
{
    let ghost b = old(d).remaining();
    let id = match d.read_u8() { Ok(v) => v, Err(e) => return Err(e) };
    assert(d.remaining() =~= b.skip(1));
    let rv = match d.read_u8() { Ok(v) => v, Err(e) => return Err(e) };
    match TargetResValue::from_code(rv) {
        Some(res) => Ok(MotorTargetRes { id, res }),
        None => Err(Error::UnknownVariant(rv, Family::Motor)),
    }
}

/// Decodes a motor buffer.
fn dec_motor(d: &mut Deserializer) -> (r: Result<Motor, Error>)
    requires
        old(d).wf(),
    ensures
        final(d).wf(),
        view_res(r) == sdec_motor(old(d).remaining()),
{
    let ghost b = old(d).remaining();
    let tag = match d.read_u8() { Ok(v) => v, Err(e) => return Err(e) };
    assert(d.remaining() =~= b.skip(1));
    if tag == 0x01 {
        match dec_motor_simple(d) { Ok(v) => Ok(Motor::Simple(v)), Err(e) => Err(e) }
    } else if tag == 0x02 {
        match dec_motor_timed(d) { Ok(v) => Ok(Motor::Timed(v)), Err(e) => Err(e) }
    } else if tag == 0x03 {
        match dec_motor_target(d) { Ok(v) => Ok(Motor::Target(v)), Err(e) => Err(e) }
    } else if tag == 0x04 {
        match dec_motor_multi(d) { Ok(v) => Ok(Motor::MultiTarget(v)), Err(e) => Err(e) }
    } else if tag == 0x05 {
        match dec_motor_acc(d) { Ok(v) => Ok(Motor::Acc(v)), Err(e) => Err(e) }
    } else if tag == 0x83 {
        match dec_motor_target_res(d) { Ok(v) => Ok(Motor::TargetRes(v)), Err(e) => Err(e) }
    } else if tag == 0x84 {
        match dec_motor_target_res(d) { Ok(v) => Ok(Motor::MultiTargetRes(v)), Err(e) => Err(e) }
    } else {
        Err(Error::UnknownVariant(tag, Family::Motor))
    }
}

/// Reads the fixed six bytes of a light-on request.
fn dec_light_on(d: &mut Deserializer) -> (r: Result<LightOn, Error>)
    requires
        old(d).wf(),
    ensures
        final(d).wf(),
        r == sdec_light_on(old(d).remaining()),
        r is Ok ==> final(d).remaining() =~= old(d).remaining().skip(6),
{
    let ghost b = old(d).remaining();
    let duration = match d.read_u8() { Ok(v) => v, Err(e) => return Err(e) };
    assert(d.remaining() =~= b.skip(1));
    let num = match d.read_u8() { Ok(v) => v, Err(e) => return Err(e) };
    assert(d.remaining() =~= b.skip(2));
    let id = match d.read_u8() { Ok(v) => v, Err(e) => return Err(e) };
    assert(d.remaining() =~= b.skip(3));
    let red = match d.read_u8() { Ok(v) => v, Err(e) => return Err(e) };
    assert(d.remaining() =~= b.skip(4));
    let green = match d.read_u8() { Ok(v) => v, Err(e) => return Err(e) };
    assert(d.remaining() =~= b.skip(5));
    let blue = match d.read_u8() { Ok(v) => v, Err(e) => return Err(e) };
    assert(d.remaining() =~= b.skip(6));
    Ok(LightOn { duration, num, id, red, green, blue })
}

/// Reads light operations until the end of the buffer.
#[verifier::loop_isolation(false)]
fn dec_light_ops(d: &mut Deserializer) -> (r: Result<Vec<LightOn>, Error>)
    requires
        old(d).wf(),
    ensures
        final(d).wf(),
        match r {
            Ok(v) => sdec_light_ops(old(d).remaining()) == Ok::<Seq<LightOn>, Error>(v@),
            Err(e) => sdec_light_ops(old(d).remaining()) == Err::<Seq<LightOn>, Error>(e),
        },
{
    let ghost b0 = old(d).remaining();
    let mut out: Vec<LightOn> = Vec::new();
    while !d.is_empty()
        invariant
            d.wf(),
            sdec_light_ops(b0) == match sdec_light_ops(d.remaining()) {
                Ok(rest) => Ok::<Seq<LightOn>, Error>(out@ + rest),
                Err(e) => Err::<Seq<LightOn>, Error>(e),
            },
        decreases d.remaining().len(),
    {
        let ghost before = d.remaining();
        match dec_light_on(d) {
            Err(e) => {
                return Err(e);
            }
            Ok(t) => {
                proof {
                    assert(before.len() >= 6);
                    assert(sdec_light_ops(before) == match sdec_light_ops(before.skip(6)) {
                        Ok(rest) => Ok::<Seq<LightOn>, Error>(seq![t] + rest),
                        Err(e) => Err::<Seq<LightOn>, Error>(e),
                    });
                }
                let ghost prev = out@;
                out.push(t);
                proof {
                    if sdec_light_ops(d.remaining()) is Ok {
                        let rest = sdec_light_ops(d.remaining())->Ok_0;
                        assert(out@ + rest =~= prev + (seq![t] + rest));
                    }
                }
            }
        }
    }
    assert(sdec_light_ops(d.remaining()) == Ok::<Seq<LightOn>, Error>(Seq::empty()));
    assert(out@ + Seq::<LightOn>::empty() =~= out@);
    Ok(out)
}

/// Decodes a light buffer.
fn dec_light(d: &mut Deserializer) -> (r: Result<Light, Error>)
    requires
        old(d).wf(),
    ensures
        final(d).wf(),
        view_res(r) == sdec_light(old(d).remaining()),
{
    let ghost b = old(d).remaining();
    let tag = match d.read_u8() { Ok(v) => v, Err(e) => return Err(e) };
    assert(d.remaining() =~= b.skip(1));
    if tag == 0x01 {
        Ok(Light::AllOff)
    } else if tag == 0x02 {
        let num = match d.read_u8() { Ok(v) => v, Err(e) => return Err(e) };
        assert(d.remaining() =~= b.skip(2));
        let id = match d.read_u8() { Ok(v) => v, Err(e) => return Err(e) };
        Ok(Light::Off(LightOff { num, id }))
    } else if tag == 0x03 {
        match dec_light_on(d) { Ok(v) => Ok(Light::On(v)), Err(e) => Err(e) }
    } else if tag == 0x04 {
        let repeat = match d.read_u8() { Ok(v) => v, Err(e) => return Err(e) };
        assert(d.remaining() =~= b.skip(2));
        let num = match d.read_u8() { Ok(v) => v, Err(e) => return Err(e) };
        assert(d.remaining() =~= b.skip(3));
        assert(b.skip(1).skip(2) =~= b.skip(3));
        let ops = match dec_light_ops(d) { Ok(v) => v, Err(e) => return Err(e) };
        Ok(Light::Control(LightControl { repeat, num, ops }))
    } else {
        Err(Error::UnknownVariant(tag, Family::Light))
    }
}

/// Reads the fixed three bytes of one sound operation.
fn dec_sound_op(d: &mut Deserializer) -> (r: Result<SoundOp, Error>)
    requires
        old(d).wf(),
    ensures
        final(d).wf(),
        r == sdec_sound_op(old(d).remaining()),
        r is Ok ==> final(d).remaining() =~= old(d).remaining().skip(3),
{
    let ghost b = old(d).remaining();
    let duration = match d.read_u8() { Ok(v) => v, Err(e) => return Err(e) };
    assert(d.remaining() =~= b.skip(1));
    let nb = match d.read_u8() { Ok(v) => v, Err(e) => return Err(e) };
    let note = match Note::from_code(nb) {
        Some(v) => v,
        None => return Err(Error::UnknownVariant(nb, Family::Sound)),
    };
    assert(d.remaining() =~= b.skip(2));
    let vol = match d.read_u8() { Ok(v) => v, Err(e) => return Err(e) };
    assert(d.remaining() =~= b.skip(3));
    Ok(SoundOp { duration, note, vol })
}

/// Reads sound operations until the end of the buffer.
#[verifier::loop_isolation(false)]
fn dec_sound_ops(d: &mut Deserializer) -> (r: Result<Vec<SoundOp>, Error>)
    requires
        old(d).wf(),
    ensures
        final(d).wf(),
        match r {
            Ok(v) => sdec_sound_ops(old(d).remaining()) == Ok::<Seq<SoundOp>, Error>(v@),
            Err(e) => sdec_sound_ops(old(d).remaining()) == Err::<Seq<SoundOp>, Error>(e),
        },
{
    let ghost b0 = old(d).remaining();
    let mut out: Vec<SoundOp> = Vec::new();
    while !d.is_empty()
        invariant
            d.wf(),
            sdec_sound_ops(b0) == match sdec_sound_ops(d.remaining()) {
                Ok(rest) => Ok::<Seq<SoundOp>, Error>(out@ + rest),
                Err(e) => Err::<Seq<SoundOp>, Error>(e),
            },
        decreases d.remaining().len(),
    {
        let ghost before = d.remaining();
        match dec_sound_op(d) {
            Err(e) => {
                return Err(e);
            }
            Ok(t) => {
                proof {
                    assert(before.len() >= 3);
                    assert(sdec_sound_ops(before) == match sdec_sound_ops(before.skip(3)) {
                        Ok(rest) => Ok::<Seq<SoundOp>, Error>(seq![t] + rest),
                        Err(e) => Err::<Seq<SoundOp>, Error>(e),
                    });
                }
                let ghost prev = out@;
                out.push(t);
                proof {
                    if sdec_sound_ops(d.remaining()) is Ok {
                        let rest = sdec_sound_ops(d.remaining())->Ok_0;
                        assert(out@ + rest =~= prev + (seq![t] + rest));
                    }
                }
            }
        }
    }
    assert(sdec_sound_ops(d.remaining()) == Ok::<Seq<SoundOp>, Error>(Seq::empty()));
    assert(out@ + Seq::<SoundOp>::empty() =~= out@);
    Ok(out)
}

/// Decodes a sound buffer.
fn dec_sound(d: &mut Deserializer) -> (r: Result<Sound, Error>)
    requires
        old(d).wf(),
    ensures
        final(d).wf(),
        view_res(r) == sdec_sound(old(d).remaining()),
{
    let ghost b = old(d).remaining();
    let tag = match d.read_u8() { Ok(v) => v, Err(e) => return Err(e) };
    assert(d.remaining() =~= b.skip(1));
    if tag == 0x01 {
        Ok(Sound::Stop)
    } else if tag == 0x02 {
        let ib = match d.read_u8() { Ok(v) => v, Err(e) => return Err(e) };
        let id = match SoundPresetId::from_code(ib) {
            Some(v) => v,
            None => return Err(Error::UnknownVariant(ib, Family::Sound)),
        };
        assert(d.remaining() =~= b.skip(2));
        let vol = match d.read_u8() { Ok(v) => v, Err(e) => return Err(e) };
        Ok(Sound::Preset(SoundPreset { id, vol }))
    } else if tag == 0x03 {
        let repeat = match d.read_u8() { Ok(v) => v, Err(e) => return Err(e) };
        assert(d.remaining() =~= b.skip(2));
        let num = match d.read_u8() { Ok(v) => v, Err(e) => return Err(e) };
        assert(d.remaining() =~= b.skip(3));
        assert(b.skip(1).skip(2) =~= b.skip(3));
        let ops = match dec_sound_ops(d) { Ok(v) => v, Err(e) => return Err(e) };
        Ok(Sound::Play(SoundPlay { repeat, num, ops }))
    } else {
        Err(Error::UnknownVariant(tag, Family::Sound))
    }
}

/// Decodes a configuration buffer.
fn dec_config(d: &mut Deserializer) -> (r: Result<Config, Error>)
    requires
        old(d).wf(),
    ensures
        final(d).wf(),
        view_res(r) == sdec_config(old(d).remaining()),
{
    let ghost b = old(d).remaining();
    let tag = match d.read_u8() { Ok(v) => v, Err(e) => return Err(e) };
    assert(d.remaining() =~= b.skip(1));
    if tag == 0x01 {
        let reserve = match d.read_u8() { Ok(v) => v, Err(e) => return Err(e) };
        Ok(Config::Version(ConfigVersion { reserve }))
    } else if tag == 0x02 {
        let reserved = match d.read_u8() { Ok(v) => v, Err(e) => return Err(e) };
        assert(d.remaining() =~= b.skip(2));
        let threshold = match d.read_u8() { Ok(v) => v, Err(e) => return Err(e) };
        Ok(Config::Level(ConfigLevel { reserved, threshold }))
    } else if tag == 0x03 {
        let reserved = match d.read_u8() { Ok(v) => v, Err(e) => return Err(e) };
        assert(d.remaining() =~= b.skip(2));
        let threshold = match d.read_u8() { Ok(v) => v, Err(e) => return Err(e) };
        Ok(Config::Collision(ConfigCollision { reserved, threshold }))
    } else if tag == 0x04 {
        let reserved = match d.read_u8() { Ok(v) => v, Err(e) => return Err(e) };
        assert(d.remaining() =~= b.skip(2));
        let interval = match d.read_u8() { Ok(v) => v, Err(e) => return Err(e) };
        Ok(Config::DoubleTap(ConfigDoubleTap { reserved, interval }))
    } else if tag == 0x81 {
        let reserved = match d.read_u8() { Ok(v) => v, Err(e) => return Err(e) };
        assert(d.remaining() =~= b.skip(2));
        assert(b.skip(1).skip(1) =~= b.skip(2));
        let version = d.parse_str();
        Ok(Config::VersionRes(ConfigVersionRes { reserved, version }))
    } else {
        Err(Error::UnknownVariant(tag, Family::Config))
    }
}

/// Reads the battery level: the single raw byte of the battery
/// characteristic, which carries no tag. Extra bytes are ignored.
pub fn unpack_battery(v: &[u8]) -> (r: Result<u8, Error>)
    ensures
        r == srd_u8(v@),
{
    let mut d = Deserializer::new(v);
    d.read_u8()
}

/// Unpacks one characteristic value: looks the UUID up in the catalog and
/// decodes the buffer by the family's variant table. Yields exactly the
/// message or the error that `spec_decode` gives the bytes.
pub fn decode(uuid: &Uuid, buf: &[u8]) -> (r: Result<Message, Error>)
    ensures
        view_res(r) == spec_decode(*uuid, buf@),
{
    let fam = match crate::proto::family_of_uuid(uuid) {
        Some(f) => f,
        None => return Err(Error::UnknownCharacteristic(*uuid)),
    };
    let mut d = Deserializer::new(buf);
    match fam {
        Family::IdReader => match dec_id(&mut d) {
            Ok(v) => Ok(Message::Id(v)),
            Err(e) => Err(e),
        },
        Family::Motion => match dec_motion(&mut d) {
            Ok(v) => Ok(Message::Motion(v)),
            Err(e) => Err(e),
        },
        Family::Button => match dec_button(&mut d) {
            Ok(v) => Ok(Message::Button(v)),
            Err(e) => Err(e),
        },
        Family::Battery => match d.read_u8() {
            Ok(v) => Ok(Message::Battery(v)),
            Err(e) => Err(e),
        },
        Family::Motor => match dec_motor(&mut d) {
            Ok(v) => Ok(Message::Motor(v)),
            Err(e) => Err(e),
        },
        Family::Light => match dec_light(&mut d) {
            Ok(v) => Ok(Message::Light(v)),
            Err(e) => Err(e),
        },
        Family::Sound => match dec_sound(&mut d) {
            Ok(v) => Ok(Message::Sound(v)),
            Err(e) => Err(e),
        },
        Family::Config => match dec_config(&mut d) {
            Ok(v) => Ok(Message::Config(v)),
            Err(e) => Err(e),
        },
    }
}


/// The characteristic catalog is sound: each family's UUID looks up that
/// family and no other.
pub proof fn lemma_catalog_sound(f: Family)
    ensures
        spec_family_of(spec_uuid_bytes(f)) == Some(f),
{
    assert(crate::proto::spec_service_uuid().len() == 16);
    assert(spec_uuid_bytes(Family::IdReader)[3] == 0x01);
    assert(spec_uuid_bytes(Family::Motor)[3] == 0x02);
    assert(spec_uuid_bytes(Family::Light)[3] == 0x03);
    assert(spec_uuid_bytes(Family::Sound)[3] == 0x04);
    assert(spec_uuid_bytes(Family::Motion)[3] == 0x06);
    assert(spec_uuid_bytes(Family::Button)[3] == 0x07);
    assert(spec_uuid_bytes(Family::Battery)[3] == 0x08);
    assert(spec_uuid_bytes(Family::Config)[3] == 0xff);
}

/// Little-endian byte split of a 16-bit integer is lossless.
proof fn lemma_u16_parts(x: u16)
    ensures
        x % 0x100 + 0x100 * (x / 0x100) == x,
{
    assert(x % 0x100 + 0x100 * (x / 0x100) == x) by (bit_vector);
}

/// Little-endian byte split of a 32-bit integer is lossless.
proof fn lemma_u32_parts(x: u32)
    ensures
        x % 0x100 + 0x100 * ((x / 0x100) % 0x100) + 0x10000 * ((x / 0x10000) % 0x100)
            + 0x1000000 * (x / 0x1000000) == x,
{
    assert(x % 0x100 + 0x100 * ((x / 0x100) % 0x100) + 0x10000 * ((x / 0x10000) % 0x100)
        + 0x1000000 * (x / 0x1000000) == x) by (bit_vector);
}

/// Decoding the encoding of a position id gives it back.
proof fn lemma_rt_id_pos(p: IdPos, b: Seq<u8>)
    requires
        b == crate::encode::spec_enc_id_pos(p),
    ensures
        sdec_id_pos(b) == Ok::<IdPos, Error>(p),
{
    lemma_u16_parts(p.cube_x);
    lemma_u16_parts(p.cube_y);
    lemma_u16_parts(p.cube_angle);
    lemma_u16_parts(p.sensor_x);
    lemma_u16_parts(p.sensor_y);
    lemma_u16_parts(p.sensor_angle);
    assert(b.len() == 12);
    assert(b.skip(2) =~= crate::encode::spec_u16_le(p.cube_y) + crate::encode::spec_u16_le(p.cube_angle)
        + crate::encode::spec_u16_le(p.sensor_x) + crate::encode::spec_u16_le(p.sensor_y)
        + crate::encode::spec_u16_le(p.sensor_angle));
    assert(sdec_id_pos(b) == Ok::<IdPos, Error>(p));
}


/// Decoding the encoding of a standard id gives it back.
proof fn lemma_rt_id_std(p: IdStd, b: Seq<u8>)
    requires
        b == crate::encode::spec_enc_id_std(p),
    ensures
        sdec_id_std(b) == Ok::<IdStd, Error>(p),
{
    lemma_u32_parts(p.value);
    lemma_u16_parts(p.angle);
    assert(b.len() == 6);
    assert(b.skip(4) =~= crate::encode::spec_u16_le(p.angle));
}

/// Decoding the encoding of an id reader message gives it back.
proof fn lemma_rt_id(m: Id)
    ensures
        sdec_id(crate::encode::spec_enc_id(m)) == Ok::<Id, Error>(m),
{
    let b = crate::encode::spec_enc_id(m);
    match m {
        Id::Pos(p) => {
            assert(b.skip(1) =~= crate::encode::spec_enc_id_pos(p));
            lemma_rt_id_pos(p, b.skip(1));
        }
        Id::Std(p) => {
            assert(b.skip(1) =~= crate::encode::spec_enc_id_std(p));
            lemma_rt_id_std(p, b.skip(1));
        }
        Id::PosMissed => {
        }
        Id::StdMissed => {
        }
    }
}

/// Decoding the encoding of a motion sensor state gives it back.
proof fn lemma_rt_motion_detect(m: MotionDetect, b: Seq<u8>)
    requires
        b == crate::encode::spec_enc_motion_detect(m),
    ensures
        sdec_motion_detect(b) == Ok::<MotionDetect, Error>(m),
{
}

/// Decoding the encoding of a motion message gives it back.
proof fn lemma_rt_motion(m: Motion)
    ensures
        sdec_motion(crate::encode::spec_enc_motion(m)) == Ok::<Motion, Error>(m),
{
    let b = crate::encode::spec_enc_motion(m);
    match m {
        Motion::Detect(d) => {
            assert(b.skip(1) =~= crate::encode::spec_enc_motion_detect(d));
            lemma_rt_motion_detect(d, b.skip(1));
        }
    }
}

/// Decoding the encoding of a button message gives it back.
proof fn lemma_rt_button(m: Button)
    ensures
        sdec_button(crate::encode::spec_enc_button(m)) == Ok::<Button, Error>(m),
{
    let b = crate::encode::spec_enc_button(m);
    match m {
        Button::Func(st) => {
            assert(b.skip(1) =~= seq![crate::proto::button_state_code(st)]);
        }
    }
}

/// Decoding the encoding of a simple motor request gives it back.
proof fn lemma_rt_motor_simple(m: MotorSimple, b: Seq<u8>)
    requires
        b == crate::encode::spec_enc_motor_simple(m),
    ensures
        sdec_motor_simple(b) == Ok::<MotorSimple, Error>(m),
{
}

/// Decoding the encoding of a timed motor request gives it back.
proof fn lemma_rt_motor_timed(m: MotorTimed, b: Seq<u8>)
    requires
        b == crate::encode::spec_enc_motor_timed(m),
    ensures
        sdec_motor_timed(b) == Ok::<MotorTimed, Error>(m),
{
}

/// Decoding the encoding of a target-position request gives it back.
proof fn lemma_rt_motor_target(m: MotorTarget, b: Seq<u8>)
    requires
        b == crate::encode::spec_enc_motor_target(m),
    ensures
        sdec_motor_target(b) == Ok::<MotorTarget, Error>(m),
{
    lemma_u16_parts(m.x);
    lemma_u16_parts(m.y);
    lemma_u16_parts(m.angle);
    assert(b.len() == 12);
    assert(b.skip(6) =~= crate::encode::spec_u16_le(m.x) + crate::encode::spec_u16_le(m.y)
        + crate::encode::spec_u16_le(m.angle));
}

/// Decoding the first six bytes of a buffer that starts with the encoding
/// of a target position gives it back.
proof fn lemma_rt_target(t: Target, b: Seq<u8>)
    requires
        b.len() >= 6,
        b.take(6) =~= crate::encode::spec_enc_target(t),
    ensures
        sdec_target(b) == Ok::<Target, Error>(t),
{
    lemma_u16_parts(t.x);
    lemma_u16_parts(t.y);
    lemma_u16_parts(t.angle);
    assert(b.take(6)[0] == b[0] && b.take(6)[1] == b[1] && b.take(6)[2] == b[2] && b.take(6)[3]
        == b[3] && b.take(6)[4] == b[4] && b.take(6)[5] == b[5]);
    assert(b[0] == t.x % 0x100 && b[1] == t.x / 0x100);
    assert(b[2] == t.y % 0x100 && b[3] == t.y / 0x100);
    assert(b[4] == t.angle % 0x100 && b[5] == t.angle / 0x100);
    assert(b.skip(2)[0] == b[2] && b.skip(2)[1] == b[3]);
    assert(b.skip(4)[0] == b[4] && b.skip(4)[1] == b[5]);
}

/// A target sequence encodes to six bytes per element.
proof fn lemma_enc_targets_len(ts: Seq<Target>)
    ensures
        crate::encode::spec_enc_targets(ts).len() == 6 * ts.len(),
    decreases ts.len(),
{
    if ts.len() != 0 {
        lemma_enc_targets_len(ts.drop_first());
    }
}

/// Decoding the encoding of a target sequence gives exactly it back.
proof fn lemma_rt_targets(ts: Seq<Target>)
    ensures
        sdec_targets(crate::encode::spec_enc_targets(ts)) == Ok::<Seq<Target>, Error>(ts),
    decreases ts.len(),
{
    let b = crate::encode::spec_enc_targets(ts);
    lemma_enc_targets_len(ts);
    if ts.len() == 0 {
        assert(ts =~= Seq::<Target>::empty());
    } else {
        assert(b.take(6) =~= crate::encode::spec_enc_target(ts[0]));
        lemma_rt_target(ts[0], b);
        assert(b.skip(6) =~= crate::encode::spec_enc_targets(ts.drop_first()));
        lemma_rt_targets(ts.drop_first());
        assert(sdec_targets(b.skip(6)) == Ok::<Seq<Target>, Error>(ts.drop_first()));
        assert(seq![ts[0]] + ts.drop_first() =~= ts);
    }
}

/// Decoding the encoding of a multi-target request gives it back.
proof fn lemma_rt_motor_multi(m: SpecMotorMultiTarget, b: Seq<u8>)
    requires
        b == crate::encode::spec_enc_motor_multi(m),
    ensures
        sdec_motor_multi(b) == Ok::<SpecMotorMultiTarget, Error>(m),
{
    assert(b.skip(7) =~= crate::encode::spec_enc_targets(m.targets));
    lemma_rt_targets(m.targets);
    assert(sdec_targets(b.skip(7)) == Ok::<Seq<Target>, Error>(m.targets));
    assert(sdec_motor_multi(b)->Ok_0 =~= m);
}

/// Decoding the encoding of an acceleration request gives it back.
proof fn lemma_rt_motor_acc(m: MotorAcc, b: Seq<u8>)
    requires
        b == crate::encode::spec_enc_motor_acc(m),
    ensures
        sdec_motor_acc(b) == Ok::<MotorAcc, Error>(m),
{
    lemma_u16_parts(m.rotate_speed);
    assert(b.len() == 9);
    assert(b.skip(3) =~= crate::encode::spec_u16_le(m.rotate_speed) + seq![
        crate::proto::motor_cube_dir_code(m.rotate_dir),
        crate::proto::motor_cube_dir_code(m.trans_dir),
        crate::proto::motor_priority_code(m.prio),
        m.duration,
    ]);
}

/// Decoding the encoding of a target response gives it back.
proof fn lemma_rt_motor_target_res(m: MotorTargetRes, b: Seq<u8>)
    requires
        b == crate::encode::spec_enc_motor_target_res(m),
    ensures
        sdec_motor_target_res(b) == Ok::<MotorTargetRes, Error>(m),
{
}

/// Decoding the encoding of a motor message gives it back.
#[verifier::rlimit(60)]
proof fn lemma_rt_motor(m: SpecMotor)
    ensures
        sdec_motor(crate::encode::spec_enc_motor(m)) == Ok::<SpecMotor, Error>(m),
{
    let b = crate::encode::spec_enc_motor(m);
    match m {
        SpecMotor::Simple(v) => {
            assert(b.skip(1) =~= crate::encode::spec_enc_motor_simple(v));
            lemma_rt_motor_simple(v, b.skip(1));
        }
        SpecMotor::Timed(v) => {
            assert(b.skip(1) =~= crate::encode::spec_enc_motor_timed(v));
            lemma_rt_motor_timed(v, b.skip(1));
        }
        SpecMotor::Target(v) => {
            assert(b.skip(1) =~= crate::encode::spec_enc_motor_target(v));
            lemma_rt_motor_target(v, b.skip(1));
        }
        SpecMotor::MultiTarget(v) => {
            assert(b.skip(1) =~= crate::encode::spec_enc_motor_multi(v));
            lemma_rt_motor_multi(v, b.skip(1));
        }
        SpecMotor::Acc(v) => {
            assert(b.skip(1) =~= crate::encode::spec_enc_motor_acc(v));
            lemma_rt_motor_acc(v, b.skip(1));
        }
        SpecMotor::TargetRes(v) => {
            assert(b.skip(1) =~= crate::encode::spec_enc_motor_target_res(v));
            lemma_rt_motor_target_res(v, b.skip(1));
        }
        SpecMotor::MultiTargetRes(v) => {
            assert(b.skip(1) =~= crate::encode::spec_enc_motor_target_res(v));
            lemma_rt_motor_target_res(v, b.skip(1));
        }
    }
}

/// Decoding the first six bytes of a buffer that starts with the encoding
/// of a light operation gives it back.
proof fn lemma_rt_light_on(m: LightOn, b: Seq<u8>)
    requires
        b.len() >= 6,
        b.take(6) =~= crate::encode::spec_enc_light_on(m),
    ensures
        sdec_light_on(b) == Ok::<LightOn, Error>(m),
{
    assert(b[0] == m.duration && b[1] == m.num && b[2] == m.id && b[3] == m.red && b[4] == m.green
        && b[5] == m.blue);
}

/// A light operation sequence encodes to six bytes per element.
proof fn lemma_enc_light_ops_len(ops: Seq<LightOn>)
    ensures
        crate::encode::spec_enc_light_ops(ops).len() == 6 * ops.len(),
    decreases ops.len(),
{
    if ops.len() != 0 {
        lemma_enc_light_ops_len(ops.drop_first());
    }
}

/// Decoding the encoding of a light operation sequence gives exactly it back.
proof fn lemma_rt_light_ops(ops: Seq<LightOn>)
    ensures
        sdec_light_ops(crate::encode::spec_enc_light_ops(ops)) == Ok::<Seq<LightOn>, Error>(ops),
    decreases ops.len(),
{
    let b = crate::encode::spec_enc_light_ops(ops);
    lemma_enc_light_ops_len(ops);
    if ops.len() == 0 {
        assert(ops =~= Seq::<LightOn>::empty());
    } else {
        assert(b.take(6) =~= crate::encode::spec_enc_light_on(ops[0]));
        lemma_rt_light_on(ops[0], b);
        assert(b.skip(6) =~= crate::encode::spec_enc_light_ops(ops.drop_first()));
        lemma_rt_light_ops(ops.drop_first());
        assert(sdec_light_ops(b.skip(6)) == Ok::<Seq<LightOn>, Error>(ops.drop_first()));
        assert(seq![ops[0]] + ops.drop_first() =~= ops);
    }
}

/// Decoding the encoding of a light-control request gives it back.
proof fn lemma_rt_light_control(m: SpecLightControl, b: Seq<u8>)
    requires
        b == crate::encode::spec_enc_light_control(m),
    ensures
        sdec_light_control(b) == Ok::<SpecLightControl, Error>(m),
{
    assert(b.skip(2) =~= crate::encode::spec_enc_light_ops(m.ops));
    lemma_rt_light_ops(m.ops);
    assert(sdec_light_ops(b.skip(2)) == Ok::<Seq<LightOn>, Error>(m.ops));
    assert(sdec_light_control(b)->Ok_0 =~= m);
}

/// Decoding the encoding of a light message gives it back.
proof fn lemma_rt_light(m: SpecLight)
    ensures
        sdec_light(crate::encode::spec_enc_light(m)) == Ok::<SpecLight, Error>(m),
{
    let b = crate::encode::spec_enc_light(m);
    match m {
        SpecLight::AllOff => {
        }
        SpecLight::Off(v) => {
            assert(b.skip(1) =~= crate::encode::spec_enc_light_off(v));
        }
        SpecLight::On(v) => {
            assert(b.skip(1) =~= crate::encode::spec_enc_light_on(v));
            lemma_rt_light_on(v, b.skip(1));
        }
        SpecLight::Control(v) => {
            assert(b.skip(1) =~= crate::encode::spec_enc_light_control(v));
            lemma_rt_light_control(v, b.skip(1));
        }
    }
}

/// Reading a note back from its backing byte gives the note.
proof fn lemma_note_rt(n: Note)
    ensures
        note_from(crate::note::note_code(n)) == Some(n),
{
}

/// Decoding the first three bytes of a buffer that starts with the encoding
/// of a sound operation gives it back.
proof fn lemma_rt_sound_op(m: SoundOp, b: Seq<u8>)
    requires
        b.len() >= 3,
        b.take(3) =~= crate::encode::spec_enc_sound_op(m),
    ensures
        sdec_sound_op(b) == Ok::<SoundOp, Error>(m),
{
    lemma_note_rt(m.note);
    assert(b[0] == m.duration && b[1] == crate::note::note_code(m.note) && b[2] == m.vol);
}

/// A sound operation sequence encodes to three bytes per element.
proof fn lemma_enc_sound_ops_len(ops: Seq<SoundOp>)
    ensures
        crate::encode::spec_enc_sound_ops(ops).len() == 3 * ops.len(),
    decreases ops.len(),
{
    if ops.len() != 0 {
        lemma_enc_sound_ops_len(ops.drop_first());
    }
}

/// Decoding the encoding of a sound operation sequence gives exactly it back.
proof fn lemma_rt_sound_ops(ops: Seq<SoundOp>)
    ensures
        sdec_sound_ops(crate::encode::spec_enc_sound_ops(ops)) == Ok::<Seq<SoundOp>, Error>(ops),
    decreases ops.len(),
{
    let b = crate::encode::spec_enc_sound_ops(ops);
    lemma_enc_sound_ops_len(ops);
    if ops.len() == 0 {
        assert(ops =~= Seq::<SoundOp>::empty());
    } else {
        assert(b.take(3) =~= crate::encode::spec_enc_sound_op(ops[0]));
        lemma_rt_sound_op(ops[0], b);
        assert(b.skip(3) =~= crate::encode::spec_enc_sound_ops(ops.drop_first()));
        lemma_rt_sound_ops(ops.drop_first());
        assert(sdec_sound_ops(b.skip(3)) == Ok::<Seq<SoundOp>, Error>(ops.drop_first()));
        assert(seq![ops[0]] + ops.drop_first() =~= ops);
    }
}

/// Decoding the encoding of a sound-play request gives it back.
proof fn lemma_rt_sound_play(m: SpecSoundPlay, b: Seq<u8>)
    requires
        b == crate::encode::spec_enc_sound_play(m),
    ensures
        sdec_sound_play(b) == Ok::<SpecSoundPlay, Error>(m),
{
    assert(b.skip(2) =~= crate::encode::spec_enc_sound_ops(m.ops));
    lemma_rt_sound_ops(m.ops);
    assert(sdec_sound_ops(b.skip(2)) == Ok::<Seq<SoundOp>, Error>(m.ops));
    assert(sdec_sound_play(b)->Ok_0 =~= m);
}

/// Decoding the encoding of a sound message gives it back.
proof fn lemma_rt_sound(m: SpecSound)
    ensures
        sdec_sound(crate::encode::spec_enc_sound(m)) == Ok::<SpecSound, Error>(m),
{
    let b = crate::encode::spec_enc_sound(m);
    match m {
        SpecSound::Stop => {
        }
        SpecSound::Preset(v) => {
            assert(b.skip(1) =~= crate::encode::spec_enc_sound_preset(v));
        }
        SpecSound::Play(v) => {
            assert(b.skip(1) =~= crate::encode::spec_enc_sound_play(v));
            lemma_rt_sound_play(v, b.skip(1));
        }
    }
}

/// Decoding the encoding of a version response gives it back: a string is
/// written in UTF-8, which reads back losslessly.
proof fn lemma_rt_version_res(m: SpecConfigVersionRes, b: Seq<u8>)
    requires
        b == crate::encode::spec_enc_version_res(m),
    ensures
        sdec_version_res(b) == Ok::<SpecConfigVersionRes, Error>(m),
{
    broadcast use vstd::utf8::encode_utf8_valid_utf8;
    broadcast use vstd::utf8::encode_utf8_decode_utf8;

    assert(b.skip(1) =~= vstd::utf8::encode_utf8(m.version));
    assert(spec_str_of(b.skip(1)) == m.version);
    assert(sdec_version_res(b)->Ok_0 =~= m);
}

/// Decoding the encoding of a configuration message gives it back.
proof fn lemma_rt_config(m: SpecConfig)
    ensures
        sdec_config(crate::encode::spec_enc_config(m)) == Ok::<SpecConfig, Error>(m),
{
    let b = crate::encode::spec_enc_config(m);
    match m {
        SpecConfig::Version(_) => {
        }
        SpecConfig::Level(_) => {
        }
        SpecConfig::Collision(_) => {
        }
        SpecConfig::DoubleTap(_) => {
        }
        SpecConfig::VersionRes(v) => {
            assert(b.skip(1) =~= crate::encode::spec_enc_version_res(v));
            lemma_rt_version_res(v, b.skip(1));
        }
    }
}

/// Round trip: decoding the encoding of any message, on the characteristic
/// the message belongs to, succeeds and gives the message back.
pub proof fn lemma_round_trip(m: SpecMessage)
    ensures
        sdec_msg(crate::proto::spec_family(m), crate::encode::spec_encode(m)) == Ok::<
            SpecMessage,
            Error,
        >(m),
{
    match m {
        SpecMessage::Id(v) => lemma_rt_id(v),
        SpecMessage::Motion(v) => lemma_rt_motion(v),
        SpecMessage::Button(v) => lemma_rt_button(v),
        SpecMessage::Battery(v) => {
        }
        SpecMessage::Motor(v) => lemma_rt_motor(v),
        SpecMessage::Light(v) => lemma_rt_light(v),
        SpecMessage::Sound(v) => lemma_rt_sound(v),
        SpecMessage::Config(v) => lemma_rt_config(v),
    }
}


/// The tag bytes that select a variant of the family. The battery
/// characteristic is tagless and has no table.
pub open spec fn spec_family_tags(f: Family) -> Set<u8> {
    match f {
        Family::IdReader => set![0x01u8, 0x02, 0x03, 0x04],
        Family::Motor => set![0x01u8, 0x02, 0x03, 0x04, 0x05, 0x83, 0x84],
        Family::Light => set![0x01u8, 0x02, 0x03, 0x04],
        Family::Sound => set![0x01u8, 0x02, 0x03],
        Family::Motion => set![0x01u8],
        Family::Button => set![0x01u8],
        Family::Battery => set![],
        Family::Config => set![0x01u8, 0x02, 0x03, 0x04, 0x81],
    }
}

/// Unknown tag: a buffer whose first byte matches no discriminant of its
/// family decodes to exactly the unknown-variant error naming that byte.
pub proof fn lemma_unknown_tag(f: Family, b: Seq<u8>)
    requires
        f != Family::Battery,
        b.len() > 0,
        !spec_family_tags(f).contains(b[0]),
    ensures
        sdec_msg(f, b) == Err::<SpecMessage, Error>(Error::UnknownVariant(b[0], f)),
{
}

/// Trailing-sequence exactness for light operations: a byte count that is a
/// multiple of one element's width decodes to exactly that many elements;
/// any other byte count fails as a truncated buffer.
pub proof fn lemma_trailing_light_ops(b: Seq<u8>)
    ensures
        b.len() % 6 == 0 ==> (sdec_light_ops(b) matches Ok(ops) && ops.len() == b.len() / 6),
        b.len() % 6 != 0 ==> (sdec_light_ops(b) matches Err(e) && e matches Error::Truncated(_, _)),
    decreases b.len(),
{
    if b.len() == 0 {
    } else if b.len() < 6 {
    } else {
        lemma_trailing_light_ops(b.skip(6));
    }
}

/// Trailing-sequence exactness for target positions.
pub proof fn lemma_trailing_targets(b: Seq<u8>)
    ensures
        b.len() % 6 == 0 ==> (sdec_targets(b) matches Ok(ts) && ts.len() == b.len() / 6),
        b.len() % 6 != 0 ==> (sdec_targets(b) matches Err(e) && e matches Error::Truncated(_, _)),
    decreases b.len(),
{
    if b.len() == 0 {
    } else if b.len() < 6 {
    } else {
        lemma_trailing_targets(b.skip(6));
    }
}

/// Every byte that a sound operation sequence would read as a note is a
/// defined note.
pub open spec fn spec_sound_notes_valid(b: Seq<u8>) -> bool {
    forall|i: int| 0 <= i < b.len() && i % 3 == 1 ==> #[trigger] b[i] <= 128
}

/// Trailing-sequence exactness for sound operations, whose middle byte must
/// name a defined note.
pub proof fn lemma_trailing_sound_ops(b: Seq<u8>)
    requires
        spec_sound_notes_valid(b),
    ensures
        b.len() % 3 == 0 ==> (sdec_sound_ops(b) matches Ok(ops) && ops.len() == b.len() / 3),
        b.len() % 3 != 0 ==> (sdec_sound_ops(b) matches Err(e) && e matches Error::Truncated(_, _)),
    decreases b.len(),
{
    if b.len() == 0 {
    } else if b.len() < 3 {
        if b.len() >= 2 {
            assert(b[1] <= 128);
            assert(note_from(b[1]) is Some);
        }
    } else {
        assert(b[1] <= 128);
        assert(note_from(b[1]) is Some);
        assert(spec_sound_notes_valid(b.skip(3))) by {
            assert forall|i: int| 0 <= i < b.skip(3).len() && i % 3 == 1 implies #[trigger] b.skip(
                3,
            )[i] <= 128 by {
                assert(b.skip(3)[i] == b[i + 3]);
                assert((i + 3) % 3 == 1);
            }
        }
        lemma_trailing_sound_ops(b.skip(3));
    }
}


/// Whether a message's payload is fully fixed-width: no trailing sequence
/// and no trailing string.
pub open spec fn spec_fixed_width(m: SpecMessage) -> bool {
    match m {
        SpecMessage::Id(_) => true,
        SpecMessage::Motion(_) => true,
        SpecMessage::Button(_) => true,
        SpecMessage::Battery(_) => true,
        SpecMessage::Motor(v) => !(v is MultiTarget),
        SpecMessage::Light(v) => !(v is Control),
        SpecMessage::Sound(v) => !(v is Play),
        SpecMessage::Config(v) => !(v is VersionRes),
    }
}

/// A truncated simple motor payload fails as a truncated buffer.
proof fn lemma_tr_motor_simple(m: MotorSimple, b: Seq<u8>)
    requires
        b == crate::encode::spec_enc_motor_simple(m).drop_last(),
    ensures
        sdec_motor_simple(b) matches Err(e) && e matches Error::Truncated(_, _),
{
    assert(b.len() == 5);
    assert(b[0] == crate::proto::motor_id_code(m.motor1));
    assert(b[1] == crate::proto::motor_dir_code(m.dir1));
    assert(b[3] == crate::proto::motor_id_code(m.motor2));
    assert(b[4] == crate::proto::motor_dir_code(m.dir2));
}

/// A truncated timed motor payload fails as a truncated buffer.
proof fn lemma_tr_motor_timed(m: MotorTimed, b: Seq<u8>)
    requires
        b == crate::encode::spec_enc_motor_timed(m).drop_last(),
    ensures
        sdec_motor_timed(b) matches Err(e) && e matches Error::Truncated(_, _),
{
    assert(b.len() == 6);
    assert(b[0] == crate::proto::motor_id_code(m.motor1));
    assert(b[1] == crate::proto::motor_dir_code(m.dir1));
    assert(b[3] == crate::proto::motor_id_code(m.motor2));
    assert(b[4] == crate::proto::motor_dir_code(m.dir2));
}

/// A truncated target-position payload fails as a truncated buffer.
proof fn lemma_tr_motor_target(m: MotorTarget, b: Seq<u8>)
    requires
        b == crate::encode::spec_enc_motor_target(m).drop_last(),
    ensures
        sdec_motor_target(b) matches Err(e) && e matches Error::Truncated(_, _),
{
    assert(b.len() == 11);
    assert(b[2] == crate::proto::move_type_code(m.move_type));
    assert(b[4] == crate::proto::speed_change_code(m.speed_change));
}

/// A truncated acceleration payload fails as a truncated buffer.
proof fn lemma_tr_motor_acc(m: MotorAcc, b: Seq<u8>)
    requires
        b == crate::encode::spec_enc_motor_acc(m).drop_last(),
    ensures
        sdec_motor_acc(b) matches Err(e) && e matches Error::Truncated(_, _),
{
    assert(b.len() == 8);
    assert(b[5] == crate::proto::motor_cube_dir_code(m.rotate_dir));
    assert(b[6] == crate::proto::motor_cube_dir_code(m.trans_dir));
    assert(b[7] == crate::proto::motor_priority_code(m.prio));
}

/// A truncated preset sound payload fails as a truncated buffer.
proof fn lemma_tr_sound_preset(m: SoundPreset, b: Seq<u8>)
    requires
        b == crate::encode::spec_enc_sound_preset(m).drop_last(),
    ensures
        sdec_sound_preset(b) matches Err(e) && e matches Error::Truncated(_, _),
{
    assert(b.len() == 1);
    assert(b[0] == crate::proto::sound_preset_code(m.id));
}

/// Truncation: decoding a buffer one byte shorter than the encoding of any
/// fixed-width message fails as a truncated buffer, never as a wrong value.
/// A truncated id reader message fails as a truncated buffer.
proof fn lemma_tr_id(v: Id, b: Seq<u8>)
    requires
        b == crate::encode::spec_enc_id(v).drop_last(),
    ensures
        sdec_id(b) matches Err(e) && e matches Error::Truncated(_, _),
{
    match v {
        Id::Pos(p) => {
            assert(b.skip(1) =~= crate::encode::spec_enc_id_pos(p).drop_last());
            assert(b.skip(1).len() == 11);
        }
        Id::Std(p) => {
            assert(b.skip(1) =~= crate::encode::spec_enc_id_std(p).drop_last());
            assert(b.skip(1).len() == 5);
        }
        Id::PosMissed => {
            assert(b.len() == 0);
        }
        Id::StdMissed => {
            assert(b.len() == 0);
        }
    }
}

/// A truncated motion message fails as a truncated buffer.
proof fn lemma_tr_motion(v: Motion, b: Seq<u8>)
    requires
        b == crate::encode::spec_enc_motion(v).drop_last(),
    ensures
        sdec_motion(b) matches Err(e) && e matches Error::Truncated(_, _),
{
    match v {
        Motion::Detect(d) => {
            assert(b.skip(1) =~= crate::encode::spec_enc_motion_detect(d).drop_last());
            assert(b.skip(1).len() == 3);
        }
    }
}

/// A truncated motor message with a fixed-width payload fails as a
/// truncated buffer.
#[verifier::rlimit(100)]
#[verifier::spinoff_prover]
proof fn lemma_tr_motor(v: SpecMotor, b: Seq<u8>)
    requires
        !(v is MultiTarget),
        b == crate::encode::spec_enc_motor(v).drop_last(),
    ensures
        sdec_motor(b) matches Err(e) && e matches Error::Truncated(_, _),
{
    match v {
        SpecMotor::Simple(p) => {
            assert(b.skip(1) =~= crate::encode::spec_enc_motor_simple(p).drop_last());
            lemma_tr_motor_simple(p, b.skip(1));
        }
        SpecMotor::Timed(p) => {
            assert(b.skip(1) =~= crate::encode::spec_enc_motor_timed(p).drop_last());
            lemma_tr_motor_timed(p, b.skip(1));
        }
        SpecMotor::Target(p) => {
            assert(b.skip(1) =~= crate::encode::spec_enc_motor_target(p).drop_last());
            lemma_tr_motor_target(p, b.skip(1));
        }
        SpecMotor::MultiTarget(_) => {
        }
        SpecMotor::Acc(p) => {
            assert(b.skip(1) =~= crate::encode::spec_enc_motor_acc(p).drop_last());
            lemma_tr_motor_acc(p, b.skip(1));
        }
        SpecMotor::TargetRes(p) => {
            assert(b.skip(1) =~= crate::encode::spec_enc_motor_target_res(p).drop_last());
            assert(b.skip(1).len() == 1);
        }
        SpecMotor::MultiTargetRes(p) => {
            assert(b.skip(1) =~= crate::encode::spec_enc_motor_target_res(p).drop_last());
            assert(b.skip(1).len() == 1);
        }
    }
}

/// A truncated light message with a fixed-width payload fails as a
/// truncated buffer.
proof fn lemma_tr_light(v: SpecLight, b: Seq<u8>)
    requires
        !(v is Control),
        b == crate::encode::spec_enc_light(v).drop_last(),
    ensures
        sdec_light(b) matches Err(e) && e matches Error::Truncated(_, _),
{
    match v {
        SpecLight::AllOff => {
            assert(b.len() == 0);
        }
        SpecLight::Off(p) => {
            assert(b.skip(1) =~= crate::encode::spec_enc_light_off(p).drop_last());
            assert(b.skip(1).len() == 1);
        }
        SpecLight::On(p) => {
            assert(b.skip(1) =~= crate::encode::spec_enc_light_on(p).drop_last());
            assert(b.skip(1).len() == 5);
        }
        SpecLight::Control(_) => {
        }
    }
}

/// A truncated sound message with a fixed-width payload fails as a
/// truncated buffer.
proof fn lemma_tr_sound(v: SpecSound, b: Seq<u8>)
    requires
        !(v is Play),
        b == crate::encode::spec_enc_sound(v).drop_last(),
    ensures
        sdec_sound(b) matches Err(e) && e matches Error::Truncated(_, _),
{
    match v {
        SpecSound::Stop => {
            assert(b.len() == 0);
        }
        SpecSound::Preset(p) => {
            assert(b.skip(1) =~= crate::encode::spec_enc_sound_preset(p).drop_last());
            lemma_tr_sound_preset(p, b.skip(1));
        }
        SpecSound::Play(_) => {
        }
    }
}

/// A truncated configuration message with a fixed-width payload fails as a
/// truncated buffer.
proof fn lemma_tr_config(v: SpecConfig, b: Seq<u8>)
    requires
        !(v is VersionRes),
        b == crate::encode::spec_enc_config(v).drop_last(),
    ensures
        sdec_config(b) matches Err(e) && e matches Error::Truncated(_, _),
{
    match v {
        SpecConfig::Version(_) => {
            assert(b.len() == 1);
        }
        SpecConfig::Level(_) => {
            assert(b.len() == 2);
        }
        SpecConfig::Collision(_) => {
            assert(b.len() == 2);
        }
        SpecConfig::DoubleTap(_) => {
            assert(b.len() == 2);
        }
        SpecConfig::VersionRes(_) => {
        }
    }
}

/// Truncation: decoding a buffer one byte shorter than the encoding of any
/// fixed-width message fails as a truncated buffer, never as a wrong value.
pub proof fn lemma_truncation(m: SpecMessage)
    requires
        spec_fixed_width(m),
    ensures
        sdec_msg(crate::proto::spec_family(m), crate::encode::spec_encode(m).drop_last()) matches Err(
            e,
        ) && e matches Error::Truncated(_, _),
{
    let b = crate::encode::spec_encode(m).drop_last();
    match m {
        SpecMessage::Id(v) => lemma_tr_id(v, b),
        SpecMessage::Motion(v) => lemma_tr_motion(v, b),
        SpecMessage::Button(v) => {
            assert(b.len() == 1);
        }
        SpecMessage::Battery(_) => {
            assert(b.len() == 0);
        }
        SpecMessage::Motor(v) => lemma_tr_motor(v, b),
        SpecMessage::Light(v) => lemma_tr_light(v, b),
        SpecMessage::Sound(v) => lemma_tr_sound(v, b),
        SpecMessage::Config(v) => lemma_tr_config(v, b),
    }
}


/// Round trip through the catalog: decoding the encoding of any message,
/// on the UUID that `encode` pairs it with, succeeds and gives the message
/// back.
pub proof fn lemma_round_trip_on_uuid(u: Uuid, m: SpecMessage)
    requires
        u.bytes() == spec_uuid_bytes(crate::proto::spec_family(m)),
    ensures
        spec_decode(u, crate::encode::spec_encode(m)) == Ok::<SpecMessage, Error>(m),
{
    lemma_catalog_sound(crate::proto::spec_family(m));
    lemma_round_trip(m);
}

} // verus!
