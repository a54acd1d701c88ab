//! The per-device session: correlation of requests with the events that
//! answer them.
//!
//! A session owns one device id and, once connected, the characteristics
//! the device exposed. Every wait of the driver — for a connection, for a
//! disconnection, for a write acknowledgment — is a scan of the events a
//! subscriber observed until its timeout expired: the functions here decide
//! the outcome from that sequence alone, matching solely on the device id
//! and, for writes, the characteristic UUID. The caller subscribes before
//! issuing the request, so the answering event cannot be published before
//! the scan's window opens.

use vstd::prelude::*;

use crate::ble::Uuid;
use crate::bridge::CharInfo;
use crate::bridge::Event;

verus! {

/// Why a session operation failed.
#[derive(Debug, Clone, Copy, PartialEq, Eq)]
pub enum TransportError {
    /// No matching connection event arrived within the timeout.
    ConnectTimeout,
    /// No matching disconnection event arrived within the timeout.
    DisconnectTimeout,
    /// No acknowledgment arrived for a write with response.
    NoResponse,
    /// The device rejected a write with response.
    WriteRejected,
    /// The device exposes no characteristic with this UUID.
    UnknownCharacteristic(Uuid),
}

/// The native handle of the first characteristic with the given UUID, if
/// the device exposed one.
pub open spec fn spec_lookup(cs: Seq<CharInfo>, uuid: Seq<u8>) -> Option<u64>
    decreases cs.len(),
{
    if cs.len() == 0 {
        None
    } else if cs[0].uuid.bytes() == uuid {
        Some(cs[0].handle)
    } else {
        spec_lookup(cs.drop_first(), uuid)
    }
}

/// Whether an event is the write acknowledgment for this device and this
/// characteristic. Correlation keys on the pair and on nothing else.
pub open spec fn spec_is_write_res(e: Event, device: u64, ch: Seq<u8>) -> bool {
    match e {
        Event::WriteRes { device: d, ch: c, ok: _ } => d == device && c.bytes() == ch,
        _ => false,
    }
}

/// The flag of the first write acknowledgment for the pair, if one was
/// observed.
pub open spec fn spec_first_write_res(es: Seq<Event>, device: u64, ch: Seq<u8>) -> Option<bool>
    decreases es.len(),
{
    if es.len() == 0 {
        None
    } else {
        match es[0] {
            Event::WriteRes { device: d, ch: c, ok } => if d == device && c.bytes() == ch {
                Some(ok)
            } else {
                spec_first_write_res(es.drop_first(), device, ch)
            },
            _ => spec_first_write_res(es.drop_first(), device, ch),
        }
    }
}

/// The characteristics carried by the first connection event for the
/// device, if one was observed.
pub open spec fn spec_first_connected(es: Seq<Event>, device: u64) -> Option<Vec<CharInfo>>
    decreases es.len(),
{
    if es.len() == 0 {
        None
    } else {
        match es[0] {
            Event::Connected { device: d, chars } => if d == device {
                Some(chars)
            } else {
                spec_first_connected(es.drop_first(), device)
            },
            _ => spec_first_connected(es.drop_first(), device),
        }
    }
}

/// Whether a disconnection event for the device was observed.
pub open spec fn spec_has_disconnected(es: Seq<Event>, device: u64) -> bool {
    exists|i: int| 0 <= i < es.len() && es[i] == (Event::Disconnected { device })
}

/// Subscribe-before-send: a correlation scan observes its own
/// acknowledgment. The scan yields an answer exactly when the observed
/// events hold an acknowledgment for the pair; events of other devices or
/// other characteristics can never produce one.
pub proof fn lemma_write_correlation(es: Seq<Event>, device: u64, ch: Seq<u8>)
    ensures
        spec_first_write_res(es, device, ch) is Some <==> exists|i: int|
            0 <= i < es.len() && spec_is_write_res(#[trigger] es[i], device, ch),
    decreases es.len(),
{
    if es.len() == 0 {
    } else {
        lemma_write_correlation(es.drop_first(), device, ch);
        if spec_is_write_res(es[0], device, ch) {
        } else {
            if spec_first_write_res(es, device, ch) is Some {
                let i = choose|i: int|
                    0 <= i < es.drop_first().len() && spec_is_write_res(
                        #[trigger] es.drop_first()[i],
                        device,
                        ch,
                    );
                assert(es[i + 1] == es.drop_first()[i]);
            } else {
                assert forall|i: int|
                    0 <= i < es.len() implies !spec_is_write_res(#[trigger] es[i], device, ch) by {
                    if i > 0 {
                        assert(es.drop_first()[i - 1] == es[i]);
                    }
                }
            }
        }
    }
}

/// No cross-matching: an event that is not the acknowledgment of this pair
/// leaves the correlation's outcome exactly as it was.
pub proof fn lemma_unrelated_event(e: Event, es: Seq<Event>, device: u64, ch: Seq<u8>)
    requires
        !spec_is_write_res(e, device, ch),
    ensures
        spec_first_write_res(seq![e] + es, device, ch) == spec_first_write_res(es, device, ch),
{
    assert((seq![e] + es)[0] == e);
    assert((seq![e] + es).drop_first() =~= es);
}

/// A per-device handle: the device id, its signal strength at discovery,
/// and, once connected, the characteristics it exposed.
pub struct Session {
    /// The id of the device.
    pub device: u64,
    /// The signal strength when the device was discovered.
    pub rssi: i32,
    /// The characteristics captured by the last successful connect; empty
    /// before that.
    pub chars: Vec<CharInfo>,
}

impl Session {
    /// A handle for a discovered device, before any connection.
    pub fn new(device: u64, rssi: i32) -> (r: Self)
        ensures
            r.device == device,
            r.rssi == rssi,
            r.chars@ =~= Seq::<CharInfo>::empty(),
    {
        Session { device, rssi, chars: Vec::new() }
    }

    /// The native handle for a characteristic UUID on this device; the
    /// device never exposed it exactly when the lookup fails.
    #[verifier::loop_isolation(false)]
    pub fn lookup_char(&self, uuid: &Uuid) -> (r: Result<u64, TransportError>)
        ensures
            match spec_lookup(self.chars@, uuid.bytes()) {
                Some(h) => r == Ok::<u64, TransportError>(h),
                None => r == Err::<u64, TransportError>(
                    TransportError::UnknownCharacteristic(*uuid),
                ),
            },
    {
        assert(self.chars@.skip(0) =~= self.chars@);
        let mut i: usize = 0;
        while i < self.chars.len()
            invariant
                i <= self.chars@.len(),
                spec_lookup(self.chars@, uuid.bytes()) == spec_lookup(
                    self.chars@.skip(i as int),
                    uuid.bytes(),
                ),
            decreases self.chars@.len() - i,
        {
            let c = self.chars[i];
            if c.uuid.eq_bytes(uuid) {
                assert(self.chars@.skip(i as int)[0] == c);
                return Ok(c.handle);
            }
            proof {
                assert(self.chars@.skip(i as int)[0] == c);
                assert(self.chars@.skip(i as int).drop_first() =~= self.chars@.skip(i as int + 1));
            }
            i += 1;
        }
        Err(TransportError::UnknownCharacteristic(*uuid))
    }

    /// Settles a connect call from the events observed before its timeout:
    /// the first matching connection event hands over the device's
    /// characteristics; if none arrived, the call times out and the session
    /// keeps no connected bookkeeping at all.
    #[verifier::loop_isolation(false)]
    pub fn on_connect_events(&mut self, events: Vec<Event>) -> (r: Result<(), TransportError>)
        ensures
            final(self).device == old(self).device,
            final(self).rssi == old(self).rssi,
            match spec_first_connected(events@, old(self).device) {
                Some(cs) => r == Ok::<(), TransportError>(()) && final(self).chars == cs,
                None => r == Err::<(), TransportError>(TransportError::ConnectTimeout)
                    && *final(self) == *old(self),
            },
    {
        let mut events = events;
        let ghost es0 = events@;
        loop
            invariant
                spec_first_connected(es0, self.device) == spec_first_connected(
                    events@,
                    self.device,
                ),
                self.device == old(self).device,
                self.rssi == old(self).rssi,
                self.chars == old(self).chars,
            decreases events@.len(),
        {
            if events.len() == 0 {
                return Err(TransportError::ConnectTimeout);
            }
            let ghost before = events@;
            let e = events.remove(0);
            proof {
                assert(before[0] == e);
                assert(events@ =~= before.drop_first());
            }
            match e {
                Event::Connected { device, chars } => {
                    if device == self.device {
                        self.chars = chars;
                        return Ok(());
                    }
                }
                _ => {}
            }
        }
    }

    /// Settles a disconnect call from the events observed before its
    /// timeout: a matching disconnection event ends the session cleanly;
    /// none means the call timed out.
    #[verifier::loop_isolation(false)]
    pub fn on_disconnect_events(&self, events: &Vec<Event>) -> (r: Result<(), TransportError>)
        ensures
            r is Ok <==> spec_has_disconnected(events@, self.device),
            r is Err ==> r == Err::<(), TransportError>(TransportError::DisconnectTimeout),
    {
        let mut i: usize = 0;
        while i < events.len()
            invariant
                i <= events@.len(),
                forall|j: int|
                    0 <= j < i ==> events@[j] != (Event::Disconnected {
                        device: self.device,
                    }),
            decreases events@.len() - i,
        {
            match &events[i] {
                Event::Disconnected { device } => {
                    if *device == self.device {
                        return Ok(());
                    }
                }
                _ => {}
            }
            i += 1;
        }
        Err(TransportError::DisconnectTimeout)
    }

    /// Settles a write with response from the events observed before its
    /// timeout: the first acknowledgment of this device and characteristic
    /// decides success or rejection; none means no response. Acknowledgments
    /// of other characteristics or devices are passed over.
    #[verifier::loop_isolation(false)]
    pub fn write_response(&self, events: &Vec<Event>, ch: &Uuid) -> (r: Result<(), TransportError>)
        ensures
            match spec_first_write_res(events@, self.device, ch.bytes()) {
                Some(true) => r == Ok::<(), TransportError>(()),
                Some(false) => r == Err::<(), TransportError>(TransportError::WriteRejected),
                None => r == Err::<(), TransportError>(TransportError::NoResponse),
            },
    {
        assert(events@.skip(0) =~= events@);
        let mut i: usize = 0;
        while i < events.len()
            invariant
                i <= events@.len(),
                spec_first_write_res(events@, self.device, ch.bytes()) == spec_first_write_res(
                    events@.skip(i as int),
                    self.device,
                    ch.bytes(),
                ),
            decreases events@.len() - i,
        {
            proof {
                assert(events@.skip(i as int)[0] == events@[i as int]);
                assert(events@.skip(i as int).drop_first() =~= events@.skip(i as int + 1));
            }
            match &events[i] {
                Event::WriteRes { device, ch: c, ok } => {
                    if *device == self.device && c.eq_bytes(ch) {
                        if *ok {
                            return Ok(());
                        } else {
                            return Err(TransportError::WriteRejected);
                        }
                    }
                }
                _ => {}
            }
            i += 1;
        }
        Err(TransportError::NoResponse)
    }

    /// The notification-stream filter: keeps exactly the characteristic
    /// values of this device, as the pair of UUID and bytes.
    pub fn value_event(&self, e: Event) -> (r: Option<(Uuid, Vec<u8>)>)
        ensures
            match e {
                Event::Value { device, ch, value } => if device == self.device {
                    r == Some::<(Uuid, Vec<u8>)>((ch, value))
                } else {
                    r is None
                },
                _ => r is None,
            },
    {
        match e {
            Event::Value { device, ch, value } => {
                if device == self.device {
                    Some((ch, value))
                } else {
                    None
                }
            }
            _ => None,
        }
    }
}

} // verus!
