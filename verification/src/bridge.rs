//! The transport bridge's decision core.
//!
//! The bridge owns the connection-intent set: the devices the caller has
//! asked to stay connected to. Every native event is turned, by `on_event`,
//! into the native calls to issue next and the events to publish to
//! subscribers. The two invariants that make reconnection work are stated
//! as the contract of `on_event`: a native disconnect or connect failure of
//! a device still in the intent set never publishes a disconnection and
//! re-issues exactly one connect; one of a device outside the set publishes
//! exactly one disconnection and no connect.
//!
//! The code here performs no I/O: the caller (one actor task, the only
//! mutator of this state) carries the returned actions out against the
//! native stack and hands the returned events to the broadcast channel.

use vstd::prelude::*;

use crate::ble::Uuid;
use std::collections::HashSet;

verus! {

broadcast use vstd::std_specs::hash::group_hash_axioms;

/// One characteristic discovered on a device: its UUID, the handle the
/// native stack knows it by, and what it permits.
#[derive(Debug, Clone, Copy, PartialEq, Eq)]
pub struct CharInfo {
    /// The UUID of the characteristic.
    pub uuid: Uuid,
    /// The native handle of the characteristic on this device.
    pub handle: u64,
    /// Whether the characteristic can be read.
    pub can_read: bool,
    /// Whether the characteristic pushes change notifications.
    pub can_notify: bool,
}

/// The power and permission state the native stack reports.
#[derive(Debug, Clone, Copy, PartialEq, Eq, Structural)]
pub enum PowerState {
    /// Bluetooth is not supported on this machine: fatal.
    Unsupported,
    /// The process may not use Bluetooth: fatal.
    Unauthorized,
    /// The radio is off: transparent, nothing happens until it returns.
    PoweredOff,
    /// The radio is on.
    PoweredOn,
    /// Any other transitional state.
    Other,
}

/// An event as the native stack delivers it, reduced to plain values.
#[derive(Debug, Clone, PartialEq, Eq)]
pub enum NativeEvent {
    /// The manager's power or permission state changed.
    StateChanged(PowerState),
    /// A peripheral was seen while scanning. `service_match` says whether
    /// its advertisement names the service scanned for; `connectable` is
    /// what the advertisement says, if it says anything.
    Discovered { device: u64, service_match: bool, connectable: Option<bool>, rssi: i32 },
    /// A connection was established.
    Connected { device: u64 },
    /// A connection dropped.
    Disconnected { device: u64 },
    /// A connection attempt failed.
    ConnectFailed { device: u64 },
    /// Service discovery finished; `None` reports a native error.
    ServicesDiscovered { device: u64, services: Option<Vec<u64>> },
    /// A subscription request was answered.
    SubscriptionChange { device: u64, ok: bool },
    /// Characteristic discovery finished; `None` reports a native error.
    CharacteristicsDiscovered { device: u64, chars: Option<Vec<CharInfo>> },
    /// A characteristic value arrived; `None` reports a native error.
    Value { device: u64, ch: Uuid, value: Option<Vec<u8>> },
    /// A write with response was answered.
    WriteResult { device: u64, ch: Uuid, ok: bool },
}

/// An event as subscribers receive it.
#[derive(Debug, Clone, PartialEq, Eq)]
pub enum Event {
    /// A connectable peripheral was discovered.
    Discovered { device: u64, service_match: bool, rssi: i32 },
    /// A device finished connecting, with everything it exposes.
    Connected { device: u64, chars: Vec<CharInfo> },
    /// A device disconnected and will not be reconnected.
    Disconnected { device: u64 },
    /// A characteristic value arrived from a device.
    Value { device: u64, ch: Uuid, value: Vec<u8> },
    /// The result of a write with response.
    WriteRes { device: u64, ch: Uuid, ok: bool },
}

/// A call for the bridge's owner to make into the native stack.
#[derive(Debug, Clone, Copy, PartialEq, Eq)]
pub enum Action {
    /// Connect to the device.
    Connect(u64),
    /// Cancel a pending connect, disconnecting the device.
    CancelConnect(u64),
    /// Discover the services of the device.
    DiscoverServices(u64),
    /// Discover the characteristics of one service of the device.
    DiscoverCharacteristics { device: u64, service: u64 },
    /// Send a read request to a characteristic.
    ReadCharacteristic { device: u64, handle: u64 },
    /// Subscribe to a characteristic's notifications.
    Subscribe { device: u64, handle: u64 },
    /// Scan for peripherals that advertise the service.
    Scan { service: Uuid },
}

/// An unrecoverable condition of the radio, reported once.
#[derive(Debug, Clone, Copy, PartialEq, Eq, Structural)]
pub enum FatalError {
    /// Bluetooth is not supported.
    Unsupported,
    /// The process may not use Bluetooth.
    Unauthorized,
}

/// The native calls that follow the discovery of a device's
/// characteristics: a read request for each readable one, a subscription
/// for each notifying one, in catalog order.
pub open spec fn spec_connect_actions(device: u64, cs: Seq<CharInfo>) -> Seq<Action>
    decreases cs.len(),
{
    if cs.len() == 0 {
        Seq::empty()
    } else {
        let c = cs[0];
        let head = if c.can_read && c.can_notify {
            seq![
                Action::ReadCharacteristic { device, handle: c.handle },
                Action::Subscribe { device, handle: c.handle },
            ]
        } else if c.can_read {
            seq![Action::ReadCharacteristic { device, handle: c.handle }]
        } else if c.can_notify {
            seq![Action::Subscribe { device, handle: c.handle }]
        } else {
            Seq::empty()
        };
        head + spec_connect_actions(device, cs.drop_first())
    }
}

/// Appending one characteristic appends its calls.
proof fn lemma_connect_actions_push(device: u64, cs: Seq<CharInfo>, c: CharInfo)
    ensures
        spec_connect_actions(device, cs.push(c)) =~= spec_connect_actions(device, cs)
            + spec_connect_actions(device, seq![c]),
    decreases cs.len(),
{
    if cs.len() == 0 {
        assert(cs.push(c).drop_first() =~= Seq::<CharInfo>::empty());
        assert(cs.push(c)[0] == c);
        assert(seq![c].drop_first() =~= Seq::<CharInfo>::empty());
    } else {
        assert(cs.push(c)[0] == cs[0]);
        assert(cs.push(c).drop_first() =~= cs.drop_first().push(c));
        lemma_connect_actions_push(device, cs.drop_first(), c);
    }
}

/// The connection-intent set and the decisions made over it.
pub struct Bridge {
    intent: HashSet<u64>,
}

impl Bridge {
    /// The devices the caller wants kept connected.
    pub closed spec fn intent(self) -> Set<u64> {
        self.intent@
    }

    /// A bridge that wants no device connected.
    pub fn new() -> (r: Self)
        ensures
            r.intent() =~= Set::<u64>::empty(),
    {
        Bridge { intent: HashSet::new() }
    }

    /// Whether a device is in the intent set.
    pub fn wants(&self, device: u64) -> (r: bool)
        ensures
            r == self.intent().contains(device),
    {
        self.intent.contains(&device)
    }

    /// A request to connect: the device enters the intent set, and one
    /// native connect is issued. Idempotent on the set if already present.
    pub fn connect(&mut self, device: u64) -> (a: Action)
        ensures
            final(self).intent() =~= old(self).intent().insert(device),
            a == Action::Connect(device),
    {
        self.intent.insert(device);
        Action::Connect(device)
    }

    /// A request to disconnect: the device leaves the intent set, so no
    /// reconnection will follow, and one native cancel-connect is issued.
    pub fn disconnect(&mut self, device: u64) -> (a: Action)
        ensures
            final(self).intent() =~= old(self).intent().remove(device),
            a == Action::CancelConnect(device),
    {
        self.intent.remove(&device);
        Action::CancelConnect(device)
    }

    /// A request to discover peripherals offering a service: one native
    /// scan is issued; results arrive later as discovery events.
    pub fn discover(&self, service: Uuid) -> (a: Action)
        ensures
            a == (Action::Scan { service }),
    {
        Action::Scan { service }
    }

    /// Turns one native event into the calls to issue and the events to
    /// publish. The intent set changes only through `connect` and
    /// `disconnect`, never here. The contract carries the two reconnection
    /// invariants: a drop or a failed connect of a wanted device re-issues
    /// exactly one connect and publishes nothing; a drop of an unwanted
    /// device publishes exactly one disconnection and issues nothing.
    pub fn on_event(&mut self, e: NativeEvent) -> (r: Result<(Vec<Action>, Vec<Event>), FatalError>)
        ensures
            final(self).intent() == old(self).intent(),
            match e {
                NativeEvent::StateChanged(ps) => match ps {
                    PowerState::Unsupported => r == Err::<(Vec<Action>, Vec<Event>), FatalError>(
                        FatalError::Unsupported,
                    ),
                    PowerState::Unauthorized => r == Err::<(Vec<Action>, Vec<Event>), FatalError>(
                        FatalError::Unauthorized,
                    ),
                    _ => r matches Ok(o) && o.0@ =~= Seq::<Action>::empty() && o.1@ =~= Seq::<
                        Event,
                    >::empty(),
                },
                NativeEvent::Discovered { device, service_match, connectable, rssi } => (r matches Ok(
                    o,
                ) && o.0@ =~= Seq::<Action>::empty() && o.1@ =~= (if connectable != Some(false) {
                    seq![Event::Discovered { device, service_match, rssi }]
                } else {
                    Seq::<Event>::empty()
                })),
                NativeEvent::Connected { device } => (r matches Ok(o) && o.0@ =~= seq![
                    Action::DiscoverServices(device),
                ] && o.1@ =~= Seq::<Event>::empty()),
                NativeEvent::Disconnected { device } => (r matches Ok(o) && (if old(
                    self,
                ).intent().contains(device) {
                    o.0@ =~= seq![Action::Connect(device)] && o.1@ =~= Seq::<Event>::empty()
                } else {
                    o.0@ =~= Seq::<Action>::empty() && o.1@ =~= seq![
                        Event::Disconnected { device },
                    ]
                })),
                NativeEvent::ConnectFailed { device } => (r matches Ok(o) && (if old(
                    self,
                ).intent().contains(device) {
                    o.0@ =~= seq![Action::Connect(device)] && o.1@ =~= Seq::<Event>::empty()
                } else {
                    o.0@ =~= Seq::<Action>::empty() && o.1@ =~= Seq::<Event>::empty()
                })),
                NativeEvent::ServicesDiscovered { device, services } => (r matches Ok(o) && o.1@
                    =~= Seq::<Event>::empty() && (match services {
                    Some(ss) => o.0@ =~= Seq::new(
                        ss@.len(),
                        |i: int| Action::DiscoverCharacteristics { device, service: ss@[i] },
                    ),
                    None => o.0@ =~= Seq::<Action>::empty(),
                })),
                NativeEvent::SubscriptionChange { .. } => (r matches Ok(o) && o.0@ =~= Seq::<
                    Action,
                >::empty() && o.1@ =~= Seq::<Event>::empty()),
                NativeEvent::CharacteristicsDiscovered { device, chars } => (r matches Ok(o)
                    && (match chars {
                    Some(cs) => o.0@ =~= spec_connect_actions(device, cs@) && o.1@ =~= seq![
                        Event::Connected { device, chars: cs },
                    ],
                    None => o.0@ =~= Seq::<Action>::empty() && o.1@ =~= Seq::<Event>::empty(),
                })),
                NativeEvent::Value { device, ch, value } => (r matches Ok(o) && o.0@ =~= Seq::<
                    Action,
                >::empty() && (match value {
                    Some(v) => o.1@ =~= seq![Event::Value { device, ch, value: v }],
                    None => o.1@ =~= Seq::<Event>::empty(),
                })),
                NativeEvent::WriteResult { device, ch, ok } => (r matches Ok(o) && o.0@ =~= Seq::<
                    Action,
                >::empty() && o.1@ =~= seq![Event::WriteRes { device, ch, ok }]),
            },
    {
        let mut actions: Vec<Action> = Vec::new();
        let mut events: Vec<Event> = Vec::new();
        match e {
            NativeEvent::StateChanged(ps) => match ps {
                PowerState::Unsupported => {
                    return Err(FatalError::Unsupported);
                }
                PowerState::Unauthorized => {
                    return Err(FatalError::Unauthorized);
                }
                _ => {}
            },
            NativeEvent::Discovered { device, service_match, connectable, rssi } => {
                if connectable != Some(false) {
                    events.push(Event::Discovered { device, service_match, rssi });
                }
            }
            NativeEvent::Connected { device } => {
                actions.push(Action::DiscoverServices(device));
            }
            NativeEvent::Disconnected { device } => {
                if self.wants(device) {
                    actions.push(Action::Connect(device));
                } else {
                    events.push(Event::Disconnected { device });
                }
            }
            NativeEvent::ConnectFailed { device } => {
                if self.wants(device) {
                    actions.push(Action::Connect(device));
                }
            }
            NativeEvent::ServicesDiscovered { device, services } => {
                if let Some(ss) = services {
                    let mut i: usize = 0;
                    while i < ss.len()
                        invariant
                            i <= ss@.len(),
                            actions@ =~= Seq::new(
                                i as nat,
                                |j: int| Action::DiscoverCharacteristics { device, service: ss@[j] },
                            ),
                        decreases ss@.len() - i,
                    {
                        actions.push(Action::DiscoverCharacteristics { device, service: ss[i] });
                        i += 1;
                    }
                }
            }
            NativeEvent::SubscriptionChange { .. } => {}
            NativeEvent::CharacteristicsDiscovered { device, chars } => {
                if let Some(cs) = chars {
                    let mut i: usize = 0;
                    while i < cs.len()
                        invariant
                            i <= cs@.len(),
                            actions@ =~= spec_connect_actions(device, cs@.take(i as int)),
                        decreases cs@.len() - i,
                    {
                        let c = cs[i];
                        if c.can_read {
                            actions.push(Action::ReadCharacteristic { device, handle: c.handle });
                        }
                        if c.can_notify {
                            actions.push(Action::Subscribe { device, handle: c.handle });
                        }
                        i += 1;
                        proof {
                            assert(cs@.take(i as int) =~= cs@.take(i as int - 1).push(
                                cs@[i as int - 1],
                            ));
                            lemma_connect_actions_push(
                                device,
                                cs@.take(i as int - 1),
                                cs@[i as int - 1],
                            );
                            assert(seq![cs@[i as int - 1]].drop_first() =~= Seq::<
                                CharInfo,
                            >::empty());
                            assert(spec_connect_actions(
                                device,
                                seq![cs@[i as int - 1]].drop_first(),
                            ) =~= Seq::<Action>::empty());
                        }
                    }
                    assert(cs@.take(cs@.len() as int) =~= cs@);
                    events.push(Event::Connected { device, chars: cs });
                }
            }
            NativeEvent::Value { device, ch, value } => {
                if let Some(v) = value {
                    events.push(Event::Value { device, ch, value: v });
                }
            }
            NativeEvent::WriteResult { device, ch, ok } => {
                events.push(Event::WriteRes { device, ch, ok });
            }
        }
        Ok((actions, events))
    }
}

} // verus!
