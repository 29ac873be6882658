//! Sonar: thrown devices that detect what moves underground.
//!
//! A device pings at intervals until it expires. A ping tells that something is
//! there and roughly where, never what: each contact is placed with an error, and
//! contacts near one another are counted as one group.

use crate::chance::random_between;
use crate::position::{axis_gap, gap, Position};
use crate::visibility::fog::{FogOfWar, TileVisibility};
use vstd::prelude::*;

verus! {

/// The largest error of a contact's place, on each horizontal axis.
pub const SONAR_ERROR: i32 = 2;

/// Contacts within this distance of a group on every axis are counted into it.
pub const GROUP_REACH: i32 = 2;

/// More contacts than this are an alarm.
pub const MASSING: u32 = 50;

/// More contacts than this are worth a note.
pub const NOTABLE: u32 = 10;

/// A sonar device. Times are in milliseconds, the radius in thousandths of a cell.
#[derive(Clone, Copy, Debug, PartialEq, Eq, Structural)]
pub struct SonarDevice {
    /// Time between pings.
    pub ping_interval: u32,
    /// How far the device detects.
    pub ping_radius: u32,
    /// Time since the last ping.
    pub time_since_ping: u32,
    /// Time until the device expires.
    pub lifetime: u32,
}

/// What a device does in a tick.
#[derive(Clone, Copy, Debug, PartialEq, Eq, Structural)]
pub enum SonarPhase {
    /// Its time is up: it is to be removed.
    Expired,
    /// It waits for its next ping.
    Quiet,
    /// It pings now.
    Ping,
}

impl SonarDevice {
    /// The device `dt` milliseconds later, before it is asked whether to ping.
    pub open spec fn aged(self, dt: u32) -> SonarDevice {
        SonarDevice {
            lifetime: if self.lifetime >= dt {
                (self.lifetime - dt) as u32
            } else {
                0
            },
            time_since_ping: if self.time_since_ping + dt > u32::MAX {
                u32::MAX
            } else {
                (self.time_since_ping + dt) as u32
            },
            ..self
        }
    }

    /// What the device does after `dt` milliseconds.
    pub open spec fn phase_after(self, dt: u32) -> SonarPhase {
        if self.aged(dt).lifetime == 0 {
            SonarPhase::Expired
        } else if self.aged(dt).time_since_ping >= self.ping_interval {
            SonarPhase::Ping
        } else {
            SonarPhase::Quiet
        }
    }

    /// A device that has not pinged yet.
    pub fn new(radius: u32, interval: u32, lifetime: u32) -> (device: SonarDevice)
        ensures
            device == (SonarDevice {
                ping_interval: interval,
                ping_radius: radius,
                time_since_ping: 0,
                lifetime,
            }),
    {
        SonarDevice { ping_interval: interval, ping_radius: radius, time_since_ping: 0, lifetime }
    }

    /// The standard grenade: ten cells of radius, a ping every two seconds, thirty
    /// seconds of life.
    pub fn grenade() -> (device: SonarDevice)
        ensures
            device == (SonarDevice {
                ping_interval: 2_000,
                ping_radius: 10_000,
                time_since_ping: 0,
                lifetime: 30_000,
            }),
    {
        SonarDevice::new(10_000, 2_000, 30_000)
    }

    /// Lets `dt` milliseconds pass and says what the device does. A device whose time
    /// is up expires, whether or not a ping was due. A device that pings starts
    /// counting toward its next ping from zero.
    pub fn tick(&mut self, dt: u32) -> (phase: SonarPhase)
        ensures
            phase == old(self).phase_after(dt),
            final(self).lifetime == old(self).aged(dt).lifetime,
            final(self).time_since_ping == (if phase is Ping {
                0
            } else {
                old(self).aged(dt).time_since_ping
            }),
            final(self).ping_interval == old(self).ping_interval,
            final(self).ping_radius == old(self).ping_radius,
    {
        self.lifetime = self.lifetime.saturating_sub(dt);
        self.time_since_ping = self.time_since_ping.saturating_add(dt);
        if self.lifetime == 0 {
            SonarPhase::Expired
        } else if self.time_since_ping >= self.ping_interval {
            self.time_since_ping = 0;
            SonarPhase::Ping
        } else {
            SonarPhase::Quiet
        }
    }
}

/// A group of contacts.
#[derive(Clone, Copy, Debug, PartialEq, Eq, Structural)]
pub struct SonarContact {
    /// Where the first contact of the group was placed.
    pub position: Position,
    /// How many contacts were counted into the group.
    pub count: u32,
}

/// What a ping found.
pub struct SonarPingEvent {
    pub device_position: Position,
    pub contacts: Vec<SonarContact>,
}

/// How much a ping found.
#[derive(Clone, Copy, Debug, PartialEq, Eq, Structural)]
pub enum SonarAlarm {
    /// More than `MASSING` contacts.
    Massing,
    /// More than `NOTABLE` contacts.
    Many,
    /// Fewer.
    Few,
}

/// Whether `placed` is a place that sonar may give to a contact at `actual`: on the
/// same layer, and off by no more than `SONAR_ERROR` on each horizontal axis. At the
/// edge of the grid the place stays inside the grid.
pub open spec fn plausible(actual: Position, placed: Position) -> bool {
    &&& placed.z == actual.z
    &&& axis_gap(placed.x as int, actual.x as int) <= SONAR_ERROR
    &&& axis_gap(placed.y as int, actual.y as int) <= SONAR_ERROR
}

/// Whether a contact placed at `p` belongs to `group`.
pub open spec fn in_group(group: SonarContact, p: Position) -> bool {
    p.in_box(group.position, GROUP_REACH as int)
}

/// One more than `count`, as far as a count goes.
pub open spec fn one_more(count: u32) -> u32 {
    if count == u32::MAX {
        count
    } else {
        (count + 1) as u32
    }
}

/// The index of the first of `groups` that a contact placed at `p` belongs to, or the
/// number of groups where it belongs to none.
pub open spec fn first_group(groups: Seq<SonarContact>, p: Position) -> int
    decreases groups.len(),
{
    if groups.len() == 0 {
        0
    } else if in_group(groups.first(), p) {
        0
    } else {
        1 + first_group(groups.drop_first(), p)
    }
}

/// The groups after a contact placed at `p` is counted: into the first group it
/// belongs to, or as a new group of one.
pub open spec fn counted(groups: Seq<SonarContact>, p: Position) -> Seq<SonarContact> {
    let i = first_group(groups, p);
    if i < groups.len() {
        groups.update(i, SonarContact { count: one_more(groups[i].count), ..groups[i] })
    } else {
        groups.push(SonarContact { position: p, count: 1 })
    }
}

/// The groups that the contacts placed at `places[..n]` form, counted in order.
pub open spec fn grouped(places: Seq<Position>, n: int) -> Seq<SonarContact>
    decreases n,
{
    if n <= 0 {
        Seq::empty()
    } else {
        counted(grouped(places, n - 1), places[n - 1])
    }
}

/// The number of contacts in `groups[..n]`, as far as a count goes.
pub open spec fn total_of(groups: Seq<SonarContact>, n: int) -> u32
    decreases n,
{
    if n <= 0 {
        0
    } else if total_of(groups, n - 1) + groups[n - 1].count > u32::MAX {
        u32::MAX
    } else {
        (total_of(groups, n - 1) + groups[n - 1].count) as u32
    }
}

/// What `first_group` finds: the first group that the contact belongs to.
pub proof fn lemma_first_group(groups: Seq<SonarContact>, p: Position)
    ensures
        0 <= first_group(groups, p) <= groups.len(),
        first_group(groups, p) < groups.len() ==> in_group(groups[first_group(groups, p)], p),
        forall|j: int| 0 <= j < first_group(groups, p) ==> !in_group(#[trigger] groups[j], p),
    decreases groups.len(),
{
    if groups.len() > 0 && !in_group(groups.first(), p) {
        let rest = groups.drop_first();
        lemma_first_group(rest, p);
        assert forall|j: int| 0 <= j < first_group(groups, p) implies !in_group(
            #[trigger] groups[j],
            p,
        ) by {
            if j > 0 {
                assert(groups[j] == rest[j - 1]);
            }
        }
    }
}

/// Counts a contact placed at `p` into `groups`.
pub fn count_contact(groups: &mut Vec<SonarContact>, p: Position)
    ensures
        final(groups)@ == counted(old(groups)@, p),
{
    proof {
        lemma_first_group(groups@, p);
    }
    let mut i: usize = 0;
    while i < groups.len()
        invariant
            0 <= i <= groups@.len(),
            groups@ == old(groups)@,
            forall|j: int| 0 <= j < i ==> !in_group(#[trigger] groups@[j], p),
            0 <= first_group(groups@, p) <= groups@.len(),
            first_group(groups@, p) < groups@.len() ==> in_group(
                groups@[first_group(groups@, p)],
                p,
            ),
            forall|j: int| 0 <= j < first_group(groups@, p) ==> !in_group(#[trigger] groups@[j], p),
        decreases groups@.len() - i,
    {
        let group = groups[i];
        if p.within_range(group.position, GROUP_REACH) {
            assert(i == first_group(groups@, p)) by {
                if first_group(groups@, p) < i {
                    assert(!in_group(groups@[first_group(groups@, p)], p));
                }
            }
            let count = if group.count == u32::MAX {
                group.count
            } else {
                group.count + 1
            };
            groups[i] = SonarContact { position: group.position, count };
            assert(groups@ =~= counted(old(groups)@, p));
            return ;
        }
        i = i + 1;
    }
    assert(first_group(groups@, p) == groups@.len()) by {
        if first_group(groups@, p) < groups@.len() {
            assert(!in_group(groups@[first_group(groups@, p)], p));
        }
    }
    groups.push(SonarContact { position: p, count: 1 });
}

/// Groups the contacts placed at `places`, in order.
pub fn group_contacts(places: &Vec<Position>) -> (groups: Vec<SonarContact>)
    ensures
        groups@ == grouped(places@, places@.len() as int),
{
    let mut groups: Vec<SonarContact> = Vec::new();
    let mut i: usize = 0;
    while i < places.len()
        invariant
            0 <= i <= places@.len(),
            groups@ == grouped(places@, i as int),
        decreases places@.len() - i,
    {
        count_contact(&mut groups, places[i]);
        i = i + 1;
    }
    groups
}

/// The number of contacts in `groups`.
pub fn total_contacts(groups: &Vec<SonarContact>) -> (total: u32)
    ensures
        total == total_of(groups@, groups@.len() as int),
{
    let mut total: u32 = 0;
    let mut i: usize = 0;
    while i < groups.len()
        invariant
            0 <= i <= groups@.len(),
            total == total_of(groups@, i as int),
        decreases groups@.len() - i,
    {
        total = total.saturating_add(groups[i].count);
        i = i + 1;
    }
    total
}

/// How alarming `total` contacts are.
pub fn alarm_for(total: u32) -> (alarm: SonarAlarm)
    ensures
        alarm == (if total > MASSING {
            SonarAlarm::Massing
        } else if total > NOTABLE {
            SonarAlarm::Many
        } else {
            SonarAlarm::Few
        }),
{
    if total > MASSING {
        SonarAlarm::Massing
    } else if total > NOTABLE {
        SonarAlarm::Many
    } else {
        SonarAlarm::Few
    }
}

/// A coordinate moved by `error`, kept inside the grid.
pub fn nudged(v: i32, error: i32) -> (r: i32)
    requires
        -SONAR_ERROR <= error <= SONAR_ERROR,
    ensures
        axis_gap(r as int, v as int) <= SONAR_ERROR,
        i32::MIN <= v + error <= i32::MAX ==> r == v + error,
{
    match v.checked_add(error) {
        Some(r) => r,
        None => v,
    }
}

/// Places each contact with a random error of at most `SONAR_ERROR` on each horizontal
/// axis. Which places come out is a matter of chance; each is plausible for its
/// contact.
pub fn place_contacts(contacts: &Vec<Position>) -> (places: Vec<Position>)
    ensures
        places@.len() == contacts@.len(),
        forall|i: int| 0 <= i < contacts@.len() ==> plausible(contacts@[i], #[trigger] places@[i]),
{
    let mut places: Vec<Position> = Vec::new();
    let mut i: usize = 0;
    while i < contacts.len()
        invariant
            0 <= i <= contacts@.len(),
            places@.len() == i,
            forall|j: int| 0 <= j < i ==> plausible(contacts@[j], #[trigger] places@[j]),
        decreases contacts@.len() - i,
    {
        let contact = contacts[i];
        let error_x = random_between(-SONAR_ERROR, SONAR_ERROR);
        let error_y = random_between(-SONAR_ERROR, SONAR_ERROR);
        places.push(
            Position { x: nudged(contact.x, error_x), y: nudged(contact.y, error_y), z: contact.z },
        );
        i = i + 1;
    }
    places
}

/// Whether `fog` is `before` with a sonar contact recorded at each of `places[..n]`.
pub open spec fn marked(before: FogOfWar, fog: FogOfWar, places: Seq<Position>, n: int) -> bool {
    &&& fog.surface() == before.surface()
    &&& forall|c: (i32, i32, i32)|
        #![trigger fog.noted(c)]
        fog.noted(c) == (if exists|j: int| 0 <= j < n && (#[trigger] places[j]).key() == c {
            TileVisibility::SonarContact
        } else {
            before.noted(c)
        })
}

/// Records what a ping found at `places`: each place becomes a sonar contact in the
/// fog, and the places are grouped. The event to announce is there exactly where
/// anything was found.
pub fn record_ping(device_position: Position, places: &Vec<Position>, fog: &mut FogOfWar) -> (event:
    Option<SonarPingEvent>)
    ensures
        marked(*old(fog), *final(fog), places@, places@.len() as int),
        event.is_some() == (places@.len() > 0),
        event.is_some() ==> event.unwrap().device_position == device_position
            && event.unwrap().contacts@ == grouped(places@, places@.len() as int),
{
    let mut i: usize = 0;
    while i < places.len()
        invariant
            0 <= i <= places@.len(),
            marked(*old(fog), *fog, places@, i as int),
        decreases places@.len() - i,
    {
        let ghost before = *fog;
        fog.set(places[i], TileVisibility::SonarContact);
        proof {
            assert forall|c: (i32, i32, i32)|
                #![trigger fog.noted(c)]
                fog.noted(c) == (if exists|j: int|
                    0 <= j < i + 1 && (#[trigger] places@[j]).key() == c {
                    TileVisibility::SonarContact
                } else {
                    old(fog).noted(c)
                }) by {
                assert(before.noted(c) == (if exists|j: int|
                    0 <= j < i && (#[trigger] places@[j]).key() == c {
                    TileVisibility::SonarContact
                } else {
                    old(fog).noted(c)
                }));
                if c == places@[i as int].key() {
                    assert(0 <= i < i + 1 && places@[i as int].key() == c);
                } else if exists|j: int| 0 <= j < i + 1 && (#[trigger] places@[j]).key() == c {
                    let j = choose|j: int| 0 <= j < i + 1 && (#[trigger] places@[j]).key() == c;
                    assert(0 <= j < i && places@[j].key() == c);
                }
            }
        }
        i = i + 1;
    }
    let groups = group_contacts(places);
    if places.len() > 0 {
        Some(SonarPingEvent { device_position, contacts: groups })
    } else {
        None
    }
}

/// One ping of a device at `device_position` that detects the `contacts`: each is
/// placed with a random error, recorded in the fog and counted into a group.
pub fn ping(device_position: Position, contacts: &Vec<Position>, fog: &mut FogOfWar) -> (event:
    Option<SonarPingEvent>)
    ensures
        exists|places: Seq<Position>|
            {
                &&& places.len() == contacts@.len()
                &&& forall|i: int|
                    0 <= i < contacts@.len() ==> plausible(contacts@[i], #[trigger] places[i])
                &&& #[trigger] marked(*old(fog), *final(fog), places, places.len() as int)
                &&& event.is_some() ==> event.unwrap().contacts@ == grouped(
                    places,
                    places.len() as int,
                )
            },
        event.is_some() == (contacts@.len() > 0),
        event.is_some() ==> event.unwrap().device_position == device_position,
{
    let places = place_contacts(contacts);
    let event = record_ping(device_position, &places, fog);
    assert(marked(*old(fog), *fog, places@, places@.len() as int));
    event
}

} // verus!
