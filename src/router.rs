use vstd::prelude::*;

use crate::event::{EventTypeView, EventView, ZoneEvent, ZoneEventType};
use crate::message::{AnimatedCorpseId, Message, ZoneMessage};
use crate::zone::{corpses_after_event, spec_applied, spec_zone_animate, spec_zone_on_event, valid_picks, Zone};

verus! {

/// Period of the scheduler, in milliseconds.
pub const TICK_EACH_MS: u64 = 1000;

/// `out` is what `zone` may give on the tick `tick_count`, for some random draw.
pub open spec fn zone_tick_output(zone: &Zone, tick_count: u64, out: Seq<Message>) -> bool {
    exists|picks: Seq<Option<(u32, u32)>>|
        valid_picks(zone, picks) && out == spec_zone_animate(
            zone,
            tick_count,
            picks,
            zone.animated_corpses@.len() as int,
        )
}

/// `out` is what `zone` may give in reaction to `event`, for some random draw.
pub open spec fn zone_event_output(zone: &Zone, event: EventView, out: Seq<Message>) -> bool {
    exists|picks: Seq<Option<(u32, u32)>>|
        valid_picks(zone, picks) && out == spec_zone_on_event(
            zone,
            event,
            picks,
            zone.animated_corpses@.len() as int,
        )
}

/// The first `n` outputs, one after the other.
pub open spec fn concat_prefix(outs: Seq<Seq<Message>>, n: int) -> Seq<Message>
    decreases n,
{
    if n <= 0 {
        seq![]
    } else {
        concat_prefix(outs, n - 1) + outs[n - 1]
    }
}

/// The zone is the one at (`world_row_i`, `world_col_i`).
pub open spec fn at_coordinates(zone: &Zone, coordinates: (u32, u32)) -> bool {
    zone.world_row_i == coordinates.0 && zone.world_col_i == coordinates.1
}

/// The fixed-tick scheduler: its tick counter and its period.
pub struct Scheduler {
    pub tick_count: u64,
    pub period_ms: u64,
}

impl Scheduler {
    pub fn new(period_ms: u64) -> (r: Self)
        ensures
            r.tick_count == 0,
            r.period_ms == period_ms,
    {
        Scheduler { tick_count: 0, period_ms }
    }

    /// How long to sleep before the next tick when `elapsed_ms` went by since the
    /// last one: the rest of the period, or nothing once the period is spent.
    pub fn sleep_for(&self, elapsed_ms: u64) -> (r: u64)
        ensures
            elapsed_ms >= self.period_ms ==> r == 0,
            elapsed_ms < self.period_ms ==> r == self.period_ms - elapsed_ms,
    {
        self.period_ms.saturating_sub(elapsed_ms)
    }

    /// One tick: every zone animated with the current tick count, in registry
    /// order, then the count advanced by one (back to 0 after the largest count).
    pub fn tick(&mut self, zones: &Vec<Zone>) -> (r: Vec<Message>)
        ensures
            exists|outs: Seq<Seq<Message>>|
                {
                    &&& outs.len() == zones@.len()
                    &&& forall|i: int| 0 <= i < outs.len() ==> zone_tick_output(&zones@[i], old(self).tick_count, #[trigger] outs[i])
                    &&& r@ == concat_prefix(outs, outs.len() as int)
                },
            old(self).tick_count < u64::MAX ==> final(self).tick_count == old(self).tick_count + 1,
            old(self).tick_count == u64::MAX ==> final(self).tick_count == 0,
            final(self).period_ms == old(self).period_ms,
    {
        let messages = animate_zones(zones, self.tick_count);
        self.tick_count = self.tick_count.wrapping_add(1);
        messages
    }
}

/// Every zone animated with `tick_count`, in registry order.
pub fn animate_zones(zones: &Vec<Zone>, tick_count: u64) -> (r: Vec<Message>)
    ensures
        exists|outs: Seq<Seq<Message>>|
            {
                &&& outs.len() == zones@.len()
                &&& forall|i: int| 0 <= i < outs.len() ==> zone_tick_output(&zones@[i], tick_count, #[trigger] outs[i])
                &&& r@ == concat_prefix(outs, outs.len() as int)
            },
{
    let mut messages: Vec<Message> = Vec::new();
    let ghost mut outs: Seq<Seq<Message>> = seq![];
    let mut i: usize = 0;
    while i < zones.len()
        invariant
            0 <= i <= zones.len(),
            outs.len() == i,
            forall|j: int| 0 <= j < i ==> zone_tick_output(&zones@[j], tick_count, #[trigger] outs[j]),
            messages@ == concat_prefix(outs, i as int),
        decreases zones.len() - i,
    {
        let mut out = zones[i].animate(tick_count);
        proof {
            let prev = outs;
            outs = outs.push(out@);
            assert(concat_prefix(prev, i as int) =~= concat_prefix(outs, i as int)) by {
                lemma_concat_prefix_stable(prev, outs, i as int);
            }
        }
        messages.append(&mut out);
        i = i + 1;
    }
    messages
}

/// A prefix concatenation only reads the outputs it covers.
proof fn lemma_concat_prefix_stable(a: Seq<Seq<Message>>, b: Seq<Seq<Message>>, n: int)
    requires
        0 <= n <= a.len(),
        n <= b.len(),
        forall|j: int| 0 <= j < n ==> a[j] == b[j],
    ensures
        concat_prefix(a, n) == concat_prefix(b, n),
    decreases n,
{
    if n > 0 {
        lemma_concat_prefix_stable(a, b, n - 1);
    }
}

/// The event only drives the connection itself and never reaches the zones.
pub open spec fn is_control(event_type: EventTypeView) -> bool {
    event_type is ClientWantClose || event_type is ServerPermitClose
}

/// `m` is the zone mutation that mirrors the event `e`, bound for the event's zone.
pub open spec fn mirrors(e: EventView, m: Message) -> bool {
    let coordinates = (e.world_row_i, e.world_col_i);
    match e.event_type {
        EventTypeView::PlayerMove { to_row_i, to_col_i, character_id } => m matches Message::Zone(
            ZoneMessage::UpdateCharacterPosition(id, r, c),
            k,
        ) && id@ == character_id && r == to_row_i && c == to_col_i && k == coordinates,
        EventTypeView::CharacterEnter { zone_row_i, zone_col_i, character_id } => m matches Message::Zone(
            ZoneMessage::AddCharacter(id, r, c),
            k,
        ) && id@ == character_id && r == zone_row_i && c == zone_col_i && k == coordinates,
        EventTypeView::CharacterExit { character_id } => m matches Message::Zone(
            ZoneMessage::RemoveCharacter(id),
            k,
        ) && id@ == character_id && k == coordinates,
        EventTypeView::NewBuild { build } => m matches Message::Zone(ZoneMessage::AddBuild(b), k) && b@ == build
            && k == coordinates,
        _ => false,
    }
}

/// The kinds of event that are mirrored by a zone mutation.
pub open spec fn is_mirrored(event_type: EventTypeView) -> bool {
    event_type is PlayerMove || event_type is CharacterEnter || event_type is CharacterExit
        || event_type is NewBuild
}

/// The zone mutation that mirrors an event, for the kinds that have one.
pub fn mirror_event(event: ZoneEvent) -> (r: Option<Message>)
    ensures
        r is Some <==> is_mirrored(event@.event_type),
        r matches Some(m) ==> mirrors(event@, m),
{
    let coordinates = (event.world_row_i, event.world_col_i);
    match event.event_type {
        ZoneEventType::PlayerMove { to_row_i, to_col_i, character_id } => Some(
            Message::Zone(ZoneMessage::UpdateCharacterPosition(character_id, to_row_i, to_col_i), coordinates),
        ),
        ZoneEventType::CharacterEnter { zone_row_i, zone_col_i, character_id } => Some(
            Message::Zone(ZoneMessage::AddCharacter(character_id, zone_row_i, zone_col_i), coordinates),
        ),
        ZoneEventType::CharacterExit { character_id } => Some(
            Message::Zone(ZoneMessage::RemoveCharacter(character_id), coordinates),
        ),
        ZoneEventType::NewBuild { build } => Some(Message::Zone(ZoneMessage::AddBuild(build), coordinates)),
        _ => None,
    }
}

/// `new` is the zone `old` once it saw `event`: reacted if it is at the event's
/// coordinates, untouched otherwise.
pub open spec fn zone_after_event(old: &Zone, new: &Zone, event: EventView) -> bool {
    if at_coordinates(old, (event.world_row_i, event.world_col_i)) {
        &&& new.animated_corpses@ == corpses_after_event(old.animated_corpses@, event)
        &&& new.characters == old.characters
        &&& new.builds == old.builds
        &&& new.rows == old.rows
        &&& new.tiles == old.tiles
        &&& new.world_row_i == old.world_row_i
        &&& new.world_col_i == old.world_col_i
    } else {
        new == old
    }
}

/// `new` is the registry `old` once every zone saw `event`.
pub open spec fn zones_after_event(old: Seq<Zone>, new: Seq<Zone>, event: EventView) -> bool {
    &&& new.len() == old.len()
    &&& forall|i: int| 0 <= i < old.len() ==> zone_after_event(&old[i], #[trigger] &new[i], event)
}

/// Hands the event to every zone at its coordinates, in registry order.
pub fn dispatch_event(zones: &mut Vec<Zone>, event: &ZoneEvent) -> (r: Vec<Message>)
    ensures
        exists|outs: Seq<Seq<Message>>|
            {
                &&& outs.len() == old(zones)@.len()
                &&& forall|i: int| 0 <= i < outs.len() ==> {
                    if at_coordinates(&old(zones)@[i], (event.world_row_i, event.world_col_i)) {
                        zone_event_output(&old(zones)@[i], event@, #[trigger] outs[i])
                    } else {
                        outs[i] == Seq::<Message>::empty()
                    }
                }
                &&& r@ == concat_prefix(outs, outs.len() as int)
            },
        zones_after_event(old(zones)@, final(zones)@, event@),
{
    let mut messages: Vec<Message> = Vec::new();
    let ghost mut outs: Seq<Seq<Message>> = seq![];
    let mut i: usize = 0;
    while i < zones.len()
        invariant
            0 <= i <= zones.len(),
            zones@.len() == old(zones)@.len(),
            outs.len() == i,
            forall|j: int| 0 <= j < i ==> {
                if at_coordinates(&old(zones)@[j], (event.world_row_i, event.world_col_i)) {
                    zone_event_output(&old(zones)@[j], event@, #[trigger] outs[j])
                } else {
                    outs[j] == Seq::<Message>::empty()
                }
            },
            messages@ == concat_prefix(outs, i as int),
            forall|j: int| i <= j < zones@.len() ==> #[trigger] zones@[j] == old(zones)@[j],
            forall|j: int| 0 <= j < i ==> zone_after_event(&old(zones)@[j], #[trigger] &zones@[j], event@),
        decreases zones.len() - i,
    {
        let mut out: Vec<Message> = Vec::new();
        if event.world_row_i == zones[i].world_row_i && event.world_col_i == zones[i].world_col_i {
            out = zones[i].on_event(event);
        }
        proof {
            let prev = outs;
            outs = outs.push(out@);
            lemma_concat_prefix_stable(prev, outs, i as int);
        }
        messages.append(&mut out);
        i = i + 1;
    }
    messages
}

/// What the event router does with one decoded event: connection events are
/// dropped; others give their mirroring mutation, if they have one, then the
/// reactions of the zone at their coordinates.
pub fn route_event(zones: &mut Vec<Zone>, event: ZoneEvent) -> (r: Vec<Message>)
    ensures
        is_control(event@.event_type) ==> r@.len() == 0 && final(zones)@ == old(zones)@,
        !is_control(event@.event_type) ==> {
            &&& zones_after_event(old(zones)@, final(zones)@, event@)
            &&& exists|outs: Seq<Seq<Message>>, mirrored: Seq<Message>|
                {
                    &&& outs.len() == old(zones)@.len()
                    &&& forall|i: int| 0 <= i < outs.len() ==> {
                        if at_coordinates(&old(zones)@[i], (event@.world_row_i, event@.world_col_i)) {
                            zone_event_output(&old(zones)@[i], event@, #[trigger] outs[i])
                        } else {
                            outs[i] == Seq::<Message>::empty()
                        }
                    }
                    &&& (is_mirrored(event@.event_type) ==> mirrored.len() == 1 && mirrors(event@, mirrored[0]))
                    &&& (!is_mirrored(event@.event_type) ==> mirrored.len() == 0)
                    &&& r@ == mirrored + concat_prefix(outs, outs.len() as int)
                }
        },
{
    match &event.event_type {
        ZoneEventType::ClientWantClose | ZoneEventType::ServerPermitClose => {
            return Vec::new();
        },
        _ => {},
    }
    let ghost e = event@;
    let mut reactions = dispatch_event(zones, &event);
    let mut messages: Vec<Message> = Vec::new();
    if let Some(m) = mirror_event(event) {
        messages.push(m);
    }
    let ghost mirrored = messages@;
    let ghost reacted = reactions@;
    messages.append(&mut reactions);
    proof {
        assert(messages@ == mirrored + reacted);
    }
    messages
}

/// Where the message router sends one bus message.
#[derive(Debug, PartialEq)]
pub enum MessageRoute {
    /// To the network, as this event.
    Send(ZoneEvent),
    /// Applied to the zone at this index of the registry.
    Applied(usize),
    /// For the zone at this index, once the animated corpse of this id is fetched.
    FetchAnimatedCorpse(usize, AnimatedCorpseId),
    /// No zone is at the message's coordinates.
    Dropped,
}

/// Index of the first zone at `coordinates`, if any.
pub open spec fn first_zone_at(zones: Seq<Zone>, coordinates: (u32, u32)) -> Option<int> {
    if exists|i: int| 0 <= i < zones.len() && at_coordinates(&zones[i], coordinates) {
        Some(
            choose|i: int|
                0 <= i < zones.len() && at_coordinates(&zones[i], coordinates) && forall|j: int|
                    0 <= j < i ==> !at_coordinates(&zones[j], coordinates),
        )
    } else {
        None
    }
}

/// Finds the first zone at `coordinates`.
pub fn find_zone(zones: &Vec<Zone>, coordinates: (u32, u32)) -> (r: Option<usize>)
    ensures
        match r {
            Some(i) => first_zone_at(zones@, coordinates) == Some(i as int) && i < zones@.len(),
            None => first_zone_at(zones@, coordinates) is None,
        },
{
    let mut i: usize = 0;
    while i < zones.len()
        invariant
            0 <= i <= zones.len(),
            forall|j: int| 0 <= j < i ==> !at_coordinates(#[trigger] &zones@[j], coordinates),
        decreases zones.len() - i,
    {
        if zones[i].world_row_i == coordinates.0 && zones[i].world_col_i == coordinates.1 {
            proof {
                let k = choose|k: int|
                    0 <= k < zones@.len() && at_coordinates(&zones@[k], coordinates) && forall|j: int|
                        0 <= j < k ==> !at_coordinates(&zones@[j], coordinates);
                if k < i {
                    assert(!at_coordinates(&zones@[k], coordinates));
                }
                if i < k {
                    assert(!at_coordinates(&zones@[i as int], coordinates));
                }
            }
            return Some(i);
        }
        i = i + 1;
    }
    None
}

/// What the message router does with one bus message: an outbound request
/// becomes an event for the network; a zone mutation is applied to the first
/// zone at its coordinates, or dropped when there is none. Adding an animated
/// corpse is left to the caller, who fetches it without holding the registry.
pub fn route_message(zones: &mut Vec<Zone>, message: Message) -> (r: MessageRoute)
    ensures
        match message {
            Message::Event(request, coordinates) => {
                &&& r matches MessageRoute::Send(e) && e@ == crate::event::spec_event_from_message(request, coordinates.0, coordinates.1)
                &&& final(zones)@ == old(zones)@
            },
            Message::Zone(mutation, coordinates) => match first_zone_at(old(zones)@, coordinates) {
                None => r == MessageRoute::Dropped && final(zones)@ == old(zones)@,
                Some(i) => match mutation {
                    ZoneMessage::AddAnimatedCorpse(id) => {
                        &&& r == MessageRoute::FetchAnimatedCorpse(i as usize, id)
                        &&& final(zones)@ == old(zones)@
                    },
                    _ => {
                        &&& r == MessageRoute::Applied(i as usize)
                        &&& final(zones)@.len() == old(zones)@.len()
                        &&& spec_applied(&old(zones)@[i], &final(zones)@[i], mutation)
                        &&& forall|j: int| 0 <= j < old(zones)@.len() && j != i ==> #[trigger] final(zones)@[j] == old(zones)@[j]
                    },
                },
            },
        },
{
    match message {
        Message::Event(request, coordinates) => {
            let event = ZoneEvent::from_message(request, coordinates.0, coordinates.1);
            MessageRoute::Send(event)
        },
        Message::Zone(mutation, coordinates) => {
            match find_zone(zones, coordinates) {
                None => MessageRoute::Dropped,
                Some(i) => {
                    match mutation {
                        ZoneMessage::AddAnimatedCorpse(id) => MessageRoute::FetchAnimatedCorpse(i, id),
                        _ => {
                            zones[i].on_message(mutation);
                            MessageRoute::Applied(i)
                        },
                    }
                },
            }
        },
    }
}

} // verus!
