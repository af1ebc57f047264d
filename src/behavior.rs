use rand::seq::SliceRandom;
use vstd::prelude::*;

use crate::ac::{AnimatedCorpse, AnimatedCorpseBase, Type};
use crate::event::{EventTypeView, EventView, ZoneEvent, ZoneEventType};
use crate::message::{Message, SendEventMessage};
use crate::model::Character;
use crate::util::{
    direction_modifier, is_near, opposite_direction, position_direction_from, spec_direction_modifier,
    spec_is_near, spec_opposite_direction, spec_position_direction_from, Direction,
};
use crate::zone::{successor_positions, Zone};

verus! {

/// Chebyshev distance within which a character keeps a moving corpse away.
pub const EXCLUSION_RADIUS: u32 = 2;

/// Relies on rand's `SliceRandom::choose`, drawing with `rand::thread_rng()`: it
/// gives nothing for an empty slice and one of its elements otherwise.
#[verifier::external_body]
fn choose_position(positions: &Vec<(u32, u32)>) -> (r: Option<(u32, u32)>)
    ensures
        positions@.len() == 0 <==> r is None,
        r matches Some(p) ==> positions@.contains(p),
{
    positions.choose(&mut rand::thread_rng()).copied()
}

/// Moves the corpse to a random neighbor tile, away from characters.
#[derive(Clone, Copy, Debug, PartialEq, Eq, Structural)]
pub struct Move {
    pub move_in_pack: bool,
}

/// Makes the corpse flee from a player moving next to it.
#[derive(Clone, Copy, Debug, PartialEq, Eq, Structural)]
pub struct Fear {}

/// The behaviors a kind of corpse can have.
#[derive(Clone, Copy, Debug, PartialEq, Eq, Structural)]
pub enum Behavior {
    Move(Move),
    Fear(Fear),
}

/// The behavior table: the behaviors of each kind, in the order they react.
pub open spec fn spec_behaviors_for(type_: Type) -> Seq<Behavior> {
    match type_ {
        Type::HARE => seq![Behavior::Move(Move { move_in_pack: true }), Behavior::Fear(Fear {})],
    }
}

/// Some character stands within the exclusion radius of `position`.
pub open spec fn near_character(characters: Seq<Character>, position: (u32, u32)) -> bool {
    exists|i: int|
        0 <= i < characters.len() && #[trigger] spec_is_near(
            (characters[i].zone_row_i, characters[i].zone_col_i),
            position,
            EXCLUSION_RADIUS,
        )
}

/// The request, bound for the server, to move the corpse to `to`.
pub open spec fn move_request(base: AnimatedCorpseBase, to: (u32, u32)) -> Message {
    Message::Event(
        SendEventMessage::RequireAnimatedCorpseMove(base.id, to.0, to.1),
        (base.world_row_i, base.world_col_i),
    )
}

/// `pick` is a possible random draw among the successors of the corpse's position:
/// nothing exactly when there is no successor, one of them otherwise.
pub open spec fn valid_pick(zone: &Zone, base: AnimatedCorpseBase, pick: Option<(u32, u32)>) -> bool {
    let positions = successor_positions(zone, base.zone_row_i, base.zone_col_i);
    &&& (positions.len() == 0 <==> pick is None)
    &&& (pick matches Some(p) ==> positions.contains(p))
}

/// What Move asks on a tick, given the successor drawn: a move there, unless a
/// character is near it or there was none.
pub open spec fn spec_move_on_animate(zone: &Zone, base: AnimatedCorpseBase, pick: Option<(u32, u32)>) -> Seq<Message> {
    match pick {
        Some(p) => if near_character(zone.characters@, p) {
            seq![]
        } else {
            seq![move_request(base, p)]
        },
        None => seq![],
    }
}

/// The tile Fear flees to from a player coming from `direction`: one step the
/// other way, each coordinate floored at 0.
pub open spec fn spec_escape_tile(base: AnimatedCorpseBase, direction: Direction) -> (int, int) {
    let m = spec_direction_modifier(spec_opposite_direction(direction));
    let r = base.zone_row_i + m.0;
    let c = base.zone_col_i + m.1;
    (if r < 0 { 0 } else { r }, if c < 0 { 0 } else { c })
}

/// The escape tile is one of the successors of the corpse's position.
pub open spec fn escape_is_successor(zone: &Zone, base: AnimatedCorpseBase, e: (int, int)) -> bool {
    &&& e.0 <= u32::MAX
    &&& e.1 <= u32::MAX
    &&& successor_positions(zone, base.zone_row_i, base.zone_col_i).contains((e.0 as u32, e.1 as u32))
}

/// What Fear asks on an event, given the successor drawn: on a player move
/// classified into a direction, a move to the escape tile if it is a successor,
/// else to the drawn successor, else to where the corpse stands.
pub open spec fn spec_fear_on_event(
    zone: &Zone,
    base: AnimatedCorpseBase,
    event: EventView,
    pick: Option<(u32, u32)>,
) -> Seq<Message> {
    match event.event_type {
        EventTypeView::PlayerMove { to_row_i, to_col_i, .. } => {
            match spec_position_direction_from((base.zone_row_i, base.zone_col_i), (to_row_i, to_col_i)) {
                Some(direction) => {
                    let e = spec_escape_tile(base, direction);
                    let target = if escape_is_successor(zone, base, e) {
                        (e.0 as u32, e.1 as u32)
                    } else {
                        match pick {
                            Some(p) => p,
                            None => (base.zone_row_i, base.zone_col_i),
                        }
                    };
                    seq![move_request(base, target)]
                },
                None => seq![],
            }
        },
        _ => seq![],
    }
}

/// The tick cadence of a behavior: every how many ticks it fires, if ever.
pub open spec fn spec_animate_each(behavior: Behavior) -> Option<u8> {
    match behavior {
        Behavior::Move(_) => Some(1),
        Behavior::Fear(_) => None,
    }
}

/// A behavior of cadence `Some(n)` fires on the ticks that `n` divides; of
/// cadence `None`, never.
pub open spec fn fires(cadence: Option<u8>, tick_count: u64) -> bool {
    match cadence {
        Some(n) => n > 0 && tick_count % (n as u64) == 0,
        None => false,
    }
}

/// What a behavior asks in reaction to an event.
pub open spec fn spec_behavior_on_event(
    behavior: Behavior,
    zone: &Zone,
    base: AnimatedCorpseBase,
    event: EventView,
    pick: Option<(u32, u32)>,
) -> Seq<Message> {
    match behavior {
        Behavior::Move(_) => seq![],
        Behavior::Fear(_) => spec_fear_on_event(zone, base, event, pick),
    }
}

/// What a behavior asks when it fires on a tick.
pub open spec fn spec_behavior_on_animate(
    behavior: Behavior,
    zone: &Zone,
    base: AnimatedCorpseBase,
    pick: Option<(u32, u32)>,
) -> Seq<Message> {
    match behavior {
        Behavior::Move(_) => spec_move_on_animate(zone, base, pick),
        Behavior::Fear(_) => seq![],
    }
}

/// What a behavior asks on the tick `tick_count`: its tick reaction when it fires, nothing otherwise.
pub open spec fn spec_behavior_tick(
    behavior: Behavior,
    zone: &Zone,
    base: AnimatedCorpseBase,
    tick_count: u64,
    pick: Option<(u32, u32)>,
) -> Seq<Message> {
    if fires(spec_animate_each(behavior), tick_count) {
        spec_behavior_on_animate(behavior, zone, base, pick)
    } else {
        seq![]
    }
}

/// The messages of the first `n` behaviors of `behaviors` reacting to an event, in order.
pub open spec fn behaviors_on_event(
    behaviors: Seq<Behavior>,
    n: int,
    zone: &Zone,
    base: AnimatedCorpseBase,
    event: EventView,
    pick: Option<(u32, u32)>,
) -> Seq<Message>
    decreases n,
{
    if n <= 0 {
        seq![]
    } else {
        behaviors_on_event(behaviors, n - 1, zone, base, event, pick) + spec_behavior_on_event(
            behaviors[n - 1],
            zone,
            base,
            event,
            pick,
        )
    }
}

/// The messages of the first `n` behaviors of `behaviors` on a tick, in order.
pub open spec fn behaviors_on_tick(
    behaviors: Seq<Behavior>,
    n: int,
    zone: &Zone,
    base: AnimatedCorpseBase,
    tick_count: u64,
    pick: Option<(u32, u32)>,
) -> Seq<Message>
    decreases n,
{
    if n <= 0 {
        seq![]
    } else {
        behaviors_on_tick(behaviors, n - 1, zone, base, tick_count, pick) + spec_behavior_tick(
            behaviors[n - 1],
            zone,
            base,
            tick_count,
            pick,
        )
    }
}

/// The behaviors of a corpse's kind, looked up in the behavior table.
pub fn get_behaviors_for(animated_corpse: &AnimatedCorpse) -> (r: Vec<Behavior>)
    ensures
        r@ == spec_behaviors_for(animated_corpse.spec_base().type_),
{
    match animated_corpse.type_() {
        Type::HARE => {
            let mut behaviors: Vec<Behavior> = Vec::new();
            behaviors.push(Behavior::Move(Move::from_animated_corpse(animated_corpse)));
            behaviors.push(Behavior::Fear(Fear::from_animated_corpse(animated_corpse)));
            proof {
                assert(behaviors@ =~= spec_behaviors_for(animated_corpse.spec_base().type_));
            }
            behaviors
        },
    }
}

/// The positions of the successors of the corpse's position.
fn successor_positions_of(zone: &Zone, base: AnimatedCorpseBase) -> (r: Vec<(u32, u32)>)
    ensures
        r@ == successor_positions(zone, base.zone_row_i, base.zone_col_i),
{
    let successors = zone.get_successors(base.zone_row_i, base.zone_col_i);
    let mut positions: Vec<(u32, u32)> = Vec::new();
    let mut i: usize = 0;
    while i < successors.len()
        invariant
            0 <= i <= successors.len(),
            successors@ == crate::zone::spec_successors(zone, base.zone_row_i, base.zone_col_i),
            positions@ == successors@.subrange(0, i as int).map_values(|s: ((u32, u32), u32)| s.0),
        decreases successors.len() - i,
    {
        positions.push(successors[i].0);
        i = i + 1;
        proof {
            assert(positions@ =~= successors@.subrange(0, i as int).map_values(|s: ((u32, u32), u32)| s.0));
        }
    }
    proof {
        assert(successors@.subrange(0, i as int) =~= successors@);
    }
    positions
}

/// Draws the successor that a random choice among the corpse's successors gives.
pub fn draw_successor(zone: &Zone, base: AnimatedCorpseBase) -> (r: Option<(u32, u32)>)
    ensures
        valid_pick(zone, base, r),
{
    let positions = successor_positions_of(zone, base);
    choose_position(&positions)
}

fn near_any_character(characters: &Vec<Character>, position: (u32, u32)) -> (r: bool)
    ensures
        r == near_character(characters@, position),
{
    let mut i: usize = 0;
    while i < characters.len()
        invariant
            0 <= i <= characters.len(),
            forall|j: int| 0 <= j < i ==> !#[trigger] spec_is_near(
                (characters@[j].zone_row_i, characters@[j].zone_col_i),
                position,
                EXCLUSION_RADIUS,
            ),
        decreases characters.len() - i,
    {
        if is_near((characters[i].zone_row_i, characters[i].zone_col_i), position, EXCLUSION_RADIUS) {
            return true;
        }
        i = i + 1;
    }
    false
}

fn move_request_message(base: AnimatedCorpseBase, to: (u32, u32)) -> (r: Message)
    ensures
        r == move_request(base, to),
{
    Message::Event(
        SendEventMessage::RequireAnimatedCorpseMove(base.id, to.0, to.1),
        (base.world_row_i, base.world_col_i),
    )
}

impl Move {
    pub fn from_animated_corpse(animated_corpse: &AnimatedCorpse) -> (r: Self)
        ensures
            r == (Move { move_in_pack: true }),
    {
        let move_in_pack = match animated_corpse.type_() {
            Type::HARE => true,
        };
        Self { move_in_pack }
    }

    pub fn animate_each(&self) -> (r: Option<u8>)
        ensures
            r == spec_animate_each(Behavior::Move(*self)),
    {
        Some(1)
    }

    /// Reaction to an event. A peer of a pack-moving kind moving is where moving
    /// in a pack would react; nothing does yet.
    pub fn on_event(&self, _animated_corpse: &AnimatedCorpse, _event: &ZoneEvent, _zone: &Zone) -> (r: Vec<Message>)
        ensures
            r@ == Seq::<Message>::empty(),
    {
        Vec::new()
    }

    /// Tick reaction, given the successor drawn for the corpse.
    pub fn on_animate_with(&self, animated_corpse: &AnimatedCorpse, zone: &Zone, pick: Option<(u32, u32)>) -> (r: Vec<Message>)
        ensures
            r@ == spec_move_on_animate(zone, animated_corpse.spec_base(), pick),
    {
        let mut messages: Vec<Message> = Vec::new();
        if let Some(to) = pick {
            if !near_any_character(&zone.characters, to) {
                messages.push(move_request_message(animated_corpse.base(), to));
            }
        }
        proof {
            assert(messages@ =~= spec_move_on_animate(zone, animated_corpse.spec_base(), pick));
        }
        messages
    }

    /// Tick reaction: a move to a random successor, unless a character is near it.
    pub fn on_animate(&self, animated_corpse: &AnimatedCorpse, zone: &Zone) -> (r: Vec<Message>)
        ensures
            exists|pick: Option<(u32, u32)>|
                valid_pick(zone, animated_corpse.spec_base(), pick) && r@ == spec_move_on_animate(
                    zone,
                    animated_corpse.spec_base(),
                    pick,
                ),
    {
        let pick = draw_successor(zone, animated_corpse.base());
        self.on_animate_with(animated_corpse, zone, pick)
    }
}

impl Fear {
    pub fn from_animated_corpse(_animated_corpse: &AnimatedCorpse) -> (r: Self)
        ensures
            r == (Fear {}),
    {
        Self {}
    }

    pub fn animate_each(&self) -> (r: Option<u8>)
        ensures
            r == spec_animate_each(Behavior::Fear(*self)),
    {
        None
    }

    /// Reaction to an event, given the successor drawn for the corpse.
    pub fn on_event_with(
        &self,
        animated_corpse: &AnimatedCorpse,
        event: &ZoneEvent,
        zone: &Zone,
        pick: Option<(u32, u32)>,
    ) -> (r: Vec<Message>)
        ensures
            r@ == spec_fear_on_event(zone, animated_corpse.spec_base(), event@, pick),
    {
        let mut messages: Vec<Message> = Vec::new();
        let base = animated_corpse.base();
        match &event.event_type {
            ZoneEventType::PlayerMove { to_row_i, to_col_i, character_id: _ } => {
                if let Some(direction) = position_direction_from(
                    (base.zone_row_i, base.zone_col_i),
                    (*to_row_i, *to_col_i),
                ) {
                    let opposite = opposite_direction(direction);
                    let modifier = direction_modifier(opposite);
                    let r: i64 = base.zone_row_i as i64 + modifier.0 as i64;
                    let c: i64 = base.zone_col_i as i64 + modifier.1 as i64;
                    let escape_row_i: i64 = if r < 0 { 0 } else { r };
                    let escape_col_i: i64 = if c < 0 { 0 } else { c };
                    let positions = successor_positions_of(zone, base);
                    let mut found = false;
                    let mut i: usize = 0;
                    while i < positions.len()
                        invariant
                            0 <= i <= positions.len(),
                            found <==> exists|j: int| 0 <= j < i && positions@[j].0 as i64 == escape_row_i
                                && positions@[j].1 as i64 == escape_col_i,
                        decreases positions.len() - i,
                    {
                        if positions[i].0 as i64 == escape_row_i && positions[i].1 as i64 == escape_col_i {
                            found = true;
                        }
                        i = i + 1;
                    }
                    let target = if found {
                        (escape_row_i as u32, escape_col_i as u32)
                    } else {
                        match pick {
                            Some(p) => p,
                            None => (base.zone_row_i, base.zone_col_i),
                        }
                    };
                    proof {
                        let e = spec_escape_tile(base, direction);
                        assert(e == (escape_row_i as int, escape_col_i as int));
                        if found {
                            let j = choose|j: int| 0 <= j < positions@.len() && positions@[j].0 as i64 == escape_row_i
                                && positions@[j].1 as i64 == escape_col_i;
                            assert(positions@[j] == (e.0 as u32, e.1 as u32));
                            assert(escape_is_successor(zone, base, e));
                        } else {
                            if escape_is_successor(zone, base, e) {
                                let j = choose|j: int| 0 <= j < positions@.len() && positions@[j] == (e.0 as u32, e.1 as u32);
                                assert(positions@[j].0 as i64 == escape_row_i && positions@[j].1 as i64 == escape_col_i);
                            }
                        }
                    }
                    messages.push(move_request_message(base, target));
                }
            },
            _ => {},
        }
        proof {
            assert(messages@ =~= spec_fear_on_event(zone, animated_corpse.spec_base(), event@, pick));
        }
        messages
    }

    /// Reaction to an event: on a player move nearby, a move away from the player.
    pub fn on_event(&self, animated_corpse: &AnimatedCorpse, event: &ZoneEvent, zone: &Zone) -> (r: Vec<Message>)
        ensures
            exists|pick: Option<(u32, u32)>|
                valid_pick(zone, animated_corpse.spec_base(), pick) && r@ == spec_fear_on_event(
                    zone,
                    animated_corpse.spec_base(),
                    event@,
                    pick,
                ),
    {
        let pick = draw_successor(zone, animated_corpse.base());
        self.on_event_with(animated_corpse, event, zone, pick)
    }

    pub fn on_animate(&self, _animated_corpse: &AnimatedCorpse, _zone: &Zone) -> (r: Vec<Message>)
        ensures
            r@ == Seq::<Message>::empty(),
    {
        Vec::new()
    }
}

impl Behavior {
    pub fn animate_each(&self) -> (r: Option<u8>)
        ensures
            r == spec_animate_each(*self),
    {
        match self {
            Behavior::Move(m) => m.animate_each(),
            Behavior::Fear(f) => f.animate_each(),
        }
    }

    /// Reaction to an event, given the successor drawn for the corpse.
    pub fn on_event_with(
        &self,
        animated_corpse: &AnimatedCorpse,
        event: &ZoneEvent,
        zone: &Zone,
        pick: Option<(u32, u32)>,
    ) -> (r: Vec<Message>)
        ensures
            r@ == spec_behavior_on_event(*self, zone, animated_corpse.spec_base(), event@, pick),
    {
        match self {
            Behavior::Move(m) => m.on_event(animated_corpse, event, zone),
            Behavior::Fear(f) => f.on_event_with(animated_corpse, event, zone, pick),
        }
    }

    /// Tick reaction, given the successor drawn for the corpse.
    pub fn on_animate_with(&self, animated_corpse: &AnimatedCorpse, zone: &Zone, pick: Option<(u32, u32)>) -> (r: Vec<Message>)
        ensures
            r@ == spec_behavior_on_animate(*self, zone, animated_corpse.spec_base(), pick),
    {
        match self {
            Behavior::Move(m) => m.on_animate_with(animated_corpse, zone, pick),
            Behavior::Fear(f) => f.on_animate(animated_corpse, zone),
        }
    }
}

} // verus!

verus! {

/// On a tick, a behavior of cadence `Some(n)` gives its tick reaction exactly when
/// `n` divides the tick count, and nothing otherwise; a behavior of cadence `None`
/// gives nothing. Every cadence of the table is positive.
pub proof fn lemma_tick_follows_cadence(
    behavior: Behavior,
    zone: &Zone,
    base: AnimatedCorpseBase,
    tick_count: u64,
    pick: Option<(u32, u32)>,
)
    ensures
        spec_animate_each(behavior) matches Some(n) ==> {
            &&& n > 0
            &&& tick_count % (n as u64) == 0 ==> spec_behavior_tick(behavior, zone, base, tick_count, pick)
                == spec_behavior_on_animate(behavior, zone, base, pick)
            &&& tick_count % (n as u64) != 0 ==> spec_behavior_tick(behavior, zone, base, tick_count, pick)
                == Seq::<Message>::empty()
        },
        spec_animate_each(behavior) is None ==> spec_behavior_tick(behavior, zone, base, tick_count, pick)
            == Seq::<Message>::empty(),
{
}

/// Move stays put on a tick when every successor of the corpse's position lies
/// within the exclusion radius of some character, whichever successor is drawn.
pub proof fn lemma_move_blocked_by_characters(zone: &Zone, base: AnimatedCorpseBase, pick: Option<(u32, u32)>)
    requires
        valid_pick(zone, base, pick),
        forall|p: (u32, u32)|
            #[trigger] successor_positions(zone, base.zone_row_i, base.zone_col_i).contains(p)
                ==> near_character(zone.characters@, p),
    ensures
        spec_move_on_animate(zone, base, pick) == Seq::<Message>::empty(),
{
}

/// Fear flees to the tile one step opposite to the player whenever that tile is a
/// successor of the corpse's position, whichever successor is drawn.
pub proof fn lemma_fear_flees_opposite(
    zone: &Zone,
    base: AnimatedCorpseBase,
    event: EventView,
    pick: Option<(u32, u32)>,
)
    requires
        event.event_type matches EventTypeView::PlayerMove { to_row_i, to_col_i, .. }
            && spec_position_direction_from((base.zone_row_i, base.zone_col_i), (to_row_i, to_col_i)) is Some
            && escape_is_successor(
            zone,
            base,
            spec_escape_tile(
                base,
                spec_position_direction_from((base.zone_row_i, base.zone_col_i), (to_row_i, to_col_i))->0,
            ),
        ),
    ensures
        event.event_type matches EventTypeView::PlayerMove { to_row_i, to_col_i, .. } && {
            let e = spec_escape_tile(
                base,
                spec_position_direction_from((base.zone_row_i, base.zone_col_i), (to_row_i, to_col_i))->0,
            );
            spec_fear_on_event(zone, base, event, pick) == seq![move_request(base, (e.0 as u32, e.1 as u32))]
        },
{
}

} // verus!
