use vstd::prelude::*;

use crate::event::{EventTypeView, EventView, ZoneEvent, ZoneEventType};
use crate::json::{JsonValue, spec_member, spec_str_of, spec_u32_of};
use crate::message::{Message, ZoneMessage};

verus! {

/// The kinds of animated corpse; each kind has its table of behaviors.
#[derive(Clone, Copy, Debug, PartialEq, Eq, Structural)]
pub enum Type {
    HARE,
}

/// What every animated corpse has: its identity, kind, zone and place in the zone.
#[derive(Clone, Copy, Debug, PartialEq, Eq, Structural)]
pub struct AnimatedCorpseBase {
    pub id: u32,
    pub type_: Type,
    pub world_row_i: u32,
    pub world_col_i: u32,
    pub zone_row_i: u32,
    pub zone_col_i: u32,
}

/// A hare.
#[derive(Clone, Copy, Debug, PartialEq, Eq, Structural)]
pub struct Hare {
    pub base: AnimatedCorpseBase,
}

impl Hare {
    pub fn new(base: AnimatedCorpseBase) -> (r: Self)
        ensures
            r.base == base,
    {
        Hare { base }
    }
}

/// An animated corpse without reactions of its own.
#[derive(Clone, Copy, Debug, PartialEq, Eq, Structural)]
pub struct Generic {
    pub base: AnimatedCorpseBase,
}

impl Generic {
    pub fn new(base: AnimatedCorpseBase) -> (r: Self)
        ensures
            r.base == base,
    {
        Self { base }
    }
}

/// An animated corpse of any kind.
#[derive(Clone, Copy, Debug, PartialEq, Eq, Structural)]
pub enum AnimatedCorpse {
    Hare(Hare),
    Generic(Generic),
}

/// The message that keeps a zone's record of a corpse in step with a move the
/// server reported: the same move, bound for the zone at `zone_coordinates`.
pub open spec fn spec_position_sync(base: AnimatedCorpseBase, event: EventView, zone_coordinates: (u32, u32)) -> Seq<Message> {
    match event.event_type {
        EventTypeView::AnimatedCorpseMove { to_row_i, to_col_i, animated_corpse_id } => {
            if animated_corpse_id == base.id {
                seq![Message::Zone(
                    ZoneMessage::UpdateAnimatedCorpsePosition(base.id, to_row_i, to_col_i),
                    zone_coordinates,
                )]
            } else {
                seq![]
            }
        },
        _ => seq![],
    }
}

impl AnimatedCorpse {
    pub open spec fn spec_base(self) -> AnimatedCorpseBase {
        match self {
            AnimatedCorpse::Hare(h) => h.base,
            AnimatedCorpse::Generic(g) => g.base,
        }
    }

    /// The same corpse with another base.
    pub open spec fn with_base(self, base: AnimatedCorpseBase) -> AnimatedCorpse {
        match self {
            AnimatedCorpse::Hare(_) => AnimatedCorpse::Hare(Hare { base }),
            AnimatedCorpse::Generic(_) => AnimatedCorpse::Generic(Generic { base }),
        }
    }

    pub fn base(&self) -> (r: AnimatedCorpseBase)
        ensures
            r == self.spec_base(),
    {
        match self {
            AnimatedCorpse::Hare(h) => h.base,
            AnimatedCorpse::Generic(g) => g.base,
        }
    }

    pub fn type_(&self) -> (r: Type)
        ensures
            r == self.spec_base().type_,
    {
        self.base().type_
    }

    pub fn id(&self) -> (r: u32)
        ensures
            r == self.spec_base().id,
    {
        self.base().id
    }

    pub fn world_row_i(&self) -> (r: u32)
        ensures
            r == self.spec_base().world_row_i,
    {
        self.base().world_row_i
    }

    pub fn world_col_i(&self) -> (r: u32)
        ensures
            r == self.spec_base().world_col_i,
    {
        self.base().world_col_i
    }

    pub fn zone_row_i(&self) -> (r: u32)
        ensures
            r == self.spec_base().zone_row_i,
    {
        self.base().zone_row_i
    }

    pub fn zone_col_i(&self) -> (r: u32)
        ensures
            r == self.spec_base().zone_col_i,
    {
        self.base().zone_col_i
    }

    /// Replaces the base, keeping the kind.
    pub fn set_base(&mut self, base: AnimatedCorpseBase)
        ensures
            *final(self) == old(self).with_base(base),
    {
        match self {
            AnimatedCorpse::Hare(h) => h.base = base,
            AnimatedCorpse::Generic(g) => g.base = base,
        }
    }

    pub fn set_zone_row_i(&mut self, zone_row_i: u32)
        ensures
            *final(self) == old(self).with_base(AnimatedCorpseBase { zone_row_i, ..old(self).spec_base() }),
    {
        let base = AnimatedCorpseBase { zone_row_i, ..self.base() };
        self.set_base(base);
    }

    pub fn set_zone_col_i(&mut self, zone_col_i: u32)
        ensures
            *final(self) == old(self).with_base(AnimatedCorpseBase { zone_col_i, ..old(self).spec_base() }),
    {
        let base = AnimatedCorpseBase { zone_col_i, ..self.base() };
        self.set_base(base);
    }

    pub fn set_world_row_i(&mut self, world_row_i: u32)
        ensures
            *final(self) == old(self).with_base(AnimatedCorpseBase { world_row_i, ..old(self).spec_base() }),
    {
        let base = AnimatedCorpseBase { world_row_i, ..self.base() };
        self.set_base(base);
    }

    pub fn set_world_col_i(&mut self, world_col_i: u32)
        ensures
            *final(self) == old(self).with_base(AnimatedCorpseBase { world_col_i, ..old(self).spec_base() }),
    {
        let base = AnimatedCorpseBase { world_col_i, ..self.base() };
        self.set_base(base);
    }

    /// The reaction every corpse has to an event: when the event reports a move of
    /// this corpse, the mutation that records it in its zone, the one at
    /// `zone_coordinates`.
    pub fn sync_position(&self, event: &ZoneEvent, zone_coordinates: (u32, u32)) -> (r: Vec<Message>)
        ensures
            r@ == spec_position_sync(self.spec_base(), event@, zone_coordinates),
    {
        let mut messages: Vec<Message> = Vec::new();
        match &event.event_type {
            ZoneEventType::AnimatedCorpseMove { to_row_i, to_col_i, animated_corpse_id } => {
                if *animated_corpse_id == self.id() {
                    messages.push(
                        Message::Zone(
                            ZoneMessage::UpdateAnimatedCorpsePosition(self.id(), *to_row_i, *to_col_i),
                            zone_coordinates,
                        ),
                    );
                }
            },
            _ => {},
        }
        proof {
            assert(messages@ =~= spec_position_sync(self.spec_base(), event@, zone_coordinates));
        }
        messages
    }

    /// The reaction of the corpse's own kind to an event; no kind has one yet.
    pub fn on_event(&self, _event: &ZoneEvent) -> (r: Vec<Message>)
        ensures
            r@ == Seq::<Message>::empty(),
    {
        match self {
            AnimatedCorpse::Hare(_) => Vec::new(),
            AnimatedCorpse::Generic(_) => Vec::new(),
        }
    }

    /// The reaction of the corpse's own kind to a tick; no kind has one yet.
    pub fn animate(&self, _tick_count: u64) -> (r: Vec<Message>)
        ensures
            r@ == Seq::<Message>::empty(),
    {
        match self {
            AnimatedCorpse::Hare(_) => Vec::new(),
            AnimatedCorpse::Generic(_) => Vec::new(),
        }
    }
}

} // verus!

verus! {

/// The corpse described by a roster entry: its six base members, of a known kind.
/// The only kind is `HARE`, which makes a hare.
pub open spec fn spec_corpse_from_value(v: JsonValue) -> Option<AnimatedCorpse> {
    match (
        spec_u32_of(spec_member(v, "id"@)),
        spec_str_of(spec_member(v, "type_"@)),
        spec_u32_of(spec_member(v, "world_row_i"@)),
        spec_u32_of(spec_member(v, "world_col_i"@)),
        spec_u32_of(spec_member(v, "zone_row_i"@)),
        spec_u32_of(spec_member(v, "zone_col_i"@)),
    ) {
        (Some(id), Some(type_), Some(world_row_i), Some(world_col_i), Some(zone_row_i), Some(zone_col_i)) => {
            if type_ == "HARE"@ {
                Some(AnimatedCorpse::Hare(Hare {
                    base: AnimatedCorpseBase { id, type_: Type::HARE, world_row_i, world_col_i, zone_row_i, zone_col_i },
                }))
            } else {
                None
            }
        },
        _ => None,
    }
}

/// Builds an animated corpse from a roster entry.
pub fn animated_corpse_from_value(value: &JsonValue) -> (r: Result<AnimatedCorpse, String>)
    ensures
        match r {
            Ok(c) => spec_corpse_from_value(*value) == Some(c),
            Err(_) => spec_corpse_from_value(*value) is None,
        },
{
    let id = value.member_u32("id");
    let type_ = value.member_str("type_");
    let world_row_i = value.member_u32("world_row_i");
    let world_col_i = value.member_u32("world_col_i");
    let zone_row_i = value.member_u32("zone_row_i");
    let zone_col_i = value.member_u32("zone_col_i");
    match (id, type_, world_row_i, world_col_i, zone_row_i, zone_col_i) {
        (Some(id), Some(type_), Some(world_row_i), Some(world_col_i), Some(zone_row_i), Some(zone_col_i)) => {
            if type_ == String::from_str("HARE") {
                let base = AnimatedCorpseBase { id, type_: Type::HARE, world_row_i, world_col_i, zone_row_i, zone_col_i };
                Ok(AnimatedCorpse::Hare(Hare::new(base)))
            } else {
                Err(String::from_str("Unknown type ").concat(type_.as_str()))
            }
        },
        _ => Err(String::from_str("Malformed animated corpse")),
    }
}

} // verus!
