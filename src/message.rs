use vstd::prelude::*;

use crate::model::Build;

verus! {

pub type ZoneRowI = u32;

pub type ZoneColI = u32;

pub type WorldRowI = u32;

pub type WorldColI = u32;

pub type AnimatedCorpseId = u32;

pub type CharacterId = String;

/// The (world row, world col) pair that names one zone.
pub type ZoneCoordinates = (WorldRowI, WorldColI);

/// An intent to be reported to the server.
#[derive(Clone, Copy, Debug, PartialEq, Eq, Structural)]
pub enum SendEventMessage {
    RequireAnimatedCorpseMove(AnimatedCorpseId, ZoneRowI, ZoneColI),
}

/// A change to apply to the local mirror of one zone.
#[derive(Debug, PartialEq)]
pub enum ZoneMessage {
    UpdateAnimatedCorpsePosition(AnimatedCorpseId, ZoneRowI, ZoneColI),
    UpdateCharacterPosition(CharacterId, ZoneRowI, ZoneColI),
    AddBuild(Build),
    AddCharacter(CharacterId, ZoneRowI, ZoneColI),
    RemoveCharacter(CharacterId),
    AddAnimatedCorpse(AnimatedCorpseId),
}

/// An element of the internal bus: either bound for the network or for a zone.
#[derive(Debug, PartialEq)]
pub enum Message {
    Event(SendEventMessage, ZoneCoordinates),
    Zone(ZoneMessage, ZoneCoordinates),
}

} // verus!
