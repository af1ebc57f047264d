use vstd::prelude::*;

use crate::json::{
    int_member, is_int_member, is_str_member, spec_bool_of, spec_member, spec_str_of, spec_u32_of,
    str_member, JsonValue,
};
use crate::message::SendEventMessage;
use crate::model::{Build, BuildView};

verus! {

pub const PLAYER_MOVE: &'static str = "PLAYER_MOVE";

pub const ANIMATED_CORPSE_MOVE: &'static str = "ANIMATED_CORPSE_MOVE";

pub const CLIENT_WANT_CLOSE: &'static str = "CLIENT_WANT_CLOSE";

pub const SERVER_PERMIT_CLOSE: &'static str = "SERVER_PERMIT_CLOSE";

pub const CHARACTER_ENTER_ZONE: &'static str = "CHARACTER_ENTER_ZONE";

pub const CHARACTER_EXIT_ZONE: &'static str = "CHARACTER_EXIT_ZONE";

pub const NEW_BUILD: &'static str = "NEW_BUILD";

/// The typed payload of a zone event.
#[derive(Debug, PartialEq)]
pub enum ZoneEventType {
    ClientWantClose,
    ServerPermitClose,
    PlayerMove { to_row_i: u32, to_col_i: u32, character_id: String },
    AnimatedCorpseMove { to_row_i: u32, to_col_i: u32, animated_corpse_id: u32 },
    CharacterEnter { zone_row_i: u32, zone_col_i: u32, character_id: String },
    CharacterExit { character_id: String },
    NewBuild { build: Build },
}

/// A notification exchanged with the server about one zone.
#[derive(Debug, PartialEq)]
pub struct ZoneEvent {
    pub event_type: ZoneEventType,
    pub event_type_name: String,
    pub world_row_i: u32,
    pub world_col_i: u32,
}

/// The payload of an event with its strings seen as character sequences.
pub enum EventTypeView {
    ClientWantClose,
    ServerPermitClose,
    PlayerMove { to_row_i: u32, to_col_i: u32, character_id: Seq<char> },
    AnimatedCorpseMove { to_row_i: u32, to_col_i: u32, animated_corpse_id: u32 },
    CharacterEnter { zone_row_i: u32, zone_col_i: u32, character_id: Seq<char> },
    CharacterExit { character_id: Seq<char> },
    NewBuild { build: BuildView },
}

/// An event with its strings seen as character sequences.
pub struct EventView {
    pub event_type: EventTypeView,
    pub event_type_name: Seq<char>,
    pub world_row_i: u32,
    pub world_col_i: u32,
}

impl View for ZoneEventType {
    type V = EventTypeView;

    open spec fn view(&self) -> EventTypeView {
        match self {
            ZoneEventType::ClientWantClose => EventTypeView::ClientWantClose,
            ZoneEventType::ServerPermitClose => EventTypeView::ServerPermitClose,
            ZoneEventType::PlayerMove { to_row_i, to_col_i, character_id } => EventTypeView::PlayerMove {
                to_row_i: *to_row_i,
                to_col_i: *to_col_i,
                character_id: character_id@,
            },
            ZoneEventType::AnimatedCorpseMove { to_row_i, to_col_i, animated_corpse_id } => EventTypeView::AnimatedCorpseMove {
                to_row_i: *to_row_i,
                to_col_i: *to_col_i,
                animated_corpse_id: *animated_corpse_id,
            },
            ZoneEventType::CharacterEnter { zone_row_i, zone_col_i, character_id } => EventTypeView::CharacterEnter {
                zone_row_i: *zone_row_i,
                zone_col_i: *zone_col_i,
                character_id: character_id@,
            },
            ZoneEventType::CharacterExit { character_id } => EventTypeView::CharacterExit {
                character_id: character_id@,
            },
            ZoneEventType::NewBuild { build } => EventTypeView::NewBuild { build: build@ },
        }
    }
}

impl View for ZoneEvent {
    type V = EventView;

    open spec fn view(&self) -> EventView {
        EventView {
            event_type: self.event_type@,
            event_type_name: self.event_type_name@,
            world_row_i: self.world_row_i,
            world_col_i: self.world_col_i,
        }
    }
}

/// The wire tag of each kind of payload.
pub open spec fn spec_tag(event_type: EventTypeView) -> Seq<char> {
    match event_type {
        EventTypeView::ClientWantClose => CLIENT_WANT_CLOSE@,
        EventTypeView::ServerPermitClose => SERVER_PERMIT_CLOSE@,
        EventTypeView::PlayerMove { .. } => PLAYER_MOVE@,
        EventTypeView::AnimatedCorpseMove { .. } => ANIMATED_CORPSE_MOVE@,
        EventTypeView::CharacterEnter { .. } => CHARACTER_ENTER_ZONE@,
        EventTypeView::CharacterExit { .. } => CHARACTER_EXIT_ZONE@,
        EventTypeView::NewBuild { .. } => NEW_BUILD@,
    }
}

impl EventView {
    /// The name carried by the event is the tag of its payload.
    pub open spec fn well_formed(self) -> bool {
        self.event_type_name == spec_tag(self.event_type)
    }
}

/// The build described by a `build` wire object; only the walking mode is read.
pub open spec fn spec_decode_build(b: JsonValue) -> Option<BuildView> {
    let walking = spec_bool_of(spec_member(spec_member(b, "traversable"@).unwrap_or(JsonValue::Null), "WALKING"@));
    match (spec_u32_of(spec_member(b, "id"@)), spec_str_of(spec_member(b, "build_id"@)),
        spec_u32_of(spec_member(b, "row_i"@)), spec_u32_of(spec_member(b, "col_i"@)), walking) {
        (Some(id), Some(build_id), Some(row_i), Some(col_i), Some(can_walk)) => Some(BuildView {
            id,
            build_id,
            row_i,
            col_i,
            traversable: seq![("WALKING"@, can_walk)],
        }),
        _ => None,
    }
}

/// The payload described by the `data` member of an event tagged `tag`.
pub open spec fn spec_decode_data(tag: Seq<char>, data: JsonValue) -> Option<EventTypeView> {
    if tag == PLAYER_MOVE@ {
        match (spec_u32_of(spec_member(data, "to_row_i"@)), spec_u32_of(spec_member(data, "to_col_i"@)),
            spec_str_of(spec_member(data, "character_id"@))) {
            (Some(r), Some(c), Some(id)) => Some(EventTypeView::PlayerMove { to_row_i: r, to_col_i: c, character_id: id }),
            _ => None,
        }
    } else if tag == ANIMATED_CORPSE_MOVE@ {
        match (spec_u32_of(spec_member(data, "to_row_i"@)), spec_u32_of(spec_member(data, "to_col_i"@)),
            spec_u32_of(spec_member(data, "animated_corpse_id"@))) {
            (Some(r), Some(c), Some(id)) => Some(EventTypeView::AnimatedCorpseMove { to_row_i: r, to_col_i: c, animated_corpse_id: id }),
            _ => None,
        }
    } else if tag == CLIENT_WANT_CLOSE@ {
        Some(EventTypeView::ClientWantClose)
    } else if tag == SERVER_PERMIT_CLOSE@ {
        Some(EventTypeView::ServerPermitClose)
    } else if tag == CHARACTER_ENTER_ZONE@ {
        match (spec_u32_of(spec_member(data, "zone_row_i"@)), spec_u32_of(spec_member(data, "zone_col_i"@)),
            spec_str_of(spec_member(data, "character_id"@))) {
            (Some(r), Some(c), Some(id)) => Some(EventTypeView::CharacterEnter { zone_row_i: r, zone_col_i: c, character_id: id }),
            _ => None,
        }
    } else if tag == CHARACTER_EXIT_ZONE@ {
        match spec_str_of(spec_member(data, "character_id"@)) {
            Some(id) => Some(EventTypeView::CharacterExit { character_id: id }),
            None => None,
        }
    } else if tag == NEW_BUILD@ {
        match spec_member(data, "build"@) {
            Some(b) => match spec_decode_build(b) {
                Some(build) => Some(EventTypeView::NewBuild { build }),
                None => None,
            },
            None => None,
        }
    } else {
        None
    }
}

/// The event described by a wire object, if it describes one.
pub open spec fn spec_decode(v: JsonValue) -> Option<EventView> {
    match (spec_str_of(spec_member(v, "type"@)), spec_u32_of(spec_member(v, "world_row_i"@)),
        spec_u32_of(spec_member(v, "world_col_i"@)), spec_member(v, "data"@)) {
        (Some(tag), Some(world_row_i), Some(world_col_i), Some(data)) => match spec_decode_data(tag, data) {
            Some(event_type) => Some(EventView { event_type, event_type_name: tag, world_row_i, world_col_i }),
            None => None,
        },
        _ => None,
    }
}

/// `d` is the wire form of the payload `event_type`.
pub open spec fn spec_encoded_data(event_type: EventTypeView, d: JsonValue) -> bool {
    match event_type {
        EventTypeView::ClientWantClose => d == JsonValue::Null,
        EventTypeView::ServerPermitClose => d == JsonValue::Null,
        EventTypeView::PlayerMove { to_row_i, to_col_i, character_id } => {
            &&& d matches JsonValue::Object(es)
            &&& es@.len() == 3
            &&& is_int_member(es@[0], "to_row_i"@, to_row_i)
            &&& is_int_member(es@[1], "to_col_i"@, to_col_i)
            &&& is_str_member(es@[2], "character_id"@, character_id)
        },
        EventTypeView::AnimatedCorpseMove { to_row_i, to_col_i, animated_corpse_id } => {
            &&& d matches JsonValue::Object(es)
            &&& es@.len() == 3
            &&& is_int_member(es@[0], "to_row_i"@, to_row_i)
            &&& is_int_member(es@[1], "to_col_i"@, to_col_i)
            &&& is_int_member(es@[2], "animated_corpse_id"@, animated_corpse_id)
        },
        EventTypeView::CharacterEnter { zone_row_i, zone_col_i, character_id } => {
            &&& d matches JsonValue::Object(es)
            &&& es@.len() == 3
            &&& is_int_member(es@[0], "zone_row_i"@, zone_row_i)
            &&& is_int_member(es@[1], "zone_col_i"@, zone_col_i)
            &&& is_str_member(es@[2], "character_id"@, character_id)
        },
        EventTypeView::CharacterExit { character_id } => {
            &&& d matches JsonValue::Object(es)
            &&& es@.len() == 1
            &&& is_str_member(es@[0], "character_id"@, character_id)
        },
        EventTypeView::NewBuild { build } => {
            &&& d matches JsonValue::Object(es)
            &&& es@.len() == 1
            &&& es@[0].0@ == "build"@
            &&& spec_encoded_build(build, es@[0].1)
        },
    }
}

/// `b` is the wire form of a build: its five members in order, the modes last.
pub open spec fn spec_encoded_build(build: BuildView, b: JsonValue) -> bool {
    &&& b matches JsonValue::Object(bs)
    &&& bs@.len() == 5
    &&& is_int_member(bs@[0], "id"@, build.id)
    &&& is_str_member(bs@[1], "build_id"@, build.build_id)
    &&& is_int_member(bs@[2], "row_i"@, build.row_i)
    &&& is_int_member(bs@[3], "col_i"@, build.col_i)
    &&& bs@[4].0@ == "traversable"@
    &&& bs@[4].1 matches JsonValue::Object(ts)
    &&& ts@.len() == build.traversable.len()
    &&& forall|i: int| 0 <= i < ts@.len() ==> (#[trigger] ts@[i]).0@ == build.traversable[i].0
        && ts@[i].1 == JsonValue::Bool(build.traversable[i].1)
}

/// `v` is the wire form of the event `e`: its tag, its zone and its payload, in this order.
pub open spec fn spec_encoded(e: EventView, v: JsonValue) -> bool {
    &&& v matches JsonValue::Object(es)
    &&& es@.len() == 4
    &&& is_str_member(es@[0], "type"@, e.event_type_name)
    &&& is_int_member(es@[1], "world_row_i"@, e.world_row_i)
    &&& is_int_member(es@[2], "world_col_i"@, e.world_col_i)
    &&& es@[3].0@ == "data"@
    &&& spec_encoded_data(e.event_type, es@[3].1)
}

/// The request to move an animated corpse, as an event bound for the server.
pub open spec fn spec_event_from_message(message: SendEventMessage, world_row_i: u32, world_col_i: u32) -> EventView {
    match message {
        SendEventMessage::RequireAnimatedCorpseMove(animated_corpse_id, zone_row_i, zone_col_i) => EventView {
            event_type: EventTypeView::AnimatedCorpseMove { to_row_i: zone_row_i, to_col_i: zone_col_i, animated_corpse_id },
            event_type_name: ANIMATED_CORPSE_MOVE@,
            world_row_i,
            world_col_i,
        },
    }
}

fn decode_build(b: &JsonValue) -> (r: Option<Build>)
    ensures
        match r {
            Some(build) => spec_decode_build(*b) == Some(build@),
            None => spec_decode_build(*b) is None,
        },
{
    let walking = match b.member("traversable") {
        Some(t) => t.member_bool("WALKING"),
        None => JsonValue::Null.member_bool("WALKING"),
    };
    let id = b.member_u32("id");
    let build_id = b.member_str("build_id");
    let row_i = b.member_u32("row_i");
    let col_i = b.member_u32("col_i");
    match (id, build_id, row_i, col_i, walking) {
        (Some(id), Some(build_id), Some(row_i), Some(col_i), Some(can_walk)) => {
            let mut traversable: Vec<(String, bool)> = Vec::new();
            traversable.push((String::from_str("WALKING"), can_walk));
            let build = Build { id, build_id, row_i, col_i, traversable };
            assert(build@.traversable =~= seq![("WALKING"@, can_walk)]);
            Some(build)
        },
        _ => None,
    }
}

impl ZoneEvent {
    /// Decodes an event from its wire object.
    pub fn from_value(value: JsonValue) -> (r: Result<Self, String>)
        ensures
            match r {
                Ok(e) => spec_decode(value) == Some(e@),
                Err(_) => spec_decode(value) is None,
            },
    {
        let type_ = value.member_str("type");
        let world_row_i = value.member_u32("world_row_i");
        let world_col_i = value.member_u32("world_col_i");
        let data = value.member("data");
        let (type_, world_row_i, world_col_i, data) = match (type_, world_row_i, world_col_i, data) {
            (Some(t), Some(r), Some(c), Some(d)) => (t, r, c, d),
            _ => {
                return Err(String::from_str("Malformed event envelope"));
            },
        };
        let event_type = if type_ == String::from_str(PLAYER_MOVE) {
            match (data.member_u32("to_row_i"), data.member_u32("to_col_i"), data.member_str("character_id")) {
                (Some(r), Some(c), Some(id)) => Some(ZoneEventType::PlayerMove { to_row_i: r, to_col_i: c, character_id: id }),
                _ => None,
            }
        } else if type_ == String::from_str(ANIMATED_CORPSE_MOVE) {
            match (data.member_u32("to_row_i"), data.member_u32("to_col_i"), data.member_u32("animated_corpse_id")) {
                (Some(r), Some(c), Some(id)) => Some(ZoneEventType::AnimatedCorpseMove { to_row_i: r, to_col_i: c, animated_corpse_id: id }),
                _ => None,
            }
        } else if type_ == String::from_str(CLIENT_WANT_CLOSE) {
            Some(ZoneEventType::ClientWantClose)
        } else if type_ == String::from_str(SERVER_PERMIT_CLOSE) {
            Some(ZoneEventType::ServerPermitClose)
        } else if type_ == String::from_str(CHARACTER_ENTER_ZONE) {
            match (data.member_u32("zone_row_i"), data.member_u32("zone_col_i"), data.member_str("character_id")) {
                (Some(r), Some(c), Some(id)) => Some(ZoneEventType::CharacterEnter { zone_row_i: r, zone_col_i: c, character_id: id }),
                _ => None,
            }
        } else if type_ == String::from_str(CHARACTER_EXIT_ZONE) {
            match data.member_str("character_id") {
                Some(id) => Some(ZoneEventType::CharacterExit { character_id: id }),
                None => None,
            }
        } else if type_ == String::from_str(NEW_BUILD) {
            match data.member("build") {
                Some(b) => match decode_build(b) {
                    Some(build) => Some(ZoneEventType::NewBuild { build }),
                    None => None,
                },
                None => None,
            }
        } else {
            return Err(String::from_str("Unknown event ").concat(type_.as_str()));
        };
        match event_type {
            Some(event_type) => Ok(ZoneEvent { event_type, event_type_name: type_, world_row_i, world_col_i }),
            None => Err(String::from_str("Malformed event data for ").concat(type_.as_str())),
        }
    }

    /// The event that reports a requested move to the server.
    pub fn from_message(message: SendEventMessage, world_row_i: u32, world_col_i: u32) -> (r: Self)
        ensures
            r@ == spec_event_from_message(message, world_row_i, world_col_i),
    {
        match message {
            SendEventMessage::RequireAnimatedCorpseMove(animated_corpse_id, zone_row_i, zone_col_i) => Self {
                event_type_name: String::from_str(ANIMATED_CORPSE_MOVE),
                event_type: ZoneEventType::AnimatedCorpseMove {
                    to_row_i: zone_row_i,
                    to_col_i: zone_col_i,
                    animated_corpse_id,
                },
                world_row_i,
                world_col_i,
            },
        }
    }

    /// The event by which the engine asks the server to close the connection.
    pub fn client_want_close() -> (r: Self)
        ensures
            r@.event_type == EventTypeView::ClientWantClose,
            r@.event_type_name == CLIENT_WANT_CLOSE@,
            r.world_row_i == 0,
            r.world_col_i == 0,
    {
        ZoneEvent {
            event_type: ZoneEventType::ClientWantClose,
            event_type_name: String::from_str(CLIENT_WANT_CLOSE),
            world_row_i: 0,
            world_col_i: 0,
        }
    }

    /// Encodes the event as its wire object.
    pub fn to_value(&self) -> (r: JsonValue)
        ensures
            spec_encoded(self@, r),
    {
        let data = match &self.event_type {
            ZoneEventType::ClientWantClose => JsonValue::Null,
            ZoneEventType::ServerPermitClose => JsonValue::Null,
            ZoneEventType::PlayerMove { to_row_i, to_col_i, character_id } => {
                let mut es: Vec<(String, JsonValue)> = Vec::new();
                es.push(int_member("to_row_i", *to_row_i));
                es.push(int_member("to_col_i", *to_col_i));
                es.push(str_member("character_id", character_id));
                JsonValue::Object(es)
            },
            ZoneEventType::AnimatedCorpseMove { to_row_i, to_col_i, animated_corpse_id } => {
                let mut es: Vec<(String, JsonValue)> = Vec::new();
                es.push(int_member("to_row_i", *to_row_i));
                es.push(int_member("to_col_i", *to_col_i));
                es.push(int_member("animated_corpse_id", *animated_corpse_id));
                JsonValue::Object(es)
            },
            ZoneEventType::CharacterEnter { zone_row_i, zone_col_i, character_id } => {
                let mut es: Vec<(String, JsonValue)> = Vec::new();
                es.push(int_member("zone_row_i", *zone_row_i));
                es.push(int_member("zone_col_i", *zone_col_i));
                es.push(str_member("character_id", character_id));
                JsonValue::Object(es)
            },
            ZoneEventType::CharacterExit { character_id } => {
                let mut es: Vec<(String, JsonValue)> = Vec::new();
                es.push(str_member("character_id", character_id));
                JsonValue::Object(es)
            },
            ZoneEventType::NewBuild { build } => {
                let mut es: Vec<(String, JsonValue)> = Vec::new();
                es.push((String::from_str("build"), encode_build(build)));
                JsonValue::Object(es)
            },
        };
        let mut es: Vec<(String, JsonValue)> = Vec::new();
        es.push(str_member("type", &self.event_type_name));
        es.push(int_member("world_row_i", self.world_row_i));
        es.push(int_member("world_col_i", self.world_col_i));
        es.push((String::from_str("data"), data));
        JsonValue::Object(es)
    }
}

fn encode_build(build: &Build) -> (r: JsonValue)
    ensures
        spec_encoded_build(build@, r),
{
    let mut ts: Vec<(String, JsonValue)> = Vec::new();
    let mut i: usize = 0;
    while i < build.traversable.len()
        invariant
            0 <= i <= build.traversable.len(),
            ts@.len() == i,
            forall|j: int| 0 <= j < i ==> (#[trigger] ts@[j]).0@ == build@.traversable[j].0
                && ts@[j].1 == JsonValue::Bool(build@.traversable[j].1),
        decreases build.traversable.len() - i,
    {
        let key = build.traversable[i].0.clone();
        let value = JsonValue::Bool(build.traversable[i].1);
        ts.push((key, value));
        i = i + 1;
    }
    let mut bs: Vec<(String, JsonValue)> = Vec::new();
    bs.push(int_member("id", build.id));
    bs.push(str_member("build_id", &build.build_id));
    bs.push(int_member("row_i", build.row_i));
    bs.push(int_member("col_i", build.col_i));
    let ghost modes = ts@;
    bs.push((String::from_str("traversable"), JsonValue::Object(ts)));
    proof {
        assert(bs@[4].1 == JsonValue::Object(ts));
        assert(modes.len() == build@.traversable.len());
    }
    let r = JsonValue::Object(bs);
    proof {
        assert(spec_encoded_build(build@, r));
    }
    r
}

} // verus!

verus! {

/// The member names and tags of the wire format differ pairwise.
proof fn lemma_wire_names_distinct()
    ensures
        "type"@ != "world_row_i"@,
        "type"@ != "world_col_i"@,
        "world_row_i"@ != "world_col_i"@,
        "type"@ != "data"@,
        "world_row_i"@ != "data"@,
        "world_col_i"@ != "data"@,
        "to_row_i"@ != "to_col_i"@,
        "to_row_i"@ != "character_id"@,
        "to_col_i"@ != "character_id"@,
        "to_row_i"@ != "animated_corpse_id"@,
        "to_col_i"@ != "animated_corpse_id"@,
        "zone_row_i"@ != "zone_col_i"@,
        "zone_row_i"@ != "character_id"@,
        "zone_col_i"@ != "character_id"@,
        PLAYER_MOVE@ == "PLAYER_MOVE"@,
        ANIMATED_CORPSE_MOVE@ == "ANIMATED_CORPSE_MOVE"@,
        CLIENT_WANT_CLOSE@ == "CLIENT_WANT_CLOSE"@,
        SERVER_PERMIT_CLOSE@ == "SERVER_PERMIT_CLOSE"@,
        CHARACTER_ENTER_ZONE@ == "CHARACTER_ENTER_ZONE"@,
        CHARACTER_EXIT_ZONE@ == "CHARACTER_EXIT_ZONE"@,
        NEW_BUILD@ == "NEW_BUILD"@,
        "ANIMATED_CORPSE_MOVE"@ != "PLAYER_MOVE"@,
        "CLIENT_WANT_CLOSE"@ != "PLAYER_MOVE"@,
        "CLIENT_WANT_CLOSE"@ != "ANIMATED_CORPSE_MOVE"@,
        "SERVER_PERMIT_CLOSE"@ != "PLAYER_MOVE"@,
        "SERVER_PERMIT_CLOSE"@ != "ANIMATED_CORPSE_MOVE"@,
        "SERVER_PERMIT_CLOSE"@ != "CLIENT_WANT_CLOSE"@,
        "CHARACTER_ENTER_ZONE"@ != "PLAYER_MOVE"@,
        "CHARACTER_ENTER_ZONE"@ != "ANIMATED_CORPSE_MOVE"@,
        "CHARACTER_ENTER_ZONE"@ != "CLIENT_WANT_CLOSE"@,
        "CHARACTER_ENTER_ZONE"@ != "SERVER_PERMIT_CLOSE"@,
        "CHARACTER_EXIT_ZONE"@ != "PLAYER_MOVE"@,
        "CHARACTER_EXIT_ZONE"@ != "ANIMATED_CORPSE_MOVE"@,
        "CHARACTER_EXIT_ZONE"@ != "CLIENT_WANT_CLOSE"@,
        "CHARACTER_EXIT_ZONE"@ != "SERVER_PERMIT_CLOSE"@,
        "CHARACTER_EXIT_ZONE"@ != "CHARACTER_ENTER_ZONE"@,
{
    reveal_strlit("type");
    reveal_strlit("world_row_i");
    reveal_strlit("world_col_i");
    reveal_strlit("data");
    reveal_strlit("to_row_i");
    reveal_strlit("to_col_i");
    reveal_strlit("zone_row_i");
    reveal_strlit("zone_col_i");
    reveal_strlit("character_id");
    reveal_strlit("animated_corpse_id");
    reveal_strlit("PLAYER_MOVE");
    reveal_strlit("ANIMATED_CORPSE_MOVE");
    reveal_strlit("CLIENT_WANT_CLOSE");
    reveal_strlit("SERVER_PERMIT_CLOSE");
    reveal_strlit("CHARACTER_ENTER_ZONE");
    reveal_strlit("CHARACTER_EXIT_ZONE");
    reveal_strlit("NEW_BUILD");
    assert("type"@.len() != "world_row_i"@.len());
    assert("type"@.len() != "world_col_i"@.len());
    assert("world_row_i"@[6] != "world_col_i"@[6]);
    assert("type"@[0] != "data"@[0]);
    assert("world_row_i"@.len() != "data"@.len());
    assert("world_col_i"@.len() != "data"@.len());
    assert("to_row_i"@[3] != "to_col_i"@[3]);
    assert("to_row_i"@.len() != "character_id"@.len());
    assert("to_col_i"@.len() != "character_id"@.len());
    assert("to_row_i"@.len() != "animated_corpse_id"@.len());
    assert("to_col_i"@.len() != "animated_corpse_id"@.len());
    assert("zone_row_i"@[5] != "zone_col_i"@[5]);
    assert("zone_row_i"@.len() != "character_id"@.len());
    assert("zone_col_i"@.len() != "character_id"@.len());
    assert("ANIMATED_CORPSE_MOVE"@.len() != "PLAYER_MOVE"@.len());
    assert("CLIENT_WANT_CLOSE"@.len() != "PLAYER_MOVE"@.len());
    assert("CLIENT_WANT_CLOSE"@.len() != "ANIMATED_CORPSE_MOVE"@.len());
    assert("SERVER_PERMIT_CLOSE"@.len() != "PLAYER_MOVE"@.len());
    assert("SERVER_PERMIT_CLOSE"@.len() != "ANIMATED_CORPSE_MOVE"@.len());
    assert("SERVER_PERMIT_CLOSE"@.len() != "CLIENT_WANT_CLOSE"@.len());
    assert("CHARACTER_ENTER_ZONE"@.len() != "PLAYER_MOVE"@.len());
    assert("CHARACTER_ENTER_ZONE"@[0] != "ANIMATED_CORPSE_MOVE"@[0]);
    assert("CHARACTER_ENTER_ZONE"@.len() != "CLIENT_WANT_CLOSE"@.len());
    assert("CHARACTER_ENTER_ZONE"@.len() != "SERVER_PERMIT_CLOSE"@.len());
    assert("CHARACTER_EXIT_ZONE"@.len() != "PLAYER_MOVE"@.len());
    assert("CHARACTER_EXIT_ZONE"@.len() != "ANIMATED_CORPSE_MOVE"@.len());
    assert("CHARACTER_EXIT_ZONE"@.len() != "CLIENT_WANT_CLOSE"@.len());
    assert("CHARACTER_EXIT_ZONE"@[0] != "SERVER_PERMIT_CLOSE"@[0]);
    assert("CHARACTER_EXIT_ZONE"@.len() != "CHARACTER_ENTER_ZONE"@.len());
}

/// Decoding the wire form of a well-formed event gives back the same event, for
/// every payload but a build.
pub proof fn lemma_decode_encoded(e: EventView, v: JsonValue)
    requires
        e.well_formed(),
        !(e.event_type is NewBuild),
        spec_encoded(e, v),
    ensures
        spec_decode(v) == Some(e),
{
    reveal_with_fuel(crate::json::member_from, 5);
    lemma_wire_names_distinct();
    let es = v->Object_0@;
    assert(spec_member(v, "type"@) == Some(es[0].1));
    assert(spec_member(v, "world_row_i"@) == Some(es[1].1));
    assert(spec_member(v, "world_col_i"@) == Some(es[2].1));
    assert(spec_member(v, "data"@) == Some(es[3].1));
    assert(PLAYER_MOVE@ == "PLAYER_MOVE"@);
    let d = es[3].1;
    match e.event_type {
        EventTypeView::PlayerMove { .. } => {
            let ds = d->Object_0@;
            assert(spec_member(d, "to_row_i"@) == Some(ds[0].1));
            assert(spec_member(d, "to_col_i"@) == Some(ds[1].1));
            assert(spec_member(d, "character_id"@) == Some(ds[2].1));
        },
        EventTypeView::AnimatedCorpseMove { .. } => {
            let ds = d->Object_0@;
            assert(spec_member(d, "to_row_i"@) == Some(ds[0].1));
            assert(spec_member(d, "to_col_i"@) == Some(ds[1].1));
            assert(spec_member(d, "animated_corpse_id"@) == Some(ds[2].1));
        },
        EventTypeView::CharacterEnter { .. } => {
            let ds = d->Object_0@;
            assert(spec_member(d, "zone_row_i"@) == Some(ds[0].1));
            assert(spec_member(d, "zone_col_i"@) == Some(ds[1].1));
            assert(spec_member(d, "character_id"@) == Some(ds[2].1));
        },
        EventTypeView::CharacterExit { .. } => {
            let ds = d->Object_0@;
            assert(spec_member(d, "character_id"@) == Some(ds[0].1));
        },
        _ => {},
    }
}

} // verus!
