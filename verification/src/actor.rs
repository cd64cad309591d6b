//! Actor-facing data: stage positions, facing directions, spawn parameters,
//! and the operations a character- or animation-change statement can request.
use vstd::prelude::*;

verus! {

/// Named horizontal stage positions for a character sprite.
#[derive(Clone, Copy, Debug, PartialEq, Eq, Structural)]
pub enum CharacterPosition {
    Center,
    FarLeft,
    FarRight,
    Left,
    Right,
    InvisibleLeft,
    InvisibleRight,
}

/// Named screen positions for an animation sprite.
#[derive(Clone, Copy, Debug, PartialEq, Eq, Structural)]
pub enum AnimationPosition {
    Center,
    TopLeft,
    Top,
    TopRight,
    Left,
    Right,
    BottomLeft,
    Bottom,
    BottomRight,
}

impl CharacterPosition {
    /// The horizontal screen position of this stage position, as a
    /// percentage of the stage width.
    pub fn to_percentage_value(&self) -> (p: i64)
        ensures
            p == match *self {
                CharacterPosition::Center => 35int,
                CharacterPosition::FarLeft => 5int,
                CharacterPosition::FarRight => 65int,
                CharacterPosition::Left => 20int,
                CharacterPosition::Right => 50int,
                CharacterPosition::InvisibleLeft => -40int,
                CharacterPosition::InvisibleRight => 140int,
            },
    {
        match self {
            CharacterPosition::Center => 35,
            CharacterPosition::FarLeft => 5,
            CharacterPosition::FarRight => 65,
            CharacterPosition::Left => 20,
            CharacterPosition::Right => 50,
            CharacterPosition::InvisibleLeft => -40,
            CharacterPosition::InvisibleRight => 140,
        }
    }
}

/// A position for either kind of actor.
#[derive(Clone, Copy, Debug, PartialEq, Eq, Structural)]
pub enum ActorPosition {
    Character(CharacterPosition),
    Animation(AnimationPosition),
}

/// The way an actor faces.
#[derive(Clone, Copy, Debug, PartialEq, Eq, Structural)]
pub enum CharacterDirection {
    Left,
    Right,
}

impl Default for CharacterDirection {
    /// Actors face right unless the script says otherwise.
    fn default() -> (d: Self)
        ensures
            d == CharacterDirection::Right,
    {
        CharacterDirection::Right
    }
}

/// Parameters of a spawn request; the scale is the integer percentage the
/// script gave, if any.
#[derive(Debug)]
pub struct SpawnInfo {
    pub emotion: Option<String>,
    pub position: Option<ActorPosition>,
    pub direction: CharacterDirection,
    pub fading: bool,
    pub scale: Option<i64>,
}

/// Mathematical image of a [`SpawnInfo`].
pub struct SpawnInfoV {
    pub emotion: Option<Seq<char>>,
    pub position: Option<ActorPosition>,
    pub direction: CharacterDirection,
    pub fading: bool,
    pub scale: Option<i64>,
}

impl View for SpawnInfo {
    type V = SpawnInfoV;

    open spec fn view(&self) -> SpawnInfoV {
        SpawnInfoV {
            emotion: match self.emotion {
                Some(s) => Some(s@),
                None => None,
            },
            position: self.position,
            direction: self.direction,
            fading: self.fading,
            scale: self.scale,
        }
    }
}

impl Clone for SpawnInfo {
    fn clone(&self) -> (r: Self)
        ensures
            r == *self,
    {
        SpawnInfo {
            emotion: match &self.emotion {
                Some(s) => Some(s.clone()),
                None => None,
            },
            position: self.position,
            direction: self.direction,
            fading: self.fading,
            scale: self.scale,
        }
    }
}

impl Default for SpawnInfo {
    /// A spawn with everything left to defaults: no emotion, no explicit
    /// position, facing right, not fading, no scale.
    fn default() -> (r: Self)
        ensures
            r.emotion is None,
            r.position is None,
            r.direction == CharacterDirection::Right,
            !r.fading,
            r.scale is None,
    {
        SpawnInfo {
            emotion: None,
            position: None,
            direction: CharacterDirection::Right,
            fading: false,
            scale: None,
        }
    }
}

/// One operation requested of an actor by a stage command.
#[derive(Debug)]
pub enum ActorOperation {
    Spawn(SpawnInfo),
    EmotionChange(String),
    /// The flag says whether the actor fades out while despawning.
    Despawn(bool),
    Look(CharacterDirection),
    Move(ActorPosition),
}

/// Mathematical image of an [`ActorOperation`].
pub enum ActorOperationV {
    Spawn(SpawnInfoV),
    EmotionChange(Seq<char>),
    Despawn(bool),
    Look(CharacterDirection),
    Move(ActorPosition),
}

impl View for ActorOperation {
    type V = ActorOperationV;

    open spec fn view(&self) -> ActorOperationV {
        match self {
            ActorOperation::Spawn(info) => ActorOperationV::Spawn(info@),
            ActorOperation::EmotionChange(e) => ActorOperationV::EmotionChange(e@),
            ActorOperation::Despawn(f) => ActorOperationV::Despawn(*f),
            ActorOperation::Look(d) => ActorOperationV::Look(*d),
            ActorOperation::Move(p) => ActorOperationV::Move(*p),
        }
    }
}

impl Clone for ActorOperation {
    fn clone(&self) -> (r: Self)
        ensures
            r == *self,
    {
        match self {
            ActorOperation::Spawn(info) => ActorOperation::Spawn(info.clone()),
            ActorOperation::EmotionChange(e) => ActorOperation::EmotionChange(e.clone()),
            ActorOperation::Despawn(f) => ActorOperation::Despawn(*f),
            ActorOperation::Look(d) => ActorOperation::Look(*d),
            ActorOperation::Move(p) => ActorOperation::Move(*p),
        }
    }
}

/// The command dispatched to the actor collaborator for a character or
/// animation change.
#[derive(Debug)]
pub struct ActorChangeMessage {
    pub name: String,
    pub operation: ActorOperation,
}

/// Mathematical image of an [`ActorChangeMessage`].
pub struct ActorChangeMessageV {
    pub name: Seq<char>,
    pub operation: ActorOperationV,
}

impl View for ActorChangeMessage {
    type V = ActorChangeMessageV;

    open spec fn view(&self) -> ActorChangeMessageV {
        ActorChangeMessageV { name: self.name@, operation: self.operation@ }
    }
}

impl ActorChangeMessage {
    /// Whether this actor change pauses the script: only a fading spawn and
    /// a fading despawn do.
    pub open spec fn is_blocking_spec(&self) -> bool {
        match self.operation {
            ActorOperation::Spawn(info) => info.fading,
            ActorOperation::Despawn(fading) => fading,
            _ => false,
        }
    }

    pub fn is_blocking(&self) -> (b: bool)
        ensures
            b == self.is_blocking_spec(),
    {
        match &self.operation {
            ActorOperation::Spawn(info) => info.fading,
            ActorOperation::Despawn(fading) => *fading,
            _ => false,
        }
    }
}

} // verus!
