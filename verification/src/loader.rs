//! Actor configuration data: what a character or animation asset file
//! describes. The host application decodes the files and hands these
//! plain values over.
use vstd::prelude::*;

verus! {

/// A character's configuration: its default outfit and emotion and the
/// outfits and emotions its sprite sheets provide.
#[derive(Debug)]
pub struct CharacterConfig {
    pub name: String,
    pub outfit: String,
    pub emotion: String,
    pub description: String,
    pub emotions: Vec<String>,
    pub outfits: Vec<String>,
}

/// An animation's configuration: its sprite-sheet geometry and playback
/// frame range.
#[derive(Debug)]
pub struct AnimationConfig {
    pub name: String,
    pub width: usize,
    pub height: usize,
    pub fps: usize,
    pub rows: usize,
    pub columns: usize,
    pub start_index: usize,
    pub end_index: usize,
}

/// Either kind of actor configuration.
#[derive(Debug)]
pub enum ActorConfig {
    Character(CharacterConfig),
    Animation(AnimationConfig),
}

/// The loader of actor configuration files; the host application runs its
/// reading and decoding and hands the results to the library.
pub struct ActorJsonLoader;

impl ActorJsonLoader {
    /// The file extension the loader accepts.
    pub fn extensions(&self) -> (r: &'static str)
        ensures
            r@ == "json"@,
    {
        "json"
    }
}

impl Default for ActorJsonLoader {
    /// The loader carries no state.
    fn default() -> (r: Self)
        ensures
            r == ActorJsonLoader,
    {
        ActorJsonLoader
    }
}

} // verus!
