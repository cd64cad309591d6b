//! Chat-facing data: what part of the textbox user interface a ui stage
//! direction targets, and the messages dispatched to the chat collaborator.
use vstd::prelude::*;

verus! {

/// The part of the user interface a ui change addresses.
#[derive(Clone, Copy, Debug, PartialEq, Eq, Structural)]
pub enum UiChangeTarget {
    TextBoxBackground,
    NameBoxBackground,
    Font,
    UiSounds,
    TypingSound,
}

/// How a user-interface sprite is stretched.
#[derive(Clone, Copy, Debug, PartialEq, Eq, Structural)]
pub enum UiImageMode {
    Sliced,
    Auto,
}

impl Default for UiImageMode {
    /// Sprites are stretched automatically unless the script says `sliced`.
    fn default() -> (m: Self)
        ensures
            m == UiImageMode::Auto,
    {
        UiImageMode::Auto
    }
}

/// The command dispatched when a character speaks a line.
#[derive(Debug)]
pub struct CharacterSayMessage {
    pub name: String,
    pub message: String,
}

/// Mathematical image of a [`CharacterSayMessage`].
pub struct CharacterSayMessageV {
    pub name: Seq<char>,
    pub message: Seq<char>,
}

impl View for CharacterSayMessage {
    type V = CharacterSayMessageV;

    open spec fn view(&self) -> CharacterSayMessageV {
        CharacterSayMessageV { name: self.name@, message: self.message@ }
    }
}

/// The command dispatched when the narrator shows an information box.
#[derive(Debug)]
pub struct InfoTextMessage {
    pub text: String,
}

/// Mathematical image of an [`InfoTextMessage`].
pub struct InfoTextMessageV {
    pub text: Seq<char>,
}

impl View for InfoTextMessage {
    type V = InfoTextMessageV;

    open spec fn view(&self) -> InfoTextMessageV {
        InfoTextMessageV { text: self.text@ }
    }
}

/// The command dispatched for a ui change; only the operands that belong to
/// the target are filled.
#[derive(Debug)]
pub struct UiChangeMessage {
    pub ui_target: UiChangeTarget,
    pub target_font: Option<String>,
    pub sprite_id: Option<String>,
    pub image_mode: Option<UiImageMode>,
    pub ui_sounds: Option<String>,
    pub typing_sound: Option<String>,
}

/// Mathematical image of a [`UiChangeMessage`].
pub struct UiChangeMessageV {
    pub ui_target: UiChangeTarget,
    pub target_font: Option<Seq<char>>,
    pub sprite_id: Option<Seq<char>>,
    pub image_mode: Option<UiImageMode>,
    pub ui_sounds: Option<Seq<char>>,
    pub typing_sound: Option<Seq<char>>,
}

impl View for UiChangeMessage {
    type V = UiChangeMessageV;

    open spec fn view(&self) -> UiChangeMessageV {
        UiChangeMessageV {
            ui_target: self.ui_target,
            target_font: match self.target_font {
                Some(s) => Some(s@),
                None => None,
            },
            sprite_id: match self.sprite_id {
                Some(s) => Some(s@),
                None => None,
            },
            image_mode: self.image_mode,
            ui_sounds: match self.ui_sounds {
                Some(s) => Some(s@),
                None => None,
            },
            typing_sound: match self.typing_sound {
                Some(s) => Some(s@),
                None => None,
            },
        }
    }
}

} // verus!
