//! Dispatch of statements into abstract commands.
//!
//! Each statement kind invokes to exactly one command for an external
//! collaborator; a log statement instead yields a line for the diagnostic
//! sink, and a narration box is suppressed while a rewind is in flight.
use vstd::prelude::*;

use crate::VisualNovelState;
use crate::actor::{ActorChangeMessage, ActorChangeMessageV};
use crate::audio::{AudioChangeMessage, AudioChangeMessageV};
use crate::background::{BackgroundChangeMessage, BackgroundChangeMessageV};
use crate::chat::{
    CharacterSayMessage, CharacterSayMessageV, InfoTextMessage, InfoTextMessageV, UiChangeMessage,
    UiChangeMessageV, UiChangeTarget,
};
use crate::compiler::ast::{
    CodeStatement, CodeStatementV, Dialogue, DialogueV, ExprV, InfoText, InfoTextV, StageCommand,
    StageCommandV, Statement, StatementV, TextItem, eval_chars, exprs_view,
};

verus! {

/// The command that asks for the active scene to change.
#[derive(Debug)]
pub struct SceneChangeMessage {
    pub scene_id: String,
}

/// Mathematical image of a [`SceneChangeMessage`].
pub struct SceneChangeMessageV {
    pub scene_id: Seq<char>,
}

impl View for SceneChangeMessage {
    type V = SceneChangeMessageV;

    open spec fn view(&self) -> SceneChangeMessageV {
        SceneChangeMessageV { scene_id: self.scene_id@ }
    }
}

/// The command that asks for another act to be loaded.
#[derive(Debug)]
pub struct ActChangeMessage {
    pub act_id: String,
}

/// Mathematical image of an [`ActChangeMessage`].
pub struct ActChangeMessageV {
    pub act_id: Seq<char>,
}

impl View for ActChangeMessage {
    type V = ActChangeMessageV;

    open spec fn view(&self) -> ActChangeMessageV {
        ActChangeMessageV { act_id: self.act_id@ }
    }
}

/// One abstract command for an external collaborator; every operand is an
/// evaluated primitive value, never an unevaluated expression.
#[derive(Debug)]
pub enum Command {
    Say(CharacterSayMessage),
    Info(InfoTextMessage),
    Background(BackgroundChangeMessage),
    Ui(UiChangeMessage),
    Scene(SceneChangeMessage),
    NextAct(ActChangeMessage),
    Actor(ActorChangeMessage),
    Audio(AudioChangeMessage),
}

/// Mathematical image of a [`Command`].
pub enum CommandV {
    Say(CharacterSayMessageV),
    Info(InfoTextMessageV),
    Background(BackgroundChangeMessageV),
    Ui(UiChangeMessageV),
    Scene(SceneChangeMessageV),
    NextAct(ActChangeMessageV),
    Actor(ActorChangeMessageV),
    Audio(AudioChangeMessageV),
}

impl View for Command {
    type V = CommandV;

    open spec fn view(&self) -> CommandV {
        match self {
            Command::Say(m) => CommandV::Say(m@),
            Command::Info(m) => CommandV::Info(m@),
            Command::Background(m) => CommandV::Background(m@),
            Command::Ui(m) => CommandV::Ui(m@),
            Command::Scene(m) => CommandV::Scene(m@),
            Command::NextAct(m) => CommandV::NextAct(m@),
            Command::Actor(m) => CommandV::Actor(m@),
            Command::Audio(m) => CommandV::Audio(m@),
        }
    }
}

/// Why a dispatch failed: the ui change does not carry the operand its
/// target needs.
#[derive(Clone, Copy, Debug, PartialEq, Eq, Structural)]
pub enum InvokeError {
    MissingUiOperand(UiChangeTarget),
}

/// What one dispatched statement produced: a command, a line for the
/// diagnostic sink, or nothing at all.
#[derive(Debug)]
pub enum Invoked {
    Command(Command),
    Log(String),
    Nothing,
}

/// Mathematical image of an [`Invoked`].
pub enum InvokedV {
    Command(CommandV),
    Log(Seq<char>),
    Nothing,
}

impl View for Invoked {
    type V = InvokedV;

    open spec fn view(&self) -> InvokedV {
        match self {
            Invoked::Command(c) => InvokedV::Command(c@),
            Invoked::Log(s) => InvokedV::Log(s@),
            Invoked::Nothing => InvokedV::Nothing,
        }
    }
}

/// The command a dialogue line dispatches: the character says the
/// evaluated text.
pub open spec fn invoke_dialogue_spec(d: DialogueV) -> CommandV {
    CommandV::Say(CharacterSayMessageV { name: d.character, message: eval_chars(d.dialogue) })
}

/// The command a stage direction dispatches, or the reason it cannot.
pub open spec fn invoke_stage_spec(s: StageCommandV) -> Result<CommandV, InvokeError> {
    match s {
        StageCommandV::BackgroundChange { operation } => Ok(
            CommandV::Background(BackgroundChangeMessageV { operation }),
        ),
        StageCommandV::UiChange {
            ui_target,
            target_font,
            sprite_expr,
            image_mode,
            ui_sounds,
            typing_sound,
        } => match ui_target {
            UiChangeTarget::Font => match target_font {
                Some(e) => Ok(
                    CommandV::Ui(UiChangeMessageV {
                        ui_target,
                        target_font: Some(eval_chars(e)),
                        sprite_id: None,
                        image_mode: None,
                        ui_sounds: None,
                        typing_sound: None,
                    }),
                ),
                None => Err(InvokeError::MissingUiOperand(ui_target)),
            },
            UiChangeTarget::UiSounds => match ui_sounds {
                Some(e) => Ok(
                    CommandV::Ui(UiChangeMessageV {
                        ui_target,
                        target_font: None,
                        sprite_id: None,
                        image_mode: None,
                        ui_sounds: Some(eval_chars(e)),
                        typing_sound: None,
                    }),
                ),
                None => Err(InvokeError::MissingUiOperand(ui_target)),
            },
            UiChangeTarget::TypingSound => match typing_sound {
                Some(e) => Ok(
                    CommandV::Ui(UiChangeMessageV {
                        ui_target,
                        target_font: None,
                        sprite_id: None,
                        image_mode: None,
                        ui_sounds: None,
                        typing_sound: Some(eval_chars(e)),
                    }),
                ),
                None => Err(InvokeError::MissingUiOperand(ui_target)),
            },
            _ => match sprite_expr {
                Some(e) => Ok(
                    CommandV::Ui(UiChangeMessageV {
                        ui_target,
                        target_font: None,
                        sprite_id: Some(eval_chars(e)),
                        image_mode,
                        ui_sounds: None,
                        typing_sound: None,
                    }),
                ),
                None => Err(InvokeError::MissingUiOperand(ui_target)),
            },
        },
        StageCommandV::SceneChange { scene_expr } => Ok(
            CommandV::Scene(SceneChangeMessageV { scene_id: eval_chars(scene_expr) }),
        ),
        StageCommandV::ActChange { act_expr } => Ok(
            CommandV::NextAct(ActChangeMessageV { act_id: eval_chars(act_expr) }),
        ),
        StageCommandV::CharacterChange { character, operation } => Ok(
            CommandV::Actor(ActorChangeMessageV { name: character, operation }),
        ),
        StageCommandV::AnimationChange { animation, operation } => Ok(
            CommandV::Actor(ActorChangeMessageV { name: animation, operation }),
        ),
        StageCommandV::AudioChange { command, category, audio, volume } => Ok(
            CommandV::Audio(AudioChangeMessageV { command, category, audio, volume }),
        ),
    }
}

/// The diagnostic line of a log statement: the evaluated expressions
/// joined by single spaces.
pub open spec fn log_line_spec(exprs: Seq<ExprV>) -> Seq<char>
    decreases exprs.len(),
{
    if exprs.len() == 0 {
        Seq::empty()
    } else if exprs.len() == 1 {
        eval_chars(exprs[0])
    } else {
        log_line_spec(exprs.drop_last()) + " "@ + eval_chars(exprs.last())
    }
}

/// What a statement dispatches, given the rewind counter at dispatch time.
pub open spec fn invoke_spec(s: StatementV, rewinding: int) -> Result<InvokedV, InvokeError> {
    match s {
        StatementV::TextItem(t) => match t {
            crate::compiler::ast::TextItemV::Dialogue(d) => Ok(
                InvokedV::Command(invoke_dialogue_spec(d)),
            ),
            crate::compiler::ast::TextItemV::InfoText(i) => {
                if rewinding == 0 {
                    Ok(
                        InvokedV::Command(
                            CommandV::Info(InfoTextMessageV { text: eval_chars(i.infotext) }),
                        ),
                    )
                } else {
                    Ok(InvokedV::Nothing)
                }
            },
        },
        StatementV::Stage(sc) => match invoke_stage_spec(sc) {
            Ok(c) => Ok(InvokedV::Command(c)),
            Err(e) => Err(e),
        },
        StatementV::Code(c) => match c {
            CodeStatementV::Log { exprs } => Ok(InvokedV::Log(log_line_spec(exprs))),
        },
    }
}

/// The blocking flag after a statement dispatches: a spoken line always
/// blocks, a narration box blocks unless it was suppressed by a rewind,
/// everything else leaves the flag alone.
pub open spec fn invoke_blocking_spec(s: StatementV, rewinding: int, blocking: bool) -> bool {
    match s {
        StatementV::TextItem(t) => match t {
            crate::compiler::ast::TextItemV::Dialogue(_) => true,
            crate::compiler::ast::TextItemV::InfoText(_) => if rewinding == 0 {
                true
            } else {
                blocking
            },
        },
        _ => blocking,
    }
}

impl Dialogue {
    /// Dispatches this line: emits the say command and blocks the script
    /// until the collaborator signals that the message was acknowledged.
    pub fn invoke(&self, state: &mut VisualNovelState) -> (c: Command)
        ensures
            c@ == invoke_dialogue_spec(self@),
            *final(state) == (VisualNovelState { blocking: true, ..*old(state) }),
    {
        let dialogue = self.dialogue.evaluate_into_string();
        state.blocking = true;
        Command::Say(CharacterSayMessage { name: self.character.clone(), message: dialogue })
    }
}

impl InfoText {
    /// Dispatches this narration box. While a rewind is in flight the
    /// command is suppressed and the blocking flag is left alone, so that
    /// stepping backwards over a narration cannot wedge the rewind.
    pub fn invoke(&self, state: &mut VisualNovelState) -> (r: Invoked)
        ensures
            old(state).rewinding == 0 ==> {
                &&& r@ == InvokedV::Command(
                    CommandV::Info(InfoTextMessageV { text: eval_chars(self@.infotext) }),
                )
                &&& *final(state) == (VisualNovelState { blocking: true, ..*old(state) })
            },
            old(state).rewinding != 0 ==> {
                &&& r@ == InvokedV::Nothing
                &&& *final(state) == *old(state)
            },
    {
        if state.rewinding == 0 {
            let text = self.infotext.evaluate_into_string();
            state.blocking = true;
            Invoked::Command(Command::Info(InfoTextMessage { text }))
        } else {
            Invoked::Nothing
        }
    }
}

impl StageCommand {
    /// Dispatches this stage direction into the command for its
    /// collaborator; fails exactly when a ui change misses the operand its
    /// target needs.
    pub fn invoke(&self) -> (r: Result<Command, InvokeError>)
        ensures
            match r {
                Ok(c) => invoke_stage_spec(self@) == Ok::<CommandV, InvokeError>(c@),
                Err(e) => invoke_stage_spec(self@) == Err::<CommandV, InvokeError>(e),
            },
    {
        match self {
            StageCommand::BackgroundChange { operation } => Ok(
                Command::Background(BackgroundChangeMessage { operation: operation.clone() }),
            ),
            StageCommand::UiChange {
                ui_target,
                target_font,
                sprite_expr,
                image_mode,
                ui_sounds,
                typing_sound,
            } => {
                match ui_target {
                    UiChangeTarget::Font => match target_font {
                        Some(e) => Ok(
                            Command::Ui(UiChangeMessage {
                                ui_target: *ui_target,
                                target_font: Some(e.evaluate_into_string()),
                                sprite_id: None,
                                image_mode: None,
                                ui_sounds: None,
                                typing_sound: None,
                            }),
                        ),
                        None => Err(InvokeError::MissingUiOperand(*ui_target)),
                    },
                    UiChangeTarget::UiSounds => match ui_sounds {
                        Some(e) => Ok(
                            Command::Ui(UiChangeMessage {
                                ui_target: *ui_target,
                                target_font: None,
                                sprite_id: None,
                                image_mode: None,
                                ui_sounds: Some(e.evaluate_into_string()),
                                typing_sound: None,
                            }),
                        ),
                        None => Err(InvokeError::MissingUiOperand(*ui_target)),
                    },
                    UiChangeTarget::TypingSound => match typing_sound {
                        Some(e) => Ok(
                            Command::Ui(UiChangeMessage {
                                ui_target: *ui_target,
                                target_font: None,
                                sprite_id: None,
                                image_mode: None,
                                ui_sounds: None,
                                typing_sound: Some(e.evaluate_into_string()),
                            }),
                        ),
                        None => Err(InvokeError::MissingUiOperand(*ui_target)),
                    },
                    _ => match sprite_expr {
                        Some(e) => Ok(
                            Command::Ui(UiChangeMessage {
                                ui_target: *ui_target,
                                target_font: None,
                                sprite_id: Some(e.evaluate_into_string()),
                                image_mode: *image_mode,
                                ui_sounds: None,
                                typing_sound: None,
                            }),
                        ),
                        None => Err(InvokeError::MissingUiOperand(*ui_target)),
                    },
                }
            },
            StageCommand::SceneChange { scene_expr } => {
                let scene_id = scene_expr.evaluate_into_string();
                Ok(Command::Scene(SceneChangeMessage { scene_id }))
            },
            StageCommand::ActChange { act_expr } => {
                let act_id = act_expr.evaluate_into_string();
                Ok(Command::NextAct(ActChangeMessage { act_id }))
            },
            StageCommand::CharacterChange { character, operation } => Ok(
                Command::Actor(ActorChangeMessage {
                    name: character.clone(),
                    operation: operation.clone(),
                }),
            ),
            StageCommand::AnimationChange { animation, operation } => Ok(
                Command::Actor(ActorChangeMessage {
                    name: animation.clone(),
                    operation: operation.clone(),
                }),
            ),
            StageCommand::AudioChange { command, category, audio, volume } => Ok(
                Command::Audio(AudioChangeMessage {
                    command: *command,
                    category: category.clone(),
                    audio: audio.clone(),
                    volume: *volume,
                }),
            ),
        }
    }
}

impl CodeStatement {
    /// Dispatches this code statement: yields the log line for the
    /// diagnostic sink; no command is emitted and the script never blocks.
    pub fn invoke(&self) -> (r: String)
        ensures
            match self@ {
                CodeStatementV::Log { exprs } => r@ == log_line_spec(exprs),
            },
    {
        match self {
            CodeStatement::Log { exprs } => {
                let mut line = String::new();
                let n = exprs.len();
                let mut k: usize = 0;
                proof {
                    assert(exprs_view(exprs@).take(0) =~= Seq::<ExprV>::empty());
                    assert(line@ =~= log_line_spec(exprs_view(exprs@).take(0)));
                }
                while k < n
                    invariant
                        n == exprs@.len(),
                        k <= n,
                        line@ == log_line_spec(exprs_view(exprs@).take(k as int)),
                    decreases n - k,
                {
                    let ghost prefix = exprs_view(exprs@).take(k as int);
                    let part = exprs[k].evaluate_into_string();
                    if k > 0 {
                        line.append(" ");
                    }
                    line.append(part.as_str());
                    proof {
                        let ev = exprs_view(exprs@);
                        assert(ev.take(k + 1).drop_last() =~= prefix);
                        assert(ev.take(k + 1).last() == ev[k as int]);
                    }
                    k = k + 1;
                }
                proof {
                    assert(exprs_view(exprs@).take(n as int) =~= exprs_view(exprs@));
                }
                line
            },
        }
    }
}

impl Statement {
    /// Dispatches this statement, handing text items the run state so they
    /// can set the blocking flag.
    pub fn invoke(&self, state: &mut VisualNovelState) -> (r: Result<Invoked, InvokeError>)
        ensures
            match r {
                Ok(iv) => invoke_spec(self@, old(state).rewinding as int) == Ok::<
                    InvokedV,
                    InvokeError,
                >(iv@),
                Err(e) => invoke_spec(self@, old(state).rewinding as int) == Err::<
                    InvokedV,
                    InvokeError,
                >(e),
            },
            *final(state) == (VisualNovelState {
                blocking: invoke_blocking_spec(
                    self@,
                    old(state).rewinding as int,
                    old(state).blocking,
                ),
                ..*old(state)
            }),
    {
        match self {
            Statement::TextItem(textitem) => match textitem {
                TextItem::Dialogue(dialogue) => Ok(Invoked::Command(dialogue.invoke(state))),
                TextItem::InfoText(infotext) => Ok(infotext.invoke(state)),
            },
            Statement::Stage(stage) => match stage.invoke() {
                Ok(c) => Ok(Invoked::Command(c)),
                Err(e) => Err(e),
            },
            Statement::Code(code) => Ok(Invoked::Log(code.invoke())),
        }
    }
}

/// Law: a narration box resolved while the rewind counter is positive
/// dispatches no command and cannot raise the blocking flag.
pub proof fn lemma_infotext_suppressed_under_rewind(i: InfoTextV, rewinding: int, blocking: bool)
    requires
        rewinding > 0,
    ensures
        invoke_spec(StatementV::TextItem(crate::compiler::ast::TextItemV::InfoText(i)), rewinding)
            == Ok::<InvokedV, InvokeError>(InvokedV::Nothing),
        invoke_blocking_spec(
            StatementV::TextItem(crate::compiler::ast::TextItemV::InfoText(i)),
            rewinding,
            blocking,
        ) == blocking,
{
}

} // verus!
