use sabi::actor::{ActorOperation, ActorPosition, AnimationPosition, CharacterDirection, CharacterPosition};
use sabi::audio::AudioCommand;
use sabi::background::{BackgroundDirection, BackgroundOperation};
use sabi::chat::{UiChangeTarget, UiImageMode};
use sabi::compiler::ast::{Act, Expr, StageCommand, Statement, TextItem};
use sabi::compiler::grammar::{parse_act, tokenize, ParseErrorKind, Token, TokenKind};

fn parse_ok(src: &str) -> Act {
    match parse_act(src) {
        Ok(a) => a,
        Err(e) => panic!("parse failed: {:?} at {} ({})", e.kind, e.pos, e.item),
    }
}

#[test]
fn tokenizer_splits_words_numbers_strings() {
    let toks: Vec<Token> = tokenize("scene intro: \"hi there\" + -42\n").unwrap();
    let kinds: Vec<&TokenKind> = toks.iter().map(|t| &t.kind).collect();
    assert!(matches!(kinds[0], TokenKind::Word(w) if w == "scene"));
    assert!(matches!(kinds[1], TokenKind::Word(w) if w == "intro"));
    assert!(matches!(kinds[2], TokenKind::Colon));
    assert!(matches!(kinds[3], TokenKind::Str(s) if s == "hi there"));
    assert!(matches!(kinds[4], TokenKind::Plus));
    assert!(matches!(kinds[5], TokenKind::Num(-42)));
    assert!(matches!(kinds[6], TokenKind::Newline));
    assert_eq!(toks.len(), 7);
}

#[test]
fn tokenizer_rejects_unterminated_string() {
    let e = tokenize("bob: \"oops").unwrap_err();
    assert!(matches!(e.kind, ParseErrorKind::UnterminatedString));
    assert_eq!(e.pos, 5);
}

#[test]
fn tokenizer_rejects_stray_character() {
    let e = tokenize("bob: ?").unwrap_err();
    assert!(matches!(e.kind, ParseErrorKind::BadChar));
    assert_eq!(e.pos, 5);
}

#[test]
fn tokenizer_rejects_oversized_number() {
    let e = tokenize("log 1234567890123456789").unwrap_err();
    assert!(matches!(e.kind, ParseErrorKind::NumberTooLarge));
}

#[test]
fn single_scene_with_dialogue() {
    let act = parse_ok("scene intro\nbob: \"Hello \" + \"World\"\n");
    assert_eq!(act.entrypoint, "intro");
    assert_eq!(act.scenes.len(), 1);
    assert_eq!(act.scenes[0].name, "intro");
    assert_eq!(act.scenes[0].statements.len(), 1);
    match &act.scenes[0].statements[0] {
        Statement::TextItem(TextItem::Dialogue(d)) => {
            assert_eq!(d.character, "bob");
            assert_eq!(d.dialogue.evaluate_into_string(), "Hello World");
        }
        other => panic!("expected a dialogue, got {:?}", other),
    }
}

#[test]
fn dialogue_with_emotion_expands_to_two_statements() {
    let act = parse_ok("scene s\nbob: happy: \"Hi\", \"Again\"\n");
    let sts = &act.scenes[0].statements;
    assert_eq!(sts.len(), 3);
    match &sts[0] {
        Statement::Stage(StageCommand::CharacterChange { character, operation }) => {
            assert_eq!(character, "bob");
            assert!(matches!(operation, ActorOperation::EmotionChange(e) if e == "happy"));
        }
        other => panic!("expected an emotion change, got {:?}", other),
    }
    assert!(matches!(&sts[1], Statement::TextItem(TextItem::Dialogue(d)) if d.character == "bob"));
    assert!(matches!(&sts[2], Statement::TextItem(TextItem::Dialogue(_))));
}

#[test]
fn narrator_line_becomes_infotext() {
    let act = parse_ok("scene s\nnarrator: \"It was late.\"\n");
    match &act.scenes[0].statements[0] {
        Statement::TextItem(TextItem::InfoText(i)) => {
            assert_eq!(i.infotext.evaluate_into_string(), "It was late.");
        }
        other => panic!("expected infotext, got {:?}", other),
    }
}

#[test]
fn log_line_becomes_code_statement() {
    let act = parse_ok("scene s\nlog \"x=\", 1 + 2\n");
    match &act.scenes[0].statements[0] {
        Statement::Code(sabi::compiler::ast::CodeStatement::Log { exprs }) => {
            assert_eq!(exprs.len(), 2);
            assert!(matches!(&exprs[1], Expr::Add { .. }));
        }
        other => panic!("expected a log statement, got {:?}", other),
    }
}

#[test]
fn duplicate_scene_names_are_rejected() {
    let e = parse_act("scene intro\nbob: \"a\"\nscene intro\nbob: \"b\"\n").unwrap_err();
    assert!(matches!(e.kind, ParseErrorKind::DuplicateScene));
    assert_eq!(e.item, "intro");
}

#[test]
fn empty_script_is_rejected() {
    let e = parse_act("\n  \n").unwrap_err();
    assert!(matches!(e.kind, ParseErrorKind::EmptyAct));
}

#[test]
fn statement_before_first_scene_is_rejected() {
    let e = parse_act("bob: \"too early\"\nscene s\n").unwrap_err();
    assert!(matches!(e.kind, ParseErrorKind::UnexpectedToken));
    assert_eq!(e.pos, 0);
}

#[test]
fn entrypoint_is_first_scene_in_source_order() {
    let act = parse_ok("scene one\nbob: \"a\"\nscene two\nbob: \"b\"\n");
    assert_eq!(act.entrypoint, "one");
    assert_eq!(act.scenes.len(), 2);
    assert_eq!(act.scenes[1].name, "two");
}

#[test]
fn background_commands_parse() {
    let act = parse_ok(
        "scene s\n[background change \"street\"]\n[background dissolve]\n[background slide North]\n",
    );
    let sts = &act.scenes[0].statements;
    assert!(matches!(
        &sts[0],
        Statement::Stage(StageCommand::BackgroundChange {
            operation: BackgroundOperation::ChangeTo(t)
        }) if t == "street"
    ));
    assert!(matches!(
        &sts[1],
        Statement::Stage(StageCommand::BackgroundChange {
            operation: BackgroundOperation::DissolveTo(None)
        })
    ));
    assert!(matches!(
        &sts[2],
        Statement::Stage(StageCommand::BackgroundChange {
            operation: BackgroundOperation::SlideTo(BackgroundDirection::North)
        })
    ));
}

#[test]
fn ui_commands_parse() {
    let act = parse_ok("scene s\n[ui textbox \"plate\" sliced]\n[ui font \"serif\"]\n");
    let sts = &act.scenes[0].statements;
    match &sts[0] {
        Statement::Stage(StageCommand::UiChange { ui_target, sprite_expr, image_mode, .. }) => {
            assert!(matches!(ui_target, UiChangeTarget::TextBoxBackground));
            assert!(matches!(image_mode, Some(UiImageMode::Sliced)));
            assert!(sprite_expr.is_some());
        }
        other => panic!("expected a ui change, got {:?}", other),
    }
    match &sts[1] {
        Statement::Stage(StageCommand::UiChange { ui_target, target_font, .. }) => {
            assert!(matches!(ui_target, UiChangeTarget::Font));
            assert!(target_font.is_some());
        }
        other => panic!("expected a ui change, got {:?}", other),
    }
}

#[test]
fn character_commands_parse() {
    let act = parse_ok(
        "scene s\n[character bob appears emotion happy at far left looks left]\n[character bob moves center]\n[character bob fade out]\n",
    );
    let sts = &act.scenes[0].statements;
    match &sts[0] {
        Statement::Stage(StageCommand::CharacterChange { character, operation }) => {
            assert_eq!(character, "bob");
            match operation {
                ActorOperation::Spawn(info) => {
                    assert_eq!(info.emotion.as_deref(), Some("happy"));
                    assert!(matches!(
                        info.position,
                        Some(ActorPosition::Character(CharacterPosition::FarLeft))
                    ));
                    assert!(matches!(info.direction, CharacterDirection::Left));
                    assert!(!info.fading);
                }
                other => panic!("expected a spawn, got {:?}", other),
            }
        }
        other => panic!("expected a character change, got {:?}", other),
    }
    assert!(matches!(
        &sts[1],
        Statement::Stage(StageCommand::CharacterChange {
            operation: ActorOperation::Move(ActorPosition::Character(CharacterPosition::Center)),
            ..
        })
    ));
    assert!(matches!(
        &sts[2],
        Statement::Stage(StageCommand::CharacterChange {
            operation: ActorOperation::Despawn(true),
            ..
        })
    ));
}

#[test]
fn animation_commands_parse() {
    let act = parse_ok(
        "scene s\n[animation \"rain\" fade in at top left scale 150]\n[animation rain moves bottom]\n",
    );
    let sts = &act.scenes[0].statements;
    match &sts[0] {
        Statement::Stage(StageCommand::AnimationChange { animation, operation }) => {
            assert_eq!(animation, "rain");
            match operation {
                ActorOperation::Spawn(info) => {
                    assert!(info.fading);
                    assert!(matches!(
                        info.position,
                        Some(ActorPosition::Animation(AnimationPosition::TopLeft))
                    ));
                    assert_eq!(info.scale, Some(150));
                }
                other => panic!("expected a spawn, got {:?}", other),
            }
        }
        other => panic!("expected an animation change, got {:?}", other),
    }
    assert!(matches!(
        &sts[1],
        Statement::Stage(StageCommand::AnimationChange {
            operation: ActorOperation::Move(ActorPosition::Animation(AnimationPosition::Bottom)),
            ..
        })
    ));
}

#[test]
fn audio_and_flow_commands_parse() {
    let act = parse_ok(
        "scene s\n[audio start music \"theme\" 80]\n[scene change \"next\"]\n[act change \"two\"]\n",
    );
    let sts = &act.scenes[0].statements;
    match &sts[0] {
        Statement::Stage(StageCommand::AudioChange { command, category, audio, volume }) => {
            assert!(matches!(command, AudioCommand::Start));
            assert_eq!(category, "music");
            assert_eq!(audio, "theme");
            assert_eq!(*volume, 80);
        }
        other => panic!("expected an audio change, got {:?}", other),
    }
    assert!(matches!(
        &sts[1],
        Statement::Stage(StageCommand::SceneChange { .. })
    ));
    assert!(matches!(&sts[2], Statement::Stage(StageCommand::ActChange { .. })));
}

#[test]
fn unknown_stage_word_is_reported_with_its_name() {
    let e = parse_act("scene s\n[teleport bob]\n").unwrap_err();
    assert!(matches!(e.kind, ParseErrorKind::UnknownWord));
    assert_eq!(e.item, "teleport");
}

#[test]
fn missing_closing_bracket_is_rejected() {
    let e = parse_act("scene s\n[background dissolve\n").unwrap_err();
    assert!(matches!(e.kind, ParseErrorKind::UnexpectedToken));
}

#[test]
fn scene_without_statements_is_allowed() {
    let act = parse_ok("scene lonely\n");
    assert_eq!(act.scenes.len(), 1);
    assert_eq!(act.scenes[0].statements.len(), 0);
    assert_eq!(act.entrypoint, "lonely");
}

#[test]
fn dialogue_without_colon_is_rejected() {
    let e = parse_act("scene s\nbob \"hi\"\n").unwrap_err();
    assert!(matches!(e.kind, ParseErrorKind::UnexpectedToken));
}

#[test]
fn statements_may_share_a_line_with_commands() {
    let act = parse_ok("scene s\nbob: \"hi\" [audio stop music \"theme\" 0]\n");
    assert_eq!(act.scenes[0].statements.len(), 2);
}

#[test]
fn source_ending_inside_a_construct_is_reported() {
    let e = parse_act("scene s\nbob:").unwrap_err();
    assert!(matches!(e.kind, ParseErrorKind::UnexpectedEnd));
}

#[test]
fn scene_identity_is_by_name_only() {
    let a = parse_ok("scene same\nbob: \"a\"\n");
    let b = parse_ok("scene same\n");
    let c = parse_ok("scene other\n");
    assert!(a.scenes[0] == b.scenes[0]);
    assert!(!(b.scenes[0] == c.scenes[0]));
}
