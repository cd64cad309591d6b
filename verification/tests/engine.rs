use sabi::compiler::ast::{Act, Dialogue, Expr, InfoText, StageCommand, Statement, TextItem};
use sabi::compiler::calling::{Command, InvokeError};
use sabi::compiler::controller::{begin_act, handle_act_changes, handle_scene_changes, run, RunError};
use sabi::compiler::grammar::parse_act;
use sabi::actor::CharacterPosition;
use sabi::chat::UiChangeTarget;
use sabi::{Cursor, HistoryItem, VisualNovelState};

fn dialogue_stmt(name: &str, text: &str) -> Statement {
    Statement::TextItem(TextItem::Dialogue(Dialogue {
        character: name.to_owned(),
        dialogue: Expr::String(text.to_owned()),
    }))
}

fn infotext_stmt(text: &str) -> Statement {
    Statement::TextItem(TextItem::InfoText(InfoText {
        infotext: Expr::String(text.to_owned()),
    }))
}

fn stage_stmt() -> Statement {
    Statement::Stage(StageCommand::SceneChange {
        scene_expr: Box::new(Expr::String("elsewhere".to_owned())),
    })
}

#[test]
fn rewind_depth_is_computed_from_history() {
    // History = [Descriptor, Statement(Dialogue d1), Statement(Stage s1),
    // Statement(Dialogue d2)], length 4: the search skips the last entry,
    // finds d1 at index 1, and sets rewinding = 4 - (1 + 1) = 2.
    let mut state = VisualNovelState::default();
    state.history = vec![
        HistoryItem::Descriptor("Act: A".to_owned()),
        HistoryItem::Statement(dialogue_stmt("a", "d1")),
        HistoryItem::Statement(stage_stmt()),
        HistoryItem::Statement(dialogue_stmt("b", "d2")),
    ];
    state.blocking = true;
    state.set_rewind();
    assert_eq!(state.rewinding, 2);
    assert!(!state.blocking);
}

#[test]
fn rewind_without_earlier_dialogue_is_a_noop() {
    let mut state = VisualNovelState::default();
    state.history = vec![
        HistoryItem::Descriptor("Act: A".to_owned()),
        HistoryItem::Statement(dialogue_stmt("a", "only")),
    ];
    state.blocking = true;
    state.set_rewind();
    assert_eq!(state.rewinding, 0);
    assert!(state.blocking);
}

#[test]
fn scene_change_resets_cursor_and_clears_blocking() {
    let act = parse_act("scene one\nbob: \"a\"\nscene two\nbob: \"b\"\nbob: \"c\"\n").unwrap();
    let mut state = VisualNovelState::default();
    begin_act(&mut state, act).unwrap();
    state.blocking = true;
    let history_before = state.history.len();
    handle_scene_changes(&mut state, "two").unwrap();
    assert_eq!(state.scene.name, "two");
    assert_eq!(state.statements.pos, -1);
    assert_eq!(state.statements.data.len(), 2);
    assert_eq!(state.history.len(), history_before + 1);
    match state.history.last().unwrap() {
        HistoryItem::Descriptor(d) => assert_eq!(d, "Scene two"),
        other => panic!("expected a descriptor, got a statement: {:?}", matches!(other, HistoryItem::Statement(_))),
    }
    assert!(!state.blocking);
}

#[test]
fn scene_change_to_missing_scene_fails() {
    let act = parse_act("scene one\nbob: \"a\"\n").unwrap();
    let mut state = VisualNovelState::default();
    begin_act(&mut state, act).unwrap();
    let err = handle_scene_changes(&mut state, "nowhere").unwrap_err();
    match err {
        RunError::SceneNotFound(id) => assert_eq!(id, "nowhere"),
        other => panic!("unexpected error {:?}", other),
    }
}

#[test]
fn begin_act_records_act_and_scene_descriptors() {
    let act = parse_act("scene intro\nbob: \"a\"\n").unwrap();
    let mut state = VisualNovelState::default();
    begin_act(&mut state, act).unwrap();
    assert_eq!(state.history.len(), 2);
    assert!(matches!(&state.history[0], HistoryItem::Descriptor(d) if d == "Act: \n"));
    assert!(matches!(&state.history[1], HistoryItem::Descriptor(d) if d == "Scene: intro\n"));
    assert_eq!(state.statements.pos, -1);
    assert!(!state.blocking);
}

#[test]
fn act_change_enters_the_new_entrypoint() {
    let first = parse_act("scene one\nbob: \"a\"\n").unwrap();
    let second = parse_act("scene start\nbob: \"b\"\n").unwrap();
    let mut state = VisualNovelState::default();
    begin_act(&mut state, first).unwrap();
    state.blocking = true;
    handle_act_changes(&mut state, second).unwrap();
    assert_eq!(state.scene.name, "start");
    assert_eq!(state.statements.pos, -1);
    assert!(!state.blocking);
    assert!(matches!(state.history.last().unwrap(), HistoryItem::Descriptor(d) if d == "Act "));
}

#[test]
fn forward_step_dispatches_dialogue_and_blocks() {
    let act = parse_act("scene s\nbob: \"Hello\"\n").unwrap();
    let mut state = VisualNovelState::default();
    begin_act(&mut state, act).unwrap();
    let out = run(&mut state).unwrap();
    assert!(!out.ended);
    match out.command.expect("a command is due") {
        Command::Say(m) => {
            assert_eq!(m.name, "bob");
            assert_eq!(m.message, "Hello");
        }
        other => panic!("expected a say command, got {:?}", other),
    }
    assert!(state.blocking);
    assert_eq!(state.history.len(), 3);
}

#[test]
fn blocked_step_does_nothing() {
    let act = parse_act("scene s\nbob: \"Hello\"\n").unwrap();
    let mut state = VisualNovelState::default();
    begin_act(&mut state, act).unwrap();
    state.blocking = true;
    let pos_before = state.statements.pos;
    let out = run(&mut state).unwrap();
    assert!(out.command.is_none());
    assert!(out.log.is_none());
    assert!(!out.ended);
    assert_eq!(state.statements.pos, pos_before);
}

#[test]
fn exhausted_script_signals_end() {
    let act = parse_act("scene s\nlog \"bye\"\n").unwrap();
    let mut state = VisualNovelState::default();
    begin_act(&mut state, act).unwrap();
    let first = run(&mut state).unwrap();
    assert_eq!(first.log.as_deref(), Some("bye"));
    assert!(!first.ended);
    let second = run(&mut state).unwrap();
    assert!(second.ended);
    assert!(second.command.is_none());
}

#[test]
fn log_statement_joins_parts_with_spaces() {
    let act = parse_act("scene s\nlog \"x\", 1 + 2, \"y\"\n").unwrap();
    let mut state = VisualNovelState::default();
    begin_act(&mut state, act).unwrap();
    let out = run(&mut state).unwrap();
    assert_eq!(out.log.as_deref(), Some("x 3 y"));
    assert!(out.command.is_none());
    assert!(!state.blocking);
}

#[test]
fn infotext_is_suppressed_while_rewinding() {
    // cursor on [Dialogue, InfoText, Dialogue], positioned past the
    // infotext, rewinding two steps: the first backward step resolves the
    // infotext while the counter is still positive, so nothing is emitted
    // and the script does not block.
    let mut state = VisualNovelState::default();
    state.statements = Cursor::new(vec![
        dialogue_stmt("a", "one"),
        infotext_stmt("between"),
        dialogue_stmt("b", "two"),
    ]);
    let _ = state.statements.next();
    let _ = state.statements.next();
    let _ = state.statements.next();
    state.history = vec![
        HistoryItem::Statement(dialogue_stmt("a", "one")),
        HistoryItem::Statement(infotext_stmt("between")),
        HistoryItem::Statement(dialogue_stmt("b", "two")),
    ];
    state.rewinding = 2;
    let out = run(&mut state).unwrap();
    assert!(out.command.is_none());
    assert!(out.log.is_none());
    assert!(!state.blocking);
    assert_eq!(state.rewinding, 1);
    assert_eq!(state.history.len(), 2);
    // the final rewind step lands on the first dialogue and replays it
    let out2 = run(&mut state).unwrap();
    match out2.command.expect("a command is due") {
        Command::Say(m) => assert_eq!(m.message, "one"),
        other => panic!("expected a say command, got {:?}", other),
    }
    assert!(state.blocking);
}

#[test]
fn rewind_skips_stage_statements_to_matching_kind() {
    // [Dialogue, Stage, Dialogue]: stepping back from the last dialogue
    // over the stage statement resolves the nearest earlier statement of
    // the same kind only if one exists; here the backward step that lands
    // on the stage statement finds no earlier stage, so the step resolves
    // nothing and the run ends.
    let mut state = VisualNovelState::default();
    state.statements = Cursor::new(vec![
        dialogue_stmt("a", "one"),
        stage_stmt(),
        dialogue_stmt("b", "two"),
    ]);
    for _ in 0..3 {
        let _ = state.statements.next();
    }
    state.history = vec![
        HistoryItem::Statement(dialogue_stmt("a", "one")),
        HistoryItem::Statement(stage_stmt()),
        HistoryItem::Statement(dialogue_stmt("b", "two")),
    ];
    state.rewinding = 1;
    let out = run(&mut state).unwrap();
    assert!(out.ended);
    assert_eq!(state.rewinding, 0);
}

#[test]
fn rewind_lands_on_stage_with_earlier_match() {
    // [Stage, Stage, Dialogue], positioned at the dialogue: stepping back
    // lands on the stage statement at index 1, and the kind-matching scan
    // resolves the stage statement at index 0.
    let mut state = VisualNovelState::default();
    state.statements = Cursor::new(vec![stage_stmt(), stage_stmt(), dialogue_stmt("b", "two")]);
    for _ in 0..3 {
        let _ = state.statements.next();
    }
    state.history = vec![
        HistoryItem::Statement(stage_stmt()),
        HistoryItem::Statement(stage_stmt()),
        HistoryItem::Statement(dialogue_stmt("b", "two")),
    ];
    state.rewinding = 1;
    let out = run(&mut state).unwrap();
    match out.command.expect("a command is due") {
        Command::Scene(m) => assert_eq!(m.scene_id, "elsewhere"),
        other => panic!("expected a scene-change command, got {:?}", other),
    }
    assert_eq!(state.history.len(), 2);
}

#[test]
fn malformed_ui_change_reports_missing_operand() {
    let mut state = VisualNovelState::default();
    state.statements = Cursor::new(vec![Statement::Stage(StageCommand::UiChange {
        ui_target: UiChangeTarget::Font,
        target_font: None,
        sprite_expr: None,
        image_mode: None,
        ui_sounds: None,
        typing_sound: None,
    })]);
    let err = run(&mut state).unwrap_err();
    assert!(matches!(err, InvokeError::MissingUiOperand(UiChangeTarget::Font)));
}

#[test]
fn history_summary_renders_the_transcript() {
    let mut state = VisualNovelState::default();
    state.history = vec![
        HistoryItem::Descriptor("Act: A".to_owned()),
        HistoryItem::Statement(dialogue_stmt("bob", "Hi")),
        HistoryItem::Statement(stage_stmt()),
        HistoryItem::Statement(infotext_stmt("Later.")),
    ];
    let lines = state.history_summary();
    assert_eq!(lines, vec!["Act: A\n", "bob: Hi\n", "Later.\n"]);
}

#[test]
fn audio_command_dispatches_to_collaborator() {
    let act = parse_act("scene s\n[audio start music \"theme\" 80]\n").unwrap();
    let mut state = VisualNovelState::default();
    begin_act(&mut state, act).unwrap();
    let out = run(&mut state).unwrap();
    match out.command.expect("a command is due") {
        Command::Audio(m) => {
            assert_eq!(m.category, "music");
            assert_eq!(m.audio, "theme");
            assert_eq!(m.volume, 80);
        }
        other => panic!("expected an audio command, got {:?}", other),
    }
    assert!(!state.blocking);
}

#[test]
fn actor_change_blocking_depends_on_operation() {
    let act = parse_act(
        "scene s\n[character bob fade in]\n[character bob looks left]\n",
    ).unwrap();
    let mut state = VisualNovelState::default();
    begin_act(&mut state, act).unwrap();
    let out = run(&mut state).unwrap();
    match out.command.expect("a command is due") {
        Command::Actor(m) => assert!(m.is_blocking()),
        other => panic!("expected an actor command, got {:?}", other),
    }
    // the interpreter itself does not block on actor changes
    assert!(!state.blocking);
    let out2 = run(&mut state).unwrap();
    match out2.command.expect("a command is due") {
        Command::Actor(m) => assert!(!m.is_blocking()),
        other => panic!("expected an actor command, got {:?}", other),
    }
}

#[test]
fn character_positions_map_to_stage_percentages() {
    assert_eq!(CharacterPosition::Center.to_percentage_value(), 35);
    assert_eq!(CharacterPosition::FarLeft.to_percentage_value(), 5);
    assert_eq!(CharacterPosition::FarRight.to_percentage_value(), 65);
    assert_eq!(CharacterPosition::Left.to_percentage_value(), 20);
    assert_eq!(CharacterPosition::Right.to_percentage_value(), 50);
    assert_eq!(CharacterPosition::InvisibleLeft.to_percentage_value(), -40);
    assert_eq!(CharacterPosition::InvisibleRight.to_percentage_value(), 140);
}

#[test]
fn loader_accepts_json_files() {
    let loader = sabi::loader::ActorJsonLoader::default();
    assert_eq!(loader.extensions(), "json");
}

#[test]
fn act_without_its_entrypoint_scene_is_rejected() {
    let broken = Act {
        scenes: vec![],
        name: "broken".to_owned(),
        entrypoint: "missing".to_owned(),
    };
    let mut state = VisualNovelState::default();
    let err = begin_act(&mut state, broken).unwrap_err();
    match err {
        RunError::EntrypointNotFound(id) => assert_eq!(id, "missing"),
        other => panic!("unexpected error {:?}", other),
    }
    assert_eq!(state.history.len(), 0);
}
