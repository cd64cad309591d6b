use sabi::Cursor;
use sabi::compiler::ast::{CodeStatement, Dialogue, Expr, Statement, TextItem};

fn dialogue(name: &str, text: &str) -> Statement {
    Statement::TextItem(TextItem::Dialogue(Dialogue {
        character: name.to_owned(),
        dialogue: Expr::String(text.to_owned()),
    }))
}

fn stage_scene_change(target: &str) -> Statement {
    Statement::Stage(sabi::compiler::ast::StageCommand::SceneChange {
        scene_expr: Box::new(Expr::String(target.to_owned())),
    })
}

fn spoken_text(st: &Statement) -> String {
    match st {
        Statement::TextItem(TextItem::Dialogue(d)) => d.dialogue.evaluate_into_string(),
        _ => panic!("expected a dialogue statement"),
    }
}

#[test]
fn cursor_yields_statements_in_order() {
    let statements = vec![
        dialogue("a", "one"),
        dialogue("b", "two"),
        dialogue("c", "three"),
    ];
    let mut cursor = Cursor::new(statements);
    let expected = ["one", "two", "three"];
    for text in expected {
        let st = cursor.next().expect("an element is due");
        assert_eq!(spoken_text(&st), text);
    }
    assert!(cursor.next().is_none());
    assert!(cursor.next().is_none());
}

#[test]
fn cursor_prev_at_zero_is_a_noop() {
    let mut cursor = Cursor::new(vec![dialogue("a", "one"), dialogue("b", "two")]);
    let _ = cursor.next();
    assert_eq!(cursor.pos, 0);
    assert!(cursor.prev().is_none());
    assert_eq!(cursor.pos, 0);
    assert!(cursor.prev().is_none());
    assert_eq!(cursor.pos, 0);
}

#[test]
fn cursor_prev_before_start_reports_nothing() {
    let mut cursor = Cursor::new(vec![dialogue("a", "one")]);
    assert_eq!(cursor.pos, -1);
    assert!(cursor.prev().is_none());
}

#[test]
fn find_previous_skips_to_matching_kind() {
    // [Dialogue, Stage, Dialogue, Stage, Stage]
    let statements = vec![
        dialogue("a", "d0"),
        stage_scene_change("s1"),
        dialogue("b", "d2"),
        stage_scene_change("s3"),
        stage_scene_change("s4"),
    ];
    let mut cursor = Cursor::new(statements);
    for _ in 0..5 {
        let _ = cursor.next();
    }
    assert_eq!(cursor.pos, 4);
    // at index 4 (a stage statement) the nearest earlier stage is index 3
    let found = cursor.find_previous().expect("a stage statement is due");
    match found {
        Statement::Stage(sabi::compiler::ast::StageCommand::SceneChange { scene_expr }) => {
            assert_eq!(scene_expr.evaluate_into_string(), "s3");
        }
        _ => panic!("expected the stage statement at index 3"),
    }
}

#[test]
fn find_previous_at_earliest_stage_finds_nothing() {
    let statements = vec![dialogue("a", "d0"), stage_scene_change("s1")];
    let mut cursor = Cursor::new(statements);
    let _ = cursor.next();
    let _ = cursor.next();
    assert_eq!(cursor.pos, 1);
    // index 1 is the first stage statement: no earlier stage exists
    assert!(cursor.find_previous().is_none());
}

#[test]
fn find_previous_scans_past_nonmatching_kinds() {
    // [Dialogue, Stage, Stage, Code, Dialogue]: at index 4 the nearest
    // earlier dialogue is index 0
    let statements = vec![
        dialogue("a", "d0"),
        stage_scene_change("s1"),
        stage_scene_change("s2"),
        Statement::Code(CodeStatement::Log { exprs: vec![Expr::Number(1)] }),
        dialogue("b", "d4"),
    ];
    let mut cursor = Cursor::new(statements);
    for _ in 0..5 {
        let _ = cursor.next();
    }
    let found = cursor.find_previous().expect("a dialogue is due");
    assert_eq!(spoken_text(&found), "d0");
}

#[test]
fn exhausted_cursor_stays_at_end() {
    let mut cursor = Cursor::new(vec![dialogue("a", "one")]);
    let _ = cursor.next();
    let _ = cursor.next();
    let _ = cursor.next();
    assert_eq!(cursor.pos, 1);
    // stepping back from the end still works
    let back = cursor.prev().expect("the last element is due");
    assert_eq!(spoken_text(&back), "one");
}
