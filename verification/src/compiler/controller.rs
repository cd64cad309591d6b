//! The stepping state machine: one statement transition per external tick,
//! and the reactive scene- and act-change handlers.
use vstd::prelude::*;

use crate::{
    Cursor, HistoryItem, HistoryItemV, VisualNovelState, VisualNovelStateV, history_view,
    scan_kind_back, stepped_back_pos, stepped_pos,
};
use crate::VariantKind;
use crate::compiler::ast::{
    Act, ActV, Scene, SceneV, Statement, StatementV, find_scene_from, stmts_view,
};
use crate::compiler::calling::{
    Command, CommandV, Invoked, InvokeError, invoke_blocking_spec, invoke_spec,
};

verus! {

/// The phases of the script session.
#[derive(Clone, Copy, Debug, Hash, PartialEq, Eq, Structural)]
pub enum SabiState {
    Idle,
    WaitingForControllers,
    Running,
}

impl Default for SabiState {
    /// A session starts idle.
    fn default() -> (s: Self)
        ensures
            s == SabiState::Idle,
    {
        SabiState::Idle
    }
}

/// The collaborators that must report ready before a script runs.
#[derive(Clone, Copy, Debug, PartialEq, Eq, Structural)]
pub enum Controller {
    Background,
    Character,
    Chat,
}

/// Broadcast that moves every collaborator to the given phase.
pub struct ControllersSetStateMessage(pub SabiState);

/// A collaborator's report that it finished loading.
pub struct ControllerReadyMessage(pub Controller);

/// Which collaborators have reported ready.
#[derive(Debug)]
pub struct ControllersReady {
    pub background_controller: bool,
    pub character_controller: bool,
    pub chat_controller: bool,
    pub compiler_controller: bool,
}

impl ControllersReady {
    /// Whether every collaborator has reported ready.
    pub fn all_ready(&self) -> (b: bool)
        ensures
            b == (self.background_controller && self.character_controller
                && self.chat_controller && self.compiler_controller),
    {
        self.background_controller == true && self.character_controller == true
            && self.chat_controller == true && self.compiler_controller == true
    }

    /// Forgets every report.
    pub fn reset(&mut self)
        ensures
            !final(self).background_controller,
            !final(self).character_controller,
            !final(self).chat_controller,
            !final(self).compiler_controller,
    {
        *self = Self::default();
    }
}

impl Default for ControllersReady {
    /// No collaborator has reported yet.
    fn default() -> (c: Self)
        ensures
            !c.background_controller,
            !c.character_controller,
            !c.chat_controller,
            !c.compiler_controller,
    {
        ControllersReady {
            background_controller: false,
            character_controller: false,
            chat_controller: false,
            compiler_controller: false,
        }
    }
}

/// What one tick of the interpreter produced: at most one command, at most
/// one diagnostic line, and whether the script ran out of statements.
#[derive(Debug)]
pub struct StepOutput {
    pub command: Option<Command>,
    pub log: Option<String>,
    pub ended: bool,
}

/// Mathematical image of a [`StepOutput`].
pub struct StepOutputV {
    pub command: Option<CommandV>,
    pub log: Option<Seq<char>>,
    pub ended: bool,
}

impl View for StepOutput {
    type V = StepOutputV;

    open spec fn view(&self) -> StepOutputV {
        StepOutputV {
            command: match &self.command {
                Some(c) => Some(c@),
                None => None,
            },
            log: match &self.log {
                Some(l) => Some(l@),
                None => None,
            },
            ended: self.ended,
        }
    }
}

/// The greatest index at or below `j` holding a statement of kind `k`.
pub open spec fn scan_stmt_kind_back(data: Seq<StatementV>, k: usize, j: int) -> Option<int>
    decreases j + 1,
{
    if j < 0 {
        None
    } else if crate::compiler::ast::stmt_kind(data[j]) == k {
        Some(j)
    } else {
        scan_stmt_kind_back(data, k, j - 1)
    }
}

/// The kind-matching backward scan over statements agrees with the scan
/// over their views.
pub proof fn lemma_scan_views(data: Seq<Statement>, k: usize, j: int)
    requires
        j < data.len(),
    ensures
        scan_kind_back(data, k, j) == scan_stmt_kind_back(stmts_view(data), k, j),
    decreases j + 1,
{
    if j >= 0 {
        assert(stmts_view(data)[j] == data[j]@);
        if data[j].kind_spec() != k {
            lemma_scan_views(data, k, j - 1);
        }
    }
}

/// A successful kind-matching scan yields an index inside the range it
/// searched, holding the kind it looked for.
pub proof fn lemma_scan_stmt_bounds(data: Seq<StatementV>, k: usize, j: int)
    ensures
        scan_stmt_kind_back(data, k, j) matches Some(i) ==> 0 <= i <= j
            && crate::compiler::ast::stmt_kind(data[i]) == k,
    decreases j + 1,
{
    if j >= 0 && crate::compiler::ast::stmt_kind(data[j]) != k {
        lemma_scan_stmt_bounds(data, k, j - 1);
    }
}

/// The statement a rewind step resolves: the one before the cursor if it
/// is a text item; if it is a stage statement, the nearest stage statement
/// before it; nothing at the lower bound, and — a deliberate gap — nothing
/// for a code statement, which rewind leaves unhandled.
pub open spec fn rewind_resolved(sts: Seq<StatementV>, pos: int) -> Option<StatementV> {
    if 0 < pos <= sts.len() {
        match sts[pos - 1] {
            StatementV::TextItem(t) => Some(sts[pos - 1]),
            StatementV::Stage(sc) => match scan_stmt_kind_back(sts, 2, pos - 2) {
                Some(i) => Some(sts[i]),
                None => None,
            },
            StatementV::Code(_) => None,
        }
    } else {
        None
    }
}

/// An idle step output: no command, no log line, not ended.
pub open spec fn quiet_output() -> StepOutputV {
    StepOutputV { command: None, log: None, ended: false }
}

/// Dispatching one resolved statement against a state: the blocking flag
/// moves as the statement demands, and the output carries its command or
/// its log line.
pub open spec fn dispatch_spec(s: VisualNovelStateV, st: StatementV) -> (VisualNovelStateV, Result<
    StepOutputV,
    InvokeError,
>) {
    let s2 = VisualNovelStateV {
        blocking: invoke_blocking_spec(st, s.rewinding, s.blocking),
        ..s
    };
    match invoke_spec(st, s.rewinding) {
        Ok(iv) => match iv {
            crate::compiler::calling::InvokedV::Command(c) => (
                s2,
                Ok(StepOutputV { command: Some(c), log: None, ended: false }),
            ),
            crate::compiler::calling::InvokedV::Log(l) => (
                s2,
                Ok(StepOutputV { command: None, log: Some(l), ended: false }),
            ),
            crate::compiler::calling::InvokedV::Nothing => (s2, Ok(quiet_output())),
        },
        Err(e) => (s2, Err(e)),
    }
}

/// One tick of the interpreter, as a function on the mathematical state:
/// nothing happens while blocked; with a rewind in flight the counter
/// falls, the cursor steps back and the resolved statement replaces the
/// newest history entry; otherwise the cursor steps forward and the
/// statement read is appended to the history; the resolved statement is
/// dispatched, and a step that resolves nothing ends the script.
pub open spec fn run_spec(s: VisualNovelStateV) -> (VisualNovelStateV, Result<
    StepOutputV,
    InvokeError,
>) {
    if s.blocking {
        (s, Ok(quiet_output()))
    } else if s.rewinding > 0 {
        let resolved = rewind_resolved(s.statements, s.pos);
        let hist1 = if resolved is Some && s.history.len() > 0 {
            s.history.drop_last()
        } else {
            s.history
        };
        let s1 = VisualNovelStateV {
            rewinding: s.rewinding - 1,
            pos: stepped_back_pos(s.pos),
            history: hist1,
            ..s
        };
        match resolved {
            Some(st) => dispatch_spec(s1, st),
            None => (s1, Ok(StepOutputV { command: None, log: None, ended: true })),
        }
    } else {
        let pos1 = stepped_pos(s.pos, s.statements.len() as int);
        if pos1 < s.statements.len() {
            let st = s.statements[pos1];
            let s1 = VisualNovelStateV {
                pos: pos1,
                history: s.history.push(HistoryItemV::Statement(st)),
                ..s
            };
            dispatch_spec(s1, st)
        } else {
            (
                VisualNovelStateV { pos: pos1, ..s },
                Ok(StepOutputV { command: None, log: None, ended: true }),
            )
        }
    }
}

/// One execution step per tick. Does nothing while an external collaborator
/// still blocks the script. With a rewind in flight, steps the cursor
/// backwards, skipping stage statements to the nearest earlier one of the
/// same kind, and pops the newest history entry. Otherwise steps forward
/// and appends the statement to the history. The resolved statement is
/// dispatched into at most one command; resolving no statement ends the
/// script. The whole effect equals [`run_spec`] on the state's view.
pub fn run(state: &mut VisualNovelState) -> (r: Result<StepOutput, InvokeError>)
    requires
        old(state).wf(),
    ensures
        final(state).wf(),
        final(state)@ == run_spec(old(state)@).0,
        ({
            let out = run_spec(old(state)@).1;
            match r {
                Ok(o) => out matches Ok(ov) && o@ == ov,
                Err(e) => out matches Err(ev) && e == ev,
            }
        }),
{
    if state.blocking {
        return Ok(StepOutput { command: None, log: None, ended: false });
    }

    let ghost sv0 = old(state)@;
    let next_statement: Option<Statement> = if state.rewinding > 0 {
        state.rewinding = state.rewinding - 1;
        let ghost pos0 = state.statements.pos as int;
        let stepped = state.statements.prev();
        proof {
            match &stepped {
                Some(v) => {
                    crate::compiler::ast::lemma_cloned_statement_view(
                        old(state).statements.data@[pos0 - 1],
                        *v,
                    );
                },
                None => {},
            }
        }
        let next_statement: Option<Statement> = match stepped {
            Some(Statement::TextItem(item)) => Some(Statement::TextItem(item)),
            Some(Statement::Stage(_)) => {
                proof {
                    lemma_scan_views(state.statements.data@, 2, state.statements.pos - 1);
                }
                let found = state.statements.find_previous();
                proof {
                    match &found {
                        Some(v) => {
                            lemma_scan_stmt_bounds(sv0.statements, 2, pos0 - 2);
                            let i = scan_stmt_kind_back(sv0.statements, 2, pos0 - 2)->Some_0;
                            crate::compiler::ast::lemma_cloned_statement_view(
                                old(state).statements.data@[i],
                                *v,
                            );
                        },
                        None => {},
                    }
                }
                found
            },
            _ => None,
        };
        if next_statement.is_some() {
            let _ = state.history.pop();
            proof {
                if sv0.history.len() > 0 {
                    assert(history_view(state.history@) =~= sv0.history.drop_last());
                } else {
                    assert(history_view(state.history@) =~= sv0.history);
                }
            }
        }
        next_statement
    } else {
        let ghost pos0 = state.statements.pos as int;
        let next_statement = state.statements.next();
        proof {
            match &next_statement {
                Some(v) => {
                    crate::compiler::ast::lemma_cloned_statement_view(
                        old(state).statements.data@[state.statements.pos as int],
                        *v,
                    );
                },
                None => {},
            }
        }
        if let Some(stm) = &next_statement {
            let item = HistoryItem::Statement(stm.clone());
            state.history.push(item);
            proof {
                assert(history_view(state.history@) =~= sv0.history.push(
                    HistoryItemV::Statement(stm@),
                ));
            }
        }
        next_statement
    };

    match next_statement {
        Some(statement) => {
            let r = statement.invoke(state);
            match r {
                Ok(Invoked::Command(c)) => Ok(
                    StepOutput { command: Some(c), log: None, ended: false },
                ),
                Ok(Invoked::Log(l)) => Ok(StepOutput { command: None, log: Some(l), ended: false }),
                Ok(Invoked::Nothing) => Ok(StepOutput { command: None, log: None, ended: false }),
                Err(e) => Err(e),
            }
        },
        None => Ok(StepOutput { command: None, log: None, ended: true }),
    }
}

/// Law: a step that resolves a narration box while the rewind counter
/// stays positive emits no command and leaves the blocking flag alone.
pub proof fn lemma_run_suppresses_infotext(s: VisualNovelStateV)
    requires
        !s.blocking,
        s.rewinding > 1,
        rewind_resolved(s.statements, s.pos) matches Some(st)
            && st matches StatementV::TextItem(crate::compiler::ast::TextItemV::InfoText(_)),
    ensures
        run_spec(s).1 matches Ok(o) && o.command is None,
        run_spec(s).0.blocking == s.blocking,
{
}

} // verus!

verus! {

/// Why a reactive change failed: the requested scene is not in the act, or
/// the act's entrypoint scene is missing.
#[derive(Debug)]
pub enum RunError {
    SceneNotFound(String),
    EntrypointNotFound(String),
}

/// Mathematical image of a [`RunError`].
pub enum RunErrorV {
    SceneNotFound(Seq<char>),
    EntrypointNotFound(Seq<char>),
}

impl View for RunError {
    type V = RunErrorV;

    open spec fn view(&self) -> RunErrorV {
        match self {
            RunError::SceneNotFound(s) => RunErrorV::SceneNotFound(s@),
            RunError::EntrypointNotFound(s) => RunErrorV::EntrypointNotFound(s@),
        }
    }
}

/// A scene change against the mathematical state: the named scene becomes
/// active, the cursor restarts before its first statement, one descriptor
/// joins the history, and the blocking flag clears; nothing happens if the
/// act has no scene of that name.
pub open spec fn scene_change_spec(s: VisualNovelStateV, id: Seq<char>) -> Option<
    VisualNovelStateV,
> {
    match find_scene_from(s.act.scenes, id, 0) {
        Some(i) => {
            let sc = s.act.scenes[i];
            Some(
                VisualNovelStateV {
                    scene: sc,
                    statements: sc.statements,
                    pos: -1,
                    history: s.history.push(HistoryItemV::Descriptor("Scene "@ + sc.name)),
                    blocking: false,
                    ..s
                },
            )
        },
        None => None,
    }
}

/// Reacts to a scene-change command: replaces the active scene and its
/// cursor, records a descriptor, and clears the blocking flag
/// unconditionally; fails exactly when the act has no scene named
/// `scene_id`, leaving the state untouched.
pub fn handle_scene_changes(state: &mut VisualNovelState, scene_id: &str) -> (r: Result<
    (),
    RunError,
>)
    requires
        old(state).wf(),
        crate::compiler::ast::act_scenes_fit(old(state)@.act),
    ensures
        final(state).wf(),
        match scene_change_spec(old(state)@, scene_id@) {
            Some(s2) => r is Ok && final(state)@ == s2,
            None => {
                &&& r matches Err(RunError::SceneNotFound(m)) && m@ == scene_id@
                &&& *final(state) == *old(state)
            },
        },
{
    let idx = match state.act.find_scene(scene_id) {
        Some(i) => i,
        None => {
            return Err(RunError::SceneNotFound(scene_id.to_owned()));
        },
    };
    let new_scene = state.act.scenes[idx].clone();
    let cursor_scene = state.act.scenes[idx].clone();
    proof {
        assert(old(state)@.act.scenes[idx as int].statements.len() <= i64::MAX);
    }
    state.scene = new_scene;
    state.statements = Cursor::new(cursor_scene.statements);
    let mut line = "Scene ".to_owned();
    line.append(state.scene.name.as_str());
    state.history.push(HistoryItem::Descriptor(line));
    state.blocking = false;
    proof {
        let s2 = scene_change_spec(old(state)@, scene_id@).unwrap();
        assert(history_view(state.history@) =~= s2.history);
    }
    Ok(())
}

/// An act change against the mathematical state: the new act and its
/// entrypoint scene become active, the cursor restarts, one descriptor
/// joins the history, and the blocking flag clears; nothing happens if the
/// act misses its entrypoint scene.
pub open spec fn act_change_spec(s: VisualNovelStateV, a: ActV) -> Option<VisualNovelStateV> {
    match find_scene_from(a.scenes, a.entrypoint, 0) {
        Some(i) => Some(
            VisualNovelStateV {
                act: a,
                scene: a.scenes[i],
                statements: a.scenes[i].statements,
                pos: -1,
                history: s.history.push(HistoryItemV::Descriptor("Act "@ + a.name)),
                blocking: false,
                ..s
            },
        ),
        None => None,
    }
}

/// Reacts to an act-change command, the new act already loaded: installs
/// the act, enters its entrypoint scene with a fresh cursor, records a
/// descriptor, and clears the blocking flag; fails exactly when the
/// entrypoint scene is missing, leaving the state untouched.
pub fn handle_act_changes(state: &mut VisualNovelState, act: Act) -> (r: Result<(), RunError>)
    requires
        old(state).wf(),
        crate::compiler::ast::act_scenes_fit(act@),
    ensures
        final(state).wf(),
        match act_change_spec(old(state)@, act@) {
            Some(s2) => r is Ok && final(state)@ == s2,
            None => {
                &&& r matches Err(RunError::EntrypointNotFound(m)) && m@ == act@.entrypoint
                &&& *final(state) == *old(state)
            },
        },
{
    let idx = match act.find_scene(act.entrypoint.as_str()) {
        Some(i) => i,
        None => {
            return Err(RunError::EntrypointNotFound(act.entrypoint.clone()));
        },
    };
    let new_scene = act.scenes[idx].clone();
    let cursor_scene = act.scenes[idx].clone();
    proof {
        assert(act@.scenes[idx as int].statements.len() <= i64::MAX);
    }
    let mut line = "Act ".to_owned();
    line.append(act.name.as_str());
    state.act = act;
    state.scene = new_scene;
    state.statements = Cursor::new(cursor_scene.statements);
    state.history.push(HistoryItem::Descriptor(line));
    state.blocking = false;
    proof {
        let a = act_change_spec(old(state)@, state.act@);
        assert(history_view(state.history@) =~= a.unwrap().history);
    }
    Ok(())
}

/// Starting an act against the mathematical state: the act becomes active
/// with a cursor over its entrypoint scene, two descriptors join the
/// history, and the blocking flag clears; the previously active scene
/// value is left as it stands until a scene change replaces it.
pub open spec fn begin_act_spec(s: VisualNovelStateV, a: ActV) -> Option<VisualNovelStateV> {
    match find_scene_from(a.scenes, a.entrypoint, 0) {
        Some(i) => Some(
            VisualNovelStateV {
                act: a,
                statements: a.scenes[i].statements,
                pos: -1,
                history: s.history + seq![
                    HistoryItemV::Descriptor("Act: "@ + a.name + "\n"@),
                    HistoryItemV::Descriptor("Scene: "@ + a.entrypoint + "\n"@),
                ],
                blocking: false,
                ..s
            },
        ),
        None => None,
    }
}

/// Begins a script session for a loaded act: installs the act, opens a
/// cursor over its entrypoint scene, records the act and scene in the
/// history, and clears the blocking flag; fails exactly when the
/// entrypoint scene is missing, leaving the state untouched.
pub fn begin_act(state: &mut VisualNovelState, act: Act) -> (r: Result<(), RunError>)
    requires
        old(state).wf(),
        crate::compiler::ast::act_scenes_fit(act@),
    ensures
        final(state).wf(),
        match begin_act_spec(old(state)@, act@) {
            Some(s2) => r is Ok && final(state)@ == s2,
            None => {
                &&& r matches Err(RunError::EntrypointNotFound(m)) && m@ == act@.entrypoint
                &&& *final(state) == *old(state)
            },
        },
{
    let idx = match act.find_scene(act.entrypoint.as_str()) {
        Some(i) => i,
        None => {
            return Err(RunError::EntrypointNotFound(act.entrypoint.clone()));
        },
    };
    let cursor_scene = act.scenes[idx].clone();
    proof {
        assert(act@.scenes[idx as int].statements.len() <= i64::MAX);
    }
    let mut act_line = "Act: ".to_owned();
    act_line.append(act.name.as_str());
    act_line.append("\n");
    let mut scene_line = "Scene: ".to_owned();
    scene_line.append(act.entrypoint.as_str());
    scene_line.append("\n");
    state.act = act;
    state.statements = Cursor::new(cursor_scene.statements);
    state.history.push(HistoryItem::Descriptor(act_line));
    state.history.push(HistoryItem::Descriptor(scene_line));
    state.blocking = false;
    proof {
        let a = begin_act_spec(old(state)@, state.act@);
        assert(history_view(state.history@) =~= a.unwrap().history);
    }
    Ok(())
}

} // verus!
