//! Core of a narrative-scripting engine for a branching, line-by-line
//! interactive story: a script compiler (grammar, parser, AST builder), an
//! expression evaluator, and the forward/backward navigation state machine
//! with history tracking and rewind.
pub mod actor;
pub mod compiler;
pub mod audio;
pub mod background;
pub mod chat;
pub mod loader;

use vstd::prelude::*;

verus! {

/// Tag distinguishing the statement kinds; the cursor's kind-matching
/// backward scan compares these tags.
pub trait VariantKind {
    spec fn kind_spec(&self) -> usize;

    fn kind(&self) -> (k: usize)
        ensures
            k == self.kind_spec(),
    ;
}

/// Position-indexed view over an ordered sequence. `pos` ranges over
/// `[-1, data.len()]`: `-1` is before the first element and `data.len()`
/// is past the last one.
pub struct Cursor<T> {
    pub data: Vec<T>,
    pub pos: i64,
}

/// The position reached by one forward step from `p` in a sequence of
/// length `len`: the step saturates at `len`.
pub open spec fn stepped_pos(p: int, len: int) -> int {
    if p < len {
        p + 1
    } else {
        p
    }
}

/// The position reached by one backward step from `p`: positions at or
/// below zero do not move.
pub open spec fn stepped_back_pos(p: int) -> int {
    if p <= 0 {
        p
    } else {
        p - 1
    }
}

/// The position after `m` forward steps of a cursor that starts before the
/// first of `len` elements.
pub open spec fn pos_after_nexts(len: int, m: nat) -> int
    decreases m,
{
    if m == 0 {
        -1
    } else {
        stepped_pos(pos_after_nexts(len, (m - 1) as nat), len)
    }
}

impl<T> Cursor<T> {
    /// `pos` stays inside `[-1, data.len()]`, and the sequence is short
    /// enough for `pos` to be carried in an `i64`.
    pub open spec fn wf(&self) -> bool {
        &&& -1 <= self.pos as int
        &&& self.pos as int <= self.data@.len()
        &&& self.data@.len() <= i64::MAX as int
    }

    pub fn new(vec: Vec<T>) -> (c: Self)
        requires
            vec@.len() <= i64::MAX as int,
        ensures
            c.wf(),
            c.data@ == vec@,
            c.pos == -1,
    {
        Self { data: vec, pos: -1 }
    }
}

impl<T: Clone> Cursor<T> {
    /// Advance by one and read the element now under the cursor; yields
    /// nothing once the end is reached.
    pub fn next(&mut self) -> (r: Option<T>)
        requires
            old(self).wf(),
        ensures
            final(self).wf(),
            final(self).data@ == old(self).data@,
            final(self).pos as int == stepped_pos(old(self).pos as int, old(self).data@.len() as int),
            match r {
                Some(v) => {
                    &&& (final(self).pos as int) < old(self).data@.len()
                    &&& cloned::<T>(old(self).data@[final(self).pos as int], v)
                },
                None => (final(self).pos as int) >= old(self).data@.len(),
            },
    {
        let len = self.data.len();
        if self.pos < len as i64 {
            self.pos = self.pos + 1;
        }
        if 0 <= self.pos && self.pos < len as i64 {
            Some(self.data[self.pos as usize].clone())
        } else {
            None
        }
    }

    /// Step back by one and read the element now under the cursor; at
    /// position zero (or before the start) this is a no-op that reports
    /// "no previous element".
    pub fn prev(&mut self) -> (r: Option<T>)
        requires
            old(self).wf(),
        ensures
            final(self).wf(),
            final(self).data@ == old(self).data@,
            final(self).pos as int == stepped_back_pos(old(self).pos as int),
            old(self).pos == 0 ==> final(self).pos == 0 && r is None,
            match r {
                Some(v) => {
                    &&& old(self).pos > 0
                    &&& cloned::<T>(old(self).data@[old(self).pos - 1], v)
                },
                None => old(self).pos <= 0,
            },
    {
        let len = self.data.len();
        if self.pos <= 0 {
            return None;
        }
        self.pos = self.pos - 1;
        if self.pos < len as i64 {
            Some(self.data[self.pos as usize].clone())
        } else {
            None
        }
    }
}

/// The greatest index at or below `j` whose element carries kind tag `k`.
pub open spec fn scan_kind_back<T: VariantKind>(data: Seq<T>, k: usize, j: int) -> Option<int>
    decreases j + 1,
{
    if j < 0 {
        None
    } else if data[j].kind_spec() == k {
        Some(j)
    } else {
        scan_kind_back(data, k, j - 1)
    }
}

impl<T: Clone + VariantKind> Cursor<T> {
    fn scan_back(&self, k: usize, upto: usize) -> (r: Option<T>)
        requires
            self.wf(),
            upto <= self.data@.len(),
        ensures
            match scan_kind_back(self.data@, k, upto as int - 1) {
                Some(i) => r matches Some(v) && cloned::<T>(self.data@[i], v),
                None => r is None,
            },
        decreases upto,
    {
        if upto == 0 {
            None
        } else {
            let item = &self.data[upto - 1];
            if item.kind() == k {
                Some(item.clone())
            } else {
                self.scan_back(k, upto - 1)
            }
        }
    }

    /// Scan from `pos - 1` toward the start for the nearest element whose
    /// kind tag equals the kind of the element at `pos`; yields nothing if
    /// the cursor is on no element or no earlier element matches.
    pub fn find_previous(&self) -> (r: Option<T>)
        requires
            self.wf(),
        ensures
            !(0 <= self.pos as int && (self.pos as int) < self.data@.len()) ==> r is None,
            0 <= self.pos as int && (self.pos as int) < self.data@.len() ==> match scan_kind_back(
                self.data@,
                self.data@[self.pos as int].kind_spec(),
                self.pos - 1,
            ) {
                Some(i) => r matches Some(v) && cloned::<T>(self.data@[i], v),
                None => r is None,
            },
    {
        let len = self.data.len();
        if 0 <= self.pos && self.pos < len as i64 {
            let i = self.pos as usize;
            let current_kind = self.data[i].kind();
            self.scan_back(current_kind, i)
        } else {
            None
        }
    }
}

impl<T> Default for Cursor<T> {
    /// An empty cursor, positioned before the (absent) first element.
    fn default() -> (c: Self)
        ensures
            c.wf(),
            c.data@.len() == 0,
            c.pos == -1,
    {
        Cursor { data: Vec::new(), pos: -1 }
    }
}

/// Law: a cursor over `len` elements that starts before the first one
/// stands on element `m - 1` right after its `m`-th forward step, for
/// every `m` up to `len`; together with the contract of `next`, the first
/// `len` calls therefore yield the elements in their original order.
pub proof fn lemma_cursor_order(len: int, m: nat)
    requires
        0 <= len,
        1 <= m <= len,
    ensures
        pos_after_nexts(len, m) == m - 1,
        pos_after_nexts(len, m) < len,
    decreases m,
{
    if m > 1 {
        lemma_cursor_order(len, (m - 1) as nat);
    } else {
        reveal_with_fuel(pos_after_nexts, 2);
    }
}

/// What the `m`-th forward step of a cursor that starts before the first
/// element of `data` reads: the element at the position reached, if one
/// is there.
pub open spec fn nth_next_yield<T>(data: Seq<T>, m: nat) -> Option<T> {
    let p = pos_after_nexts(data.len() as int, m);
    if 0 <= p < data.len() {
        Some(data[p])
    } else {
        None
    }
}

/// Law: every forward step past the `len`-th leaves the cursor at `len`,
/// where `next` yields nothing.
pub proof fn lemma_cursor_exhausted(len: int, m: nat)
    requires
        0 <= len,
        m > len,
    ensures
        pos_after_nexts(len, m) == len,
    decreases m,
{
    if m - 1 > len {
        lemma_cursor_exhausted(len, (m - 1) as nat);
    } else if m - 1 >= 1 {
        lemma_cursor_order(len, (m - 1) as nat);
    } else {
        reveal_with_fuel(pos_after_nexts, 2);
    }
}

/// Law: over any sequence of `N` elements, the first `N` forward steps of
/// a fresh cursor yield the elements in their order — the `m`-th step
/// yields element `m - 1` — and every later step yields nothing.
pub proof fn lemma_cursor_yields_in_order<T>(data: Seq<T>, m: nat)
    requires
        1 <= m,
    ensures
        m <= data.len() ==> nth_next_yield(data, m) == Some(data[m - 1]),
        m > data.len() ==> nth_next_yield(data, m) is None,
{
    if m <= data.len() {
        lemma_cursor_order(data.len() as int, m);
    } else {
        lemma_cursor_exhausted(data.len() as int, m);
    }
}

} // verus!

use crate::compiler::ast::{
    Act, ActV, Scene, SceneV, Statement, StatementV, TextItemV, eval_chars,
};

verus! {

/// One entry of the transcript: an executed statement or a textual marker
/// for a scene or act change.
pub enum HistoryItem {
    Statement(Statement),
    Descriptor(String),
}

/// Mathematical image of a [`HistoryItem`].
pub enum HistoryItemV {
    Statement(StatementV),
    Descriptor(Seq<char>),
}

impl View for HistoryItem {
    type V = HistoryItemV;

    open spec fn view(&self) -> HistoryItemV {
        match self {
            HistoryItem::Statement(s) => HistoryItemV::Statement(s@),
            HistoryItem::Descriptor(d) => HistoryItemV::Descriptor(d@),
        }
    }
}

/// The views of a sequence of history items.
pub open spec fn history_view(v: Seq<HistoryItem>) -> Seq<HistoryItemV> {
    v.map_values(|it: HistoryItem| it@)
}

} // verus!

verus! {

/// Whether a history entry records a spoken dialogue line; these are the
/// only valid rewind targets.
pub open spec fn is_dialogue_item(it: HistoryItemV) -> bool {
    it matches HistoryItemV::Statement(StatementV::TextItem(TextItemV::Dialogue(_)))
}

/// The greatest index at or below `j` holding a dialogue history entry.
pub open spec fn last_dialogue_at(h: Seq<HistoryItemV>, j: int) -> Option<int>
    decreases j + 1,
{
    if j < 0 {
        None
    } else if is_dialogue_item(h[j]) {
        Some(j)
    } else {
        last_dialogue_at(h, j - 1)
    }
}

/// One line of the transcript: dialogue renders as `name: text`, narration
/// as its text, a descriptor as itself; other statements leave no line.
pub open spec fn history_line(it: HistoryItemV) -> Option<Seq<char>> {
    match it {
        HistoryItemV::Statement(s) => match s {
            StatementV::TextItem(TextItemV::Dialogue(d)) => Some(
                d.character + ": "@ + eval_chars(d.dialogue) + "\n"@,
            ),
            StatementV::TextItem(TextItemV::InfoText(i)) => Some(eval_chars(i.infotext) + "\n"@),
            _ => None,
        },
        HistoryItemV::Descriptor(s) => Some(s + "\n"@),
    }
}

/// The transcript of a history: the lines of its entries, oldest first.
pub open spec fn history_summary_spec(h: Seq<HistoryItemV>) -> Seq<Seq<char>>
    decreases h.len(),
{
    if h.len() == 0 {
        Seq::empty()
    } else {
        history_summary_spec(h.drop_last()) + match history_line(h.last()) {
            Some(l) => seq![l],
            None => Seq::<Seq<char>>::empty(),
        }
    }
}

/// The views of a sequence of strings.
pub open spec fn strings_view(v: Seq<String>) -> Seq<Seq<char>> {
    v.map_values(|s: String| s@)
}

/// The run state of one active script: the act being played, the active
/// scene, the statement cursor, the blocking flag, the rewind counter, and
/// the history log.
pub struct VisualNovelState {
    pub playername: String,
    pub act: Act,
    pub scene: Scene,
    pub statements: Cursor<Statement>,
    pub blocking: bool,
    pub rewinding: usize,
    pub history: Vec<HistoryItem>,
}

/// Mathematical image of a [`VisualNovelState`]; the cursor appears as its
/// statement sequence and position.
pub struct VisualNovelStateV {
    pub playername: Seq<char>,
    pub act: ActV,
    pub scene: SceneV,
    pub statements: Seq<StatementV>,
    pub pos: int,
    pub blocking: bool,
    pub rewinding: int,
    pub history: Seq<HistoryItemV>,
}

impl View for VisualNovelState {
    type V = VisualNovelStateV;

    open spec fn view(&self) -> VisualNovelStateV {
        VisualNovelStateV {
            playername: self.playername@,
            act: self.act@,
            scene: self.scene@,
            statements: crate::compiler::ast::stmts_view(self.statements.data@),
            pos: self.statements.pos as int,
            blocking: self.blocking,
            rewinding: self.rewinding as int,
            history: history_view(self.history@),
        }
    }
}

impl VisualNovelState {
    /// The statement cursor is well formed.
    pub open spec fn wf(&self) -> bool {
        self.statements.wf()
    }

    fn find_last_dialogue(h: &Vec<HistoryItem>, upto: usize) -> (r: Option<usize>)
        requires
            upto <= h@.len(),
        ensures
            match last_dialogue_at(history_view(h@), upto as int - 1) {
                Some(i) => r matches Some(u) && u as int == i && i < h@.len(),
                None => r is None,
            },
        decreases upto,
    {
        if upto == 0 {
            None
        } else {
            match &h[upto - 1] {
                HistoryItem::Statement(Statement::TextItem(
                    crate::compiler::ast::TextItem::Dialogue(_),
                )) => Some(upto - 1),
                _ => Self::find_last_dialogue(h, upto - 1),
            }
        }
    }

    /// Starts a rewind: finds the most recent dialogue entry in the
    /// history, leaving the final entry out of the search. If one stands at
    /// index `i` of a history of length `L`, sets the rewind counter to
    /// `L - (i + 1)` and clears the blocking flag; otherwise does nothing.
    pub fn set_rewind(&mut self)
        requires
            old(self).history@.len() >= 1,
        ensures
            final(self).playername == old(self).playername,
            final(self).act == old(self).act,
            final(self).scene == old(self).scene,
            final(self).statements == old(self).statements,
            final(self).history == old(self).history,
            match last_dialogue_at(history_view(old(self).history@), old(self).history@.len() - 2) {
                Some(i) => {
                    &&& final(self).rewinding as int == old(self).history@.len() - (i + 1)
                    &&& final(self).blocking == false
                },
                None => {
                    &&& final(self).rewinding == old(self).rewinding
                    &&& final(self).blocking == old(self).blocking
                },
            },
    {
        let n = self.history.len();
        let last_d = Self::find_last_dialogue(&self.history, n - 1);
        if let Some(index) = last_d {
            self.rewinding = n - (index + 1);
            self.blocking = false;
        }
    }

    /// The player-facing transcript: one line for every dialogue,
    /// narration, and descriptor entry of the history, in order.
    pub fn history_summary(&self) -> (r: Vec<String>)
        ensures
            strings_view(r@) == history_summary_spec(history_view(self.history@)),
    {
        let mut text: Vec<String> = Vec::new();
        let n = self.history.len();
        let mut k: usize = 0;
        proof {
            assert(history_view(self.history@).take(0) =~= Seq::<HistoryItemV>::empty());
            assert(strings_view(text@) =~= Seq::<Seq<char>>::empty());
        }
        while k < n
            invariant
                n == self.history@.len(),
                k <= n,
                strings_view(text@) == history_summary_spec(history_view(self.history@).take(k as int)),
            decreases n - k,
        {
            let ghost prefix = history_view(self.history@).take(k as int);
            match &self.history[k] {
                HistoryItem::Statement(s) => {
                    match s {
                        Statement::TextItem(crate::compiler::ast::TextItem::Dialogue(d)) => {
                            let mut line = d.character.clone();
                            line.append(": ");
                            let spoken = d.dialogue.evaluate_into_string();
                            line.append(spoken.as_str());
                            line.append("\n");
                            text.push(line);
                        },
                        Statement::TextItem(crate::compiler::ast::TextItem::InfoText(i)) => {
                            let mut line = i.infotext.evaluate_into_string();
                            line.append("\n");
                            text.push(line);
                        },
                        _ => {},
                    }
                },
                HistoryItem::Descriptor(s) => {
                    let mut line = s.clone();
                    line.append("\n");
                    text.push(line);
                },
            }
            proof {
                let hv = history_view(self.history@);
                assert(hv.take(k + 1).drop_last() =~= prefix);
                assert(hv.take(k + 1).last() == hv[k as int]);
                assert(strings_view(text@) =~= history_summary_spec(hv.take(k + 1)));
            }
            k = k + 1;
        }
        proof {
            assert(history_view(self.history@).take(n as int) =~= history_view(self.history@));
        }
        text
    }
}

impl Default for VisualNovelState {
    /// The idle state before any script runs: empty act and scene, an
    /// empty cursor, not blocking, not rewinding, empty history.
    fn default() -> (s: Self)
        ensures
            s.wf(),
            s@.playername.len() == 0,
            s@.act.scenes.len() == 0,
            s@.scene.statements.len() == 0,
            s@.statements.len() == 0,
            s@.pos == -1,
            !s@.blocking,
            s@.rewinding == 0,
            s@.history.len() == 0,
    {
        let s = VisualNovelState {
            playername: String::new(),
            act: Act::default(),
            scene: Scene::default(),
            statements: Cursor::default(),
            blocking: false,
            rewinding: 0,
            history: Vec::new(),
        };
        proof {
            assert(crate::compiler::ast::stmts_view(s.statements.data@) =~= Seq::<StatementV>::empty());
            assert(history_view(s.history@) =~= Seq::<HistoryItemV>::empty());
        }
        s
    }
}

/// Constants the player chooses before a script runs.
pub struct UserDefinedConstants {
    pub playername: String,
}

impl Default for UserDefinedConstants {
    /// No player name is chosen yet.
    fn default() -> (c: Self)
        ensures
            c.playername@.len() == 0,
    {
        UserDefinedConstants { playername: String::new() }
    }
}

/// A script is addressed by its chapter and its act.
#[derive(Debug, Clone, Hash, PartialEq, Eq)]
pub struct ScriptId {
    pub chapter: String,
    pub act: String,
}

/// The request that starts the script session for one script.
pub struct SabiStart(pub ScriptId);

/// The signal that the active script has ended.
pub struct SabiEnd;

} // verus!
