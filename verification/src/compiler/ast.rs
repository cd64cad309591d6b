//! The abstract syntax tree of a script and the expression evaluator.
//!
//! An [`Act`] holds named [`Scene`]s; a scene is an ordered sequence of
//! [`Statement`]s; a statement is a text item (dialogue or narration), a
//! stage command, or a code statement. Expressions are trees of number and
//! string literals combined by addition, evaluated to a single literal
//! before dispatch.
use vstd::prelude::*;

use crate::VariantKind;
use crate::actor::{ActorOperation, ActorOperationV};
use crate::audio::AudioCommand;
use crate::background::{BackgroundOperation, BackgroundOperationV};
use crate::chat::{UiChangeTarget, UiImageMode};

verus! {

/// Equality of two strings given as string slices.
pub fn str_eq(a: &str, b: &str) -> (r: bool)
    ensures
        r == (a@ == b@),
{
    let sa = a.to_owned();
    let sb = b.to_owned();
    sa == sb
}

/// A literal or an addition of two expressions. Numbers are integers;
/// addition of two numbers wraps on overflow, every other combination
/// concatenates text.
#[derive(Debug)]
pub enum Expr {
    Number(i64),
    String(String),
    Add { lhs: Box<Expr>, rhs: Box<Expr> },
}

/// Mathematical image of an [`Expr`].
pub enum ExprV {
    Number(i64),
    String(Seq<char>),
    Add(Box<ExprV>, Box<ExprV>),
}

pub open spec fn expr_view(e: Expr) -> ExprV
    decreases e,
{
    match e {
        Expr::Number(n) => ExprV::Number(n),
        Expr::String(s) => ExprV::String(s@),
        Expr::Add { lhs, rhs } => ExprV::Add(Box::new(expr_view(*lhs)), Box::new(expr_view(*rhs))),
    }
}

impl View for Expr {
    type V = ExprV;

    open spec fn view(&self) -> ExprV {
        expr_view(*self)
    }
}

impl Clone for Expr {
    fn clone(&self) -> (r: Self)
        ensures
            r == *self,
        decreases *self,
    {
        match self {
            Expr::Number(n) => Expr::Number(*n),
            Expr::String(s) => Expr::String(s.clone()),
            Expr::Add { lhs, rhs } => Expr::Add {
                lhs: Box::new((&**lhs).clone()),
                rhs: Box::new((&**rhs).clone()),
            },
        }
    }
}

/// The decimal digit `d` as a character.
pub open spec fn spec_digit_char(d: int) -> char {
    if d == 0 {
        '0'
    } else if d == 1 {
        '1'
    } else if d == 2 {
        '2'
    } else if d == 3 {
        '3'
    } else if d == 4 {
        '4'
    } else if d == 5 {
        '5'
    } else if d == 6 {
        '6'
    } else if d == 7 {
        '7'
    } else if d == 8 {
        '8'
    } else {
        '9'
    }
}

/// The decimal digits of `n`, most significant first.
pub open spec fn dec_chars(n: nat) -> Seq<char>
    decreases n,
{
    if n < 10 {
        seq![spec_digit_char(n as int)]
    } else {
        dec_chars(n / 10) + seq![spec_digit_char((n % 10) as int)]
    }
}

/// The decimal rendering of a signed integer: a minus sign followed by the
/// digits of its magnitude, or just the digits.
pub open spec fn i64_chars(n: int) -> Seq<char> {
    if n >= 0 {
        dec_chars(n as nat)
    } else {
        seq!['-'] + dec_chars((-n) as nat)
    }
}

fn digit_str(d: u64) -> (s: &'static str)
    requires
        d < 10,
    ensures
        s@ == seq![spec_digit_char(d as int)],
{
    if d == 0 {
        proof {
            reveal_strlit("0");
            assert("0"@ =~= seq![spec_digit_char(0)]);
        }
        "0"
    } else if d == 1 {
        proof {
            reveal_strlit("1");
            assert("1"@ =~= seq![spec_digit_char(1)]);
        }
        "1"
    } else if d == 2 {
        proof {
            reveal_strlit("2");
            assert("2"@ =~= seq![spec_digit_char(2)]);
        }
        "2"
    } else if d == 3 {
        proof {
            reveal_strlit("3");
            assert("3"@ =~= seq![spec_digit_char(3)]);
        }
        "3"
    } else if d == 4 {
        proof {
            reveal_strlit("4");
            assert("4"@ =~= seq![spec_digit_char(4)]);
        }
        "4"
    } else if d == 5 {
        proof {
            reveal_strlit("5");
            assert("5"@ =~= seq![spec_digit_char(5)]);
        }
        "5"
    } else if d == 6 {
        proof {
            reveal_strlit("6");
            assert("6"@ =~= seq![spec_digit_char(6)]);
        }
        "6"
    } else if d == 7 {
        proof {
            reveal_strlit("7");
            assert("7"@ =~= seq![spec_digit_char(7)]);
        }
        "7"
    } else if d == 8 {
        proof {
            reveal_strlit("8");
            assert("8"@ =~= seq![spec_digit_char(8)]);
        }
        "8"
    } else {
        proof {
            reveal_strlit("9");
            assert("9"@ =~= seq![spec_digit_char(9)]);
        }
        "9"
    }
}

/// Renders an unsigned integer in decimal.
pub fn fmt_u64(n: u64) -> (s: String)
    ensures
        s@ == dec_chars(n as nat),
    decreases n,
{
    if n < 10 {
        digit_str(n).to_owned()
    } else {
        let mut s = fmt_u64(n / 10);
        s.append(digit_str(n % 10));
        s
    }
}

/// Renders a signed integer in decimal.
pub fn fmt_i64(n: i64) -> (s: String)
    ensures
        s@ == i64_chars(n as int),
{
    if n >= 0 {
        fmt_u64(n as u64)
    } else {
        let mag: u64 = (-(n as i128)) as u64;
        let mut s = "-".to_owned();
        proof {
            reveal_strlit("-");
            assert("-"@ =~= seq!['-']);
        }
        let digits = fmt_u64(mag);
        s.append(digits.as_str());
        s
    }
}

/// The result of adding two already-evaluated expressions: numbers add
/// (wrapping), anything else is rendered as text and concatenated.
pub open spec fn combine_values(l: ExprV, r: ExprV) -> ExprV {
    match (l, r) {
        (ExprV::Number(a), ExprV::Number(b)) => ExprV::Number(a.wrapping_add(b)),
        (ExprV::String(a), ExprV::String(b)) => ExprV::String(a + b),
        (ExprV::Number(a), ExprV::String(b)) => ExprV::String(i64_chars(a as int) + b),
        (ExprV::String(a), ExprV::Number(b)) => ExprV::String(a + i64_chars(b as int)),
        (a, b) => ExprV::String(value_chars(a) + value_chars(b)),
    }
}

/// The fully evaluated form of an expression: literals evaluate to
/// themselves, additions combine their evaluated operands.
pub open spec fn eval_spec(e: ExprV) -> ExprV
    decreases e,
{
    match e {
        ExprV::Number(_) => e,
        ExprV::String(_) => e,
        ExprV::Add(l, r) => combine_values(eval_spec(*l), eval_spec(*r)),
    }
}

/// The text of an evaluated expression: a string is itself, a number is its
/// decimal rendering.
pub open spec fn value_chars(v: ExprV) -> Seq<char> {
    match v {
        ExprV::String(s) => s,
        ExprV::Number(n) => i64_chars(n as int),
        ExprV::Add(_, _) => Seq::empty(),
    }
}

/// The text an expression evaluates to.
pub open spec fn eval_chars(e: ExprV) -> Seq<char> {
    value_chars(eval_spec(e))
}

/// Law: evaluation is total over the two literal kinds; it never leaves an
/// unresolved addition behind.
pub proof fn lemma_eval_is_value(e: ExprV)
    ensures
        !(eval_spec(e) is Add),
    decreases e,
{
    match e {
        ExprV::Add(l, r) => {
            lemma_eval_is_value(*l);
            lemma_eval_is_value(*r);
        },
        _ => {},
    }
}

impl Expr {
    /// Evaluates the expression to a single `Number` or `String` literal,
    /// following the combination table of [`combine_values`]. Evaluation is
    /// total: it cannot fail.
    pub fn evaluate(&self) -> (r: Expr)
        ensures
            r@ == eval_spec(self@),
        decreases *self,
    {
        match self {
            Expr::Number(_) => self.clone(),
            Expr::String(_) => self.clone(),
            Expr::Add { lhs, rhs } => {
                let left = (&**lhs).evaluate();
                let right = (&**rhs).evaluate();
                match (left, right) {
                    (Expr::Number(l), Expr::Number(r)) => Expr::Number(l.wrapping_add(r)),
                    (Expr::String(l), Expr::String(r)) => Expr::String(l.concat(r.as_str())),
                    (Expr::Number(l), Expr::String(r)) => {
                        Expr::String(fmt_i64(l).concat(r.as_str()))
                    },
                    (Expr::String(l), Expr::Number(r)) => {
                        let digits = fmt_i64(r);
                        Expr::String(l.concat(digits.as_str()))
                    },
                    (_, _) => {
                        proof {
                            lemma_eval_is_value((**lhs)@);
                            lemma_eval_is_value((**rhs)@);
                        }
                        unreached()
                    },
                }
            },
        }
    }

    /// Evaluates the expression and renders the result as text.
    pub fn evaluate_into_string(&self) -> (r: String)
        ensures
            r@ == eval_chars(self@),
    {
        let v = self.evaluate();
        match v {
            Expr::String(s) => s,
            Expr::Number(n) => fmt_i64(n),
            Expr::Add { .. } => {
                proof {
                    lemma_eval_is_value(self@);
                }
                unreached()
            },
        }
    }
}

/// Renders an expression as text, evaluating it first if it is an
/// unresolved addition.
pub fn expr_to_string(expr: &Expr) -> (r: String)
    ensures
        r@ == eval_chars(expr@),
{
    match expr {
        Expr::String(s) => s.clone(),
        Expr::Number(n) => fmt_i64(*n),
        Expr::Add { .. } => expr.evaluate_into_string(),
    }
}

/// A code statement: currently only a log line built from expressions.
#[derive(Debug)]
pub enum CodeStatement {
    Log { exprs: Vec<Expr> },
}

/// Mathematical image of a [`CodeStatement`].
pub enum CodeStatementV {
    Log { exprs: Seq<ExprV> },
}

/// The views of a sequence of expressions.
pub open spec fn exprs_view(v: Seq<Expr>) -> Seq<ExprV> {
    v.map_values(|e: Expr| e@)
}

impl View for CodeStatement {
    type V = CodeStatementV;

    open spec fn view(&self) -> CodeStatementV {
        match self {
            CodeStatement::Log { exprs } => CodeStatementV::Log { exprs: exprs_view(exprs@) },
        }
    }
}

impl Clone for CodeStatement {
    fn clone(&self) -> (r: Self)
        ensures
            r@ == self@,
    {
        match self {
            CodeStatement::Log { exprs } => {
                let es = exprs.clone();
                proof {
                    assert forall|i: int| 0 <= i < es@.len() implies es@[i] == exprs@[i] by {
                        assert(cloned::<Expr>(exprs@[i], es@[i]));
                    }
                    assert(es@ =~= exprs@);
                }
                CodeStatement::Log { exprs: es }
            },
        }
    }
}

/// A stage direction: one request to an external collaborator.
#[derive(Debug)]
pub enum StageCommand {
    BackgroundChange { operation: BackgroundOperation },
    UiChange {
        ui_target: UiChangeTarget,
        target_font: Option<Box<Expr>>,
        sprite_expr: Option<Box<Expr>>,
        image_mode: Option<UiImageMode>,
        ui_sounds: Option<Box<Expr>>,
        typing_sound: Option<Box<Expr>>,
    },
    SceneChange { scene_expr: Box<Expr> },
    ActChange { act_expr: Box<Expr> },
    CharacterChange { character: String, operation: ActorOperation },
    AnimationChange { animation: String, operation: ActorOperation },
    AudioChange { command: AudioCommand, category: String, audio: String, volume: i64 },
}

/// Mathematical image of a [`StageCommand`].
pub enum StageCommandV {
    BackgroundChange { operation: BackgroundOperationV },
    UiChange {
        ui_target: UiChangeTarget,
        target_font: Option<ExprV>,
        sprite_expr: Option<ExprV>,
        image_mode: Option<UiImageMode>,
        ui_sounds: Option<ExprV>,
        typing_sound: Option<ExprV>,
    },
    SceneChange { scene_expr: ExprV },
    ActChange { act_expr: ExprV },
    CharacterChange { character: Seq<char>, operation: ActorOperationV },
    AnimationChange { animation: Seq<char>, operation: ActorOperationV },
    AudioChange { command: AudioCommand, category: Seq<char>, audio: Seq<char>, volume: i64 },
}

/// The view of an optional boxed expression.
pub open spec fn opt_expr_view(o: Option<Box<Expr>>) -> Option<ExprV> {
    match o {
        Some(e) => Some((*e)@),
        None => None,
    }
}

impl View for StageCommand {
    type V = StageCommandV;

    open spec fn view(&self) -> StageCommandV {
        match self {
            StageCommand::BackgroundChange { operation } => StageCommandV::BackgroundChange {
                operation: operation@,
            },
            StageCommand::UiChange {
                ui_target,
                target_font,
                sprite_expr,
                image_mode,
                ui_sounds,
                typing_sound,
            } => StageCommandV::UiChange {
                ui_target: *ui_target,
                target_font: opt_expr_view(*target_font),
                sprite_expr: opt_expr_view(*sprite_expr),
                image_mode: *image_mode,
                ui_sounds: opt_expr_view(*ui_sounds),
                typing_sound: opt_expr_view(*typing_sound),
            },
            StageCommand::SceneChange { scene_expr } => StageCommandV::SceneChange {
                scene_expr: (**scene_expr)@,
            },
            StageCommand::ActChange { act_expr } => StageCommandV::ActChange {
                act_expr: (**act_expr)@,
            },
            StageCommand::CharacterChange { character, operation } => {
                StageCommandV::CharacterChange { character: character@, operation: operation@ }
            },
            StageCommand::AnimationChange { animation, operation } => {
                StageCommandV::AnimationChange { animation: animation@, operation: operation@ }
            },
            StageCommand::AudioChange { command, category, audio, volume } => {
                StageCommandV::AudioChange {
                    command: *command,
                    category: category@,
                    audio: audio@,
                    volume: *volume,
                }
            },
        }
    }
}

fn clone_opt_expr(o: &Option<Box<Expr>>) -> (r: Option<Box<Expr>>)
    ensures
        opt_expr_view(r) == opt_expr_view(*o),
{
    match o {
        Some(e) => Some(Box::new((&**e).clone())),
        None => None,
    }
}

impl Clone for StageCommand {
    fn clone(&self) -> (r: Self)
        ensures
            r@ == self@,
    {
        match self {
            StageCommand::BackgroundChange { operation } => StageCommand::BackgroundChange {
                operation: operation.clone(),
            },
            StageCommand::UiChange {
                ui_target,
                target_font,
                sprite_expr,
                image_mode,
                ui_sounds,
                typing_sound,
            } => StageCommand::UiChange {
                ui_target: *ui_target,
                target_font: clone_opt_expr(target_font),
                sprite_expr: clone_opt_expr(sprite_expr),
                image_mode: *image_mode,
                ui_sounds: clone_opt_expr(ui_sounds),
                typing_sound: clone_opt_expr(typing_sound),
            },
            StageCommand::SceneChange { scene_expr } => StageCommand::SceneChange {
                scene_expr: Box::new((&**scene_expr).clone()),
            },
            StageCommand::ActChange { act_expr } => StageCommand::ActChange {
                act_expr: Box::new((&**act_expr).clone()),
            },
            StageCommand::CharacterChange { character, operation } => {
                StageCommand::CharacterChange {
                    character: character.clone(),
                    operation: operation.clone(),
                }
            },
            StageCommand::AnimationChange { animation, operation } => {
                StageCommand::AnimationChange {
                    animation: animation.clone(),
                    operation: operation.clone(),
                }
            },
            StageCommand::AudioChange { command, category, audio, volume } => {
                StageCommand::AudioChange {
                    command: *command,
                    category: category.clone(),
                    audio: audio.clone(),
                    volume: *volume,
                }
            },
        }
    }
}

/// A spoken line: the speaking character and the text expression.
#[derive(Debug)]
pub struct Dialogue {
    pub character: String,
    pub dialogue: Expr,
}

/// Mathematical image of a [`Dialogue`].
pub struct DialogueV {
    pub character: Seq<char>,
    pub dialogue: ExprV,
}

impl View for Dialogue {
    type V = DialogueV;

    open spec fn view(&self) -> DialogueV {
        DialogueV { character: self.character@, dialogue: self.dialogue@ }
    }
}

impl Clone for Dialogue {
    fn clone(&self) -> (r: Self)
        ensures
            r@ == self@,
    {
        Dialogue { character: self.character.clone(), dialogue: self.dialogue.clone() }
    }
}

/// A narrator line shown in an information box.
#[derive(Debug)]
pub struct InfoText {
    pub infotext: Expr,
}

/// Mathematical image of an [`InfoText`].
pub struct InfoTextV {
    pub infotext: ExprV,
}

impl View for InfoText {
    type V = InfoTextV;

    open spec fn view(&self) -> InfoTextV {
        InfoTextV { infotext: self.infotext@ }
    }
}

impl Clone for InfoText {
    fn clone(&self) -> (r: Self)
        ensures
            r@ == self@,
    {
        InfoText { infotext: self.infotext.clone() }
    }
}

/// A statement that shows text: a dialogue line or a narration box.
#[derive(Debug)]
pub enum TextItem {
    Dialogue(Dialogue),
    InfoText(InfoText),
}

/// Mathematical image of a [`TextItem`].
pub enum TextItemV {
    Dialogue(DialogueV),
    InfoText(InfoTextV),
}

impl View for TextItem {
    type V = TextItemV;

    open spec fn view(&self) -> TextItemV {
        match self {
            TextItem::Dialogue(d) => TextItemV::Dialogue(d@),
            TextItem::InfoText(i) => TextItemV::InfoText(i@),
        }
    }
}

impl Clone for TextItem {
    fn clone(&self) -> (r: Self)
        ensures
            r@ == self@,
    {
        match self {
            TextItem::Dialogue(d) => TextItem::Dialogue(d.clone()),
            TextItem::InfoText(i) => TextItem::InfoText(i.clone()),
        }
    }
}

/// One executable unit of a script.
#[derive(Debug)]
pub enum Statement {
    Code(CodeStatement),
    Stage(StageCommand),
    TextItem(TextItem),
}

/// Mathematical image of a [`Statement`].
pub enum StatementV {
    Code(CodeStatementV),
    Stage(StageCommandV),
    TextItem(TextItemV),
}

impl View for Statement {
    type V = StatementV;

    open spec fn view(&self) -> StatementV {
        match self {
            Statement::Code(c) => StatementV::Code(c@),
            Statement::Stage(s) => StatementV::Stage(s@),
            Statement::TextItem(t) => StatementV::TextItem(t@),
        }
    }
}

impl Clone for Statement {
    fn clone(&self) -> (r: Self)
        ensures
            r@ == self@,
    {
        match self {
            Statement::Code(c) => Statement::Code(c.clone()),
            Statement::Stage(s) => Statement::Stage(s.clone()),
            Statement::TextItem(t) => Statement::TextItem(t.clone()),
        }
    }
}

/// The kind tag of a statement view; rewind uses it to look for the
/// nearest earlier statement of the same kind.
pub open spec fn stmt_kind(s: StatementV) -> usize {
    match s {
        StatementV::TextItem(_) => 1,
        StatementV::Stage(_) => 2,
        StatementV::Code(_) => 3,
    }
}

impl VariantKind for Statement {
    open spec fn kind_spec(&self) -> usize {
        stmt_kind(self@)
    }

    fn kind(&self) -> (k: usize)
        ensures
            k == self.kind_spec(),
    {
        match self {
            Statement::TextItem(_) => 1,
            Statement::Stage(_) => 2,
            Statement::Code(_) => 3,
        }
    }
}

/// The views of a sequence of statements.
pub open spec fn stmts_view(v: Seq<Statement>) -> Seq<StatementV> {
    v.map_values(|s: Statement| s@)
}

/// An ordered sequence of statements under a unique name.
#[derive(Debug)]
pub struct Scene {
    pub name: String,
    pub statements: Vec<Statement>,
}

/// Mathematical image of a [`Scene`].
pub struct SceneV {
    pub name: Seq<char>,
    pub statements: Seq<StatementV>,
}

impl View for Scene {
    type V = SceneV;

    open spec fn view(&self) -> SceneV {
        SceneV { name: self.name@, statements: stmts_view(self.statements@) }
    }
}

impl Clone for Scene {
    fn clone(&self) -> (r: Self)
        ensures
            r@ == self@,
    {
        let statements = self.statements.clone();
        proof {
            assert forall|i: int| 0 <= i < statements@.len() implies statements@[i]@
                == self.statements@[i]@ by {
                assert(cloned::<Statement>(self.statements@[i], statements@[i]));
            }
            assert(stmts_view(statements@) =~= stmts_view(self.statements@));
        }
        Scene { name: self.name.clone(), statements }
    }
}

impl Default for Scene {
    /// A nameless scene with no statements.
    fn default() -> (s: Self)
        ensures
            s@.name.len() == 0,
            s@.statements.len() == 0,
    {
        let s = Scene { name: String::new(), statements: Vec::new() };
        proof {
            assert(stmts_view(s.statements@) =~= Seq::<StatementV>::empty());
        }
        s
    }
}

impl PartialEq for Scene {
    /// Scene identity is by name only.
    fn eq(&self, other: &Self) -> (r: bool) {
        self.name == other.name
    }
}

impl vstd::std_specs::cmp::PartialEqSpecImpl for Scene {
    open spec fn obeys_eq_spec() -> bool {
        true
    }

    open spec fn eq_spec(&self, other: &Scene) -> bool {
        self.name@ == other.name@
    }
}

/// Scene names are pairwise distinct.
pub open spec fn scene_names_unique(scenes: Seq<SceneV>) -> bool {
    forall|i: int, j: int|
        0 <= i < j < scenes.len() ==> scenes[i].name != scenes[j].name
}

/// The position of the first scene named `id`, looking from index `i` on.
pub open spec fn find_scene_from(scenes: Seq<SceneV>, id: Seq<char>, i: int) -> Option<int>
    decreases scenes.len() - i,
{
    if !(0 <= i < scenes.len()) {
        None
    } else if scenes[i].name == id {
        Some(i)
    } else {
        find_scene_from(scenes, id, i + 1)
    }
}

/// A named act: the scenes of one script, in source order, with the
/// entrypoint scene's name.
#[derive(Debug)]
pub struct Act {
    pub scenes: Vec<Scene>,
    pub name: String,
    pub entrypoint: String,
}

/// Mathematical image of an [`Act`].
pub struct ActV {
    pub scenes: Seq<SceneV>,
    pub name: Seq<char>,
    pub entrypoint: Seq<char>,
}

/// The views of a sequence of scenes.
pub open spec fn scenes_view(v: Seq<Scene>) -> Seq<SceneV> {
    v.map_values(|s: Scene| s@)
}

impl View for Act {
    type V = ActV;

    open spec fn view(&self) -> ActV {
        ActV { scenes: scenes_view(self.scenes@), name: self.name@, entrypoint: self.entrypoint@ }
    }
}

impl ActV {
    /// A built act holds at least one scene, its scene names are unique,
    /// and its entrypoint is the first scene's name.
    pub open spec fn wf(&self) -> bool {
        &&& self.scenes.len() > 0
        &&& scene_names_unique(self.scenes)
        &&& self.entrypoint == self.scenes[0].name
    }
}

impl Clone for Act {
    fn clone(&self) -> (r: Self)
        ensures
            r@ == self@,
    {
        let scenes = self.scenes.clone();
        proof {
            assert forall|i: int| 0 <= i < scenes@.len() implies scenes@[i]@ == self.scenes@[i]@ by {
                assert(cloned::<Scene>(self.scenes@[i], scenes@[i]));
            }
            assert(scenes_view(scenes@) =~= scenes_view(self.scenes@));
        }
        Act { scenes, name: self.name.clone(), entrypoint: self.entrypoint.clone() }
    }
}

impl Default for Act {
    /// A nameless act with no scenes; running state starts with one before
    /// a script is loaded.
    fn default() -> (a: Self)
        ensures
            a@.scenes.len() == 0,
            a@.name.len() == 0,
            a@.entrypoint.len() == 0,
    {
        let a = Act { scenes: Vec::new(), name: String::new(), entrypoint: String::new() };
        proof {
            assert(scenes_view(a.scenes@) =~= Seq::<SceneV>::empty());
        }
        a
    }
}

impl Act {
    fn find_scene_at(&self, id: &str, i: usize) -> (r: Option<usize>)
        requires
            i <= self.scenes@.len(),
        ensures
            match find_scene_from(self@.scenes, id@, i as int) {
                Some(k) => r matches Some(u) && u as int == k && k < self@.scenes.len(),
                None => r is None,
            },
        decreases self.scenes@.len() - i,
    {
        if i >= self.scenes.len() {
            None
        } else if str_eq(self.scenes[i].name.as_str(), id) {
            Some(i)
        } else {
            self.find_scene_at(id, i + 1)
        }
    }

    /// The position of the first scene with the given name, if any.
    pub fn find_scene(&self, id: &str) -> (r: Option<usize>)
        ensures
            match find_scene_from(self@.scenes, id@, 0) {
                Some(k) => r matches Some(u) && u as int == k && k < self@.scenes.len(),
                None => r is None,
            },
    {
        self.find_scene_at(id, 0)
    }
}

} // verus!

verus! {

/// A statement produced by `clone` has the view of its original.
pub proof fn lemma_cloned_statement_view(a: Statement, b: Statement)
    requires
        cloned::<Statement>(a, b),
    ensures
        b@ == a@,
{
}

} // verus!

verus! {

/// Every scene's statement count fits the cursor's position type.
pub open spec fn act_scenes_fit(a: ActV) -> bool {
    forall|i: int|
        0 <= i < a.scenes.len() ==> (#[trigger] a.scenes[i].statements.len()) <= i64::MAX
}

} // verus!
