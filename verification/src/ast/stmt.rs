//! Statement AST nodes for Nature language
use vstd::prelude::*;
use crate::error::Location;
use crate::ast::expr::{Expression, Pattern, CallExpr, ExprModel};
use crate::ast::types::{Type, TypeModel};

verus! {

/// A statement as a mathematical value: expressions by their models, names as character
/// sequences and lists as sequences. `match` statements, deferred expressions, assignments and
/// empty statements are all `Other`.
pub enum StmtModel {
    VariableDecl(Seq<char>, Option<TypeModel>, Option<ExprModel>, bool, Location),
    Return(Option<ExprModel>, Location),
    Throw(ExprModel, Location),
    Go(ExprModel, Location),
    Expression(ExprModel),
    Break(Option<Seq<char>>, Location),
    Continue(Option<Seq<char>>, Location),
    If(ExprModel, Box<StmtModel>, Option<Box<StmtModel>>, Location),
    While(ExprModel, Box<StmtModel>, Location),
    For(Seq<char>, ExprModel, Box<StmtModel>, Location),
    ConstantDecl(Seq<char>, Option<TypeModel>, ExprModel, Location),
    Export(Seq<Seq<char>>, Location),
    Block(Seq<StmtModel>, Location),
    Try(Box<StmtModel>, Seq<(TypeModel, Seq<char>, StmtModel, Location)>, Location),
    Select(Seq<(ExprModel, StmtModel, Location)>, Option<Box<StmtModel>>, Location),
    Other,
}

/// The names of exported items, in order.
pub open spec fn exported_names(items: Seq<ExportItem>) -> Seq<Seq<char>> {
    items.map_values(|i: ExportItem| match i {
        ExportItem::Function(n) => n@,
    })
}

/// The text of a name that may be absent.
pub open spec fn opt_name(n: Option<String>) -> Option<Seq<char>> {
    match n {
        Some(n) => Some(n@),
        None => None,
    }
}

impl Statement {
    /// The statement as a mathematical value.
    pub open spec fn model(&self) -> StmtModel
        decreases *self,
    {
        match *self {
            Statement::VariableDecl(v) => StmtModel::VariableDecl(v.name@,
                match v.var_type { Some(t) => Some(t.model()), None => None },
                match v.initializer { Some(e) => Some(e.model()), None => None },
                v.mutable, v.location),
            Statement::Return(r) => StmtModel::Return(match r.value { Some(e) => Some(e.model()), None => None }, r.location),
            Statement::Throw(t) => StmtModel::Throw(t.exception.model(), t.location),
            Statement::Go(g) => StmtModel::Go(Expression::Call(g.call).model(), g.location),
            Statement::Expression(e) => StmtModel::Expression(e.model()),
            Statement::Break(b) => StmtModel::Break(opt_name(b.label), b.location),
            Statement::Continue(c) => StmtModel::Continue(opt_name(c.label), c.location),
            Statement::If(i) => StmtModel::If(i.condition.model(), Box::new(i.then_branch.model()),
                match i.else_branch { Some(e) => Some(Box::new(e.model())), None => None }, i.location),
            Statement::While(w) => StmtModel::While(w.condition.model(), Box::new(w.body.model()), w.location),
            Statement::For(f) => StmtModel::For(f.variable@, f.iterable.model(), Box::new(f.body.model()), f.location),
            Statement::ConstantDecl(c) => StmtModel::ConstantDecl(c.name@,
                match c.const_type { Some(t) => Some(t.model()), None => None }, c.value.model(), c.location),
            Statement::Export(e) => StmtModel::Export(exported_names(e.items@), e.location),
            Statement::Block(b) => StmtModel::Block(stmt_models(b.statements@), b.location),
            Statement::Try(t) => StmtModel::Try(Box::new(t.try_block.model()), handler_models(t.catch_handlers@), t.location),
            Statement::Select(b) => StmtModel::Select(case_models(b.cases@),
                match b.default_case { Some(d) => Some(Box::new(d.model())), None => None }, b.location),
            _ => StmtModel::Other,
        }
    }
}

/// The models of a list of statements, in order.
pub open spec fn stmt_models(ss: Seq<Statement>) -> Seq<StmtModel>
    decreases ss,
{
    if ss.len() == 0 {
        Seq::empty()
    } else {
        stmt_models(ss.subrange(0, ss.len() - 1)).push(ss[ss.len() - 1].model())
    }
}

/// The models of a list of catch handlers, in order: each one's exception type, variable,
/// body and location.
pub open spec fn handler_models(hs: Seq<CatchHandlerStmt>) -> Seq<(TypeModel, Seq<char>, StmtModel, Location)>
    decreases hs,
{
    if hs.len() == 0 {
        Seq::empty()
    } else {
        let h = hs[hs.len() - 1];
        handler_models(hs.subrange(0, hs.len() - 1)).push((h.exception_type.model(), h.variable@, h.body.model(), h.location))
    }
}

/// The models of a list of select cases, in order: each one's channel, body and location.
pub open spec fn case_models(cs: Seq<SelectCaseStmt>) -> Seq<(ExprModel, StmtModel, Location)>
    decreases cs,
{
    if cs.len() == 0 {
        Seq::empty()
    } else {
        let c = cs[cs.len() - 1];
        case_models(cs.subrange(0, cs.len() - 1)).push((c.channel.model(), c.body.model(), c.location))
    }
}

/// Adding a select case to a list adds its model.
pub proof fn lemma_case_models_push(cs: Seq<SelectCaseStmt>, c: SelectCaseStmt)
    ensures
        case_models(cs.push(c)) == case_models(cs).push((c.channel.model(), c.body.model(), c.location)),
{
    assert(cs.push(c).subrange(0, cs.len() as int) =~= cs);
}

/// Adding a catch handler to a list adds its model.
pub proof fn lemma_handler_models_push(hs: Seq<CatchHandlerStmt>, h: CatchHandlerStmt)
    ensures
        handler_models(hs.push(h)) == handler_models(hs).push((h.exception_type.model(), h.variable@, h.body.model(), h.location)),
        handler_models(Seq::<CatchHandlerStmt>::empty()) == Seq::<(TypeModel, Seq<char>, StmtModel, Location)>::empty(),
{
    assert(hs.push(h).subrange(0, hs.len() as int) =~= hs);
}

/// Adding a statement to a list adds its model.
pub proof fn lemma_stmt_models_push(ss: Seq<Statement>, s: Statement)
    ensures
        stmt_models(ss.push(s)) == stmt_models(ss).push(s.model()),
        stmt_models(Seq::<Statement>::empty()) == Seq::<StmtModel>::empty(),
{
    assert(ss.push(s).subrange(0, ss.len() as int) =~= ss);
}

/// All possible statements in Nature
#[derive(Debug)]
pub enum Statement {
    /// Expression statement
    Expression(Expression),
    /// Variable declaration
    VariableDecl(VariableDeclStmt),
    /// Constant declaration
    ConstantDecl(ConstantDeclStmt),
    /// Assignment statement
    Assignment(AssignmentStmt),
    /// If statement
    If(IfStmt),
    /// For statement
    For(ForStmt),
    /// While statement
    While(WhileStmt),
    /// Match statement
    Match(MatchStmt),
    /// Return statement
    Return(ReturnStmt),
    /// Break statement
    Break(BreakStmt),
    /// Continue statement
    Continue(ContinueStmt),
    /// Try statement
    Try(TryStmt),
    /// Throw statement
    Throw(ThrowStmt),
    /// Select statement
    Select(Box<SelectStmt>),
    /// Go statement (goroutine)
    Go(GoStmt),
    /// Block statement
    Block(BlockStmt),
    /// Export statement
    Export(ExportStmt),
    /// Deferred expression, run when the function exits
    Defer(DeferStmt),
    /// Empty statement
    Empty,
}

/// Variable declaration statement
#[derive(Debug)]
pub struct VariableDeclStmt {
    /// Variable name
    pub name: String,
    /// Variable type (if specified)
    pub var_type: Option<Type>,
    /// Initial value
    pub initializer: Option<Expression>,
    /// Is mutable
    pub mutable: bool,
    /// Location in source
    pub location: Location,
}

/// Constant declaration statement
#[derive(Debug)]
pub struct ConstantDeclStmt {
    /// Constant name
    pub name: String,
    /// Constant type (if specified)
    pub const_type: Option<Type>,
    /// Constant value
    pub value: Expression,
    /// Location in source
    pub location: Location,
}

/// Assignment statement
#[derive(Debug)]
pub struct AssignmentStmt {
    /// Left-hand side (target)
    pub target: AssignmentTarget,
    /// Assignment operator
    pub operator: AssignmentOp,
    /// Right-hand side (value)
    pub value: Expression,
    /// Location in source
    pub location: Location,
}

/// Assignment target
#[derive(Debug)]
pub enum AssignmentTarget {
    /// Simple variable
    Variable(String),
    /// Field access
    FieldAccess(FieldAccessTarget),
    /// Index access
    IndexAccess(IndexAccessTarget),
}

/// Field access target
#[derive(Debug)]
pub struct FieldAccessTarget {
    /// Object expression
    pub object: Expression,
    /// Field name
    pub field: String,
    /// Location in source
    pub location: Location,
}

/// Index access target
#[derive(Debug)]
pub struct IndexAccessTarget {
    /// Object expression
    pub object: Expression,
    /// Index expression
    pub index: Expression,
    /// Location in source
    pub location: Location,
}

/// Assignment operators
#[derive(Debug, Clone, Copy, PartialEq, Eq)]
pub enum AssignmentOp {
    /// Simple assignment (=)
    Assign,
    /// Add and assign (+=)
    AddAssign,
    /// Subtract and assign (-=)
    SubAssign,
    /// Multiply and assign (*=)
    MulAssign,
    /// Divide and assign (/=)
    DivAssign,
    /// Modulo and assign (%=)
    ModAssign,
    /// Bitwise AND and assign (&=)
    BitAndAssign,
    /// Bitwise OR and assign (|=)
    BitOrAssign,
    /// Bitwise XOR and assign (^=)
    BitXorAssign,
    /// Left shift and assign (<<=)
    LeftShiftAssign,
    /// Right shift and assign (>>=)
    RightShiftAssign,
}

/// If statement
#[derive(Debug)]
pub struct IfStmt {
    /// Condition
    pub condition: Expression,
    /// Then branch
    pub then_branch: Box<Statement>,
    /// Else branch (if any)
    pub else_branch: Option<Box<Statement>>,
    /// Location in source
    pub location: Location,
}

/// For statement
#[derive(Debug)]
pub struct ForStmt {
    /// Loop variable
    pub variable: String,
    /// Iterable expression
    pub iterable: Expression,
    /// Loop body
    pub body: Box<Statement>,
    /// Location in source
    pub location: Location,
}

/// While statement
#[derive(Debug)]
pub struct WhileStmt {
    /// Condition
    pub condition: Expression,
    /// Loop body
    pub body: Box<Statement>,
    /// Location in source
    pub location: Location,
}

/// Match statement
#[derive(Debug)]
pub struct MatchStmt {
    /// Expression to match
    pub expr: Expression,
    /// Match arms
    pub arms: Vec<MatchArmStmt>,
    /// Location in source
    pub location: Location,
}

/// Match arm for statements
#[derive(Debug)]
pub struct MatchArmStmt {
    /// Pattern
    pub pattern: Pattern,
    /// Guard condition (if any)
    pub guard: Option<Expression>,
    /// Arm body
    pub body: Statement,
    /// Location in source
    pub location: Location,
}

/// Return statement
#[derive(Debug)]
pub struct ReturnStmt {
    /// Return value (if any)
    pub value: Option<Expression>,
    /// Location in source
    pub location: Location,
}

/// Break statement
#[derive(Debug)]
pub struct BreakStmt {
    /// Break label (if any)
    pub label: Option<String>,
    /// Location in source
    pub location: Location,
}

/// Continue statement
#[derive(Debug)]
pub struct ContinueStmt {
    /// Continue label (if any)
    pub label: Option<String>,
    /// Location in source
    pub location: Location,
}

/// Try statement
#[derive(Debug)]
pub struct TryStmt {
    /// Try block
    pub try_block: Box<Statement>,
    /// Catch handlers
    pub catch_handlers: Vec<CatchHandlerStmt>,
    /// Location in source
    pub location: Location,
}

/// Catch handler for statements
#[derive(Debug)]
pub struct CatchHandlerStmt {
    /// Exception type
    pub exception_type: Type,
    /// Exception variable
    pub variable: String,
    /// Handler body
    pub body: Statement,
    /// Location in source
    pub location: Location,
}

/// Throw statement
#[derive(Debug)]
pub struct ThrowStmt {
    /// Exception to throw
    pub exception: Expression,
    /// Location in source
    pub location: Location,
}

/// Select statement
#[derive(Debug)]
pub struct SelectStmt {
    /// Select cases
    pub cases: Vec<SelectCaseStmt>,
    /// Default case (if any)
    pub default_case: Option<Box<Statement>>,
    /// Location in source
    pub location: Location,
}

/// Select case for statements
#[derive(Debug)]
pub struct SelectCaseStmt {
    /// Channel expression
    pub channel: Expression,
    /// Case body
    pub body: Statement,
    /// Location in source
    pub location: Location,
}

/// Go statement (goroutine)
#[derive(Debug)]
pub struct GoStmt {
    /// Function call to execute in goroutine
    pub call: CallExpr,
    /// Location in source
    pub location: Location,
}

/// Block statement
#[derive(Debug)]
pub struct BlockStmt {
    /// Statements in the block
    pub statements: Vec<Statement>,
    /// Location in source
    pub location: Location,
}

/// Export statement (`export name` or `export { a, b }`)
#[derive(Debug)]
pub struct ExportStmt {
    /// Exported items
    pub items: Vec<ExportItem>,
    /// Location in source
    pub location: Location,
}

/// One exported item
#[derive(Debug)]
pub enum ExportItem {
    /// An exported name
    Function(String),
}

/// Deferred expression
#[derive(Debug)]
pub struct DeferStmt {
    /// Expression run at function exit
    pub expr: Expression,
    /// Location in source
    pub location: Location,
}

impl Statement {
    /// The location a statement carries.
    pub open spec fn spec_location(&self) -> Location {
        match self {
            Statement::Expression(e) => e.spec_location(),
            Statement::VariableDecl(s) => s.location,
            Statement::ConstantDecl(s) => s.location,
            Statement::Assignment(s) => s.location,
            Statement::If(s) => s.location,
            Statement::For(s) => s.location,
            Statement::While(s) => s.location,
            Statement::Match(s) => s.location,
            Statement::Return(s) => s.location,
            Statement::Break(s) => s.location,
            Statement::Continue(s) => s.location,
            Statement::Try(s) => s.location,
            Statement::Throw(s) => s.location,
            Statement::Select(s) => s.location,
            Statement::Go(s) => s.location,
            Statement::Block(s) => s.location,
            Statement::Export(s) => s.location,
            Statement::Defer(s) => s.location,
            Statement::Empty => Location::zero(),
        }
    }

    /// Get the location of this statement
    pub fn location(&self) -> (res: Location)
        ensures
            res == self.spec_location(),
    {
        match self {
            Statement::Expression(e) => e.location(),
            Statement::VariableDecl(s) => s.location,
            Statement::ConstantDecl(s) => s.location,
            Statement::Assignment(s) => s.location,
            Statement::If(s) => s.location,
            Statement::For(s) => s.location,
            Statement::While(s) => s.location,
            Statement::Match(s) => s.location,
            Statement::Return(s) => s.location,
            Statement::Break(s) => s.location,
            Statement::Continue(s) => s.location,
            Statement::Try(s) => s.location,
            Statement::Throw(s) => s.location,
            Statement::Select(s) => s.location,
            Statement::Go(s) => s.location,
            Statement::Block(s) => s.location,
            Statement::Export(s) => s.location,
            Statement::Defer(s) => s.location,
            Statement::Empty => Location::new(0, 0, 0),
        }
    }
}

} // verus!
