//! Expression AST nodes for Nature language
use vstd::prelude::*;
use crate::error::Location;
use crate::ast::types::{Type, Parameter, TypeModel, models};
use crate::ast::stmt::Statement;

verus! {

/// All possible expressions in Nature
#[derive(Debug)]
pub enum Expression {
    /// Literal values
    Literal(Literal),
    /// Variable reference
    Variable(String),
    /// Function call
    Call(CallExpr),
    /// Method call
    MethodCall(MethodCallExpr),
    /// Binary operation
    Binary(BinaryExpr),
    /// Unary operation
    Unary(UnaryExpr),
    /// Conditional expression (ternary)
    Conditional(ConditionalExpr),
    /// Array/vector literal
    Array(ArrayExpr),
    /// Map literal
    MapLiteral(MapExpr),
    /// Tuple literal
    Tuple(TupleExpr),
    /// Struct literal
    Struct(StructExpr),
    /// Field access
    FieldAccess(FieldAccessExpr),
    /// Index access
    IndexAccess(IndexAccessExpr),
    /// Type cast
    Cast(CastExpr),
    /// Type assertion
    Assert(AssertExpr),
    /// Lambda/closure expression
    Lambda(LambdaExpr),
    /// Match expression
    Match(MatchExpr),
    /// Block expression
    Block(BlockExpr),
    /// If expression
    If(IfExpr),
    /// For expression
    For(ForExpr),
    /// While expression
    While(WhileExpr),
    /// Try expression
    Try(TryExpr),
    /// Select expression
    Select(SelectExpr),
    /// Go expression (goroutine)
    Go(GoExpr),
    /// Creation of a reference-counted object
    New(NewExpr),
}

/// Literal values
#[derive(Debug, PartialEq)]
pub enum Literal {
    /// Integer literal
    Integer(i64),
    /// Float literal, kept as the digits written in the source
    Float(String),
    /// String literal
    String(String),
    /// Character literal
    Char(char),
    /// Boolean literal
    Boolean(bool),
    /// Null literal
    Null,
}

/// Function call expression
#[derive(Debug)]
pub struct CallExpr {
    /// Function name or expression
    pub callee: Box<Expression>,
    /// Type arguments
    pub type_args: Vec<Type>,
    /// Function arguments
    pub arguments: Vec<Expression>,
    /// Location in source
    pub location: Location,
}

/// Method call expression
#[derive(Debug)]
pub struct MethodCallExpr {
    /// Object expression
    pub object: Box<Expression>,
    /// Method name
    pub method: String,
    /// Type arguments
    pub type_args: Vec<Type>,
    /// Method arguments
    pub arguments: Vec<Expression>,
    /// Location in source
    pub location: Location,
}

/// Binary operation expression
#[derive(Debug)]
pub struct BinaryExpr {
    /// Left operand
    pub left: Box<Expression>,
    /// Binary operator
    pub operator: BinaryOp,
    /// Right operand
    pub right: Box<Expression>,
    /// Location in source
    pub location: Location,
}

/// Binary operators
#[derive(Debug, Clone, Copy, PartialEq, Eq)]
pub enum BinaryOp {
    /// Addition operator (+)
    Add,
    /// Subtraction operator (-)
    Sub,
    /// Multiplication operator (*)
    Mul,
    /// Division operator (/)
    Div,
    /// Modulo operator (%)
    Mod,
    /// Power operator (**)
    Pow,
    /// Bitwise AND operator (&)
    BitAnd,
    /// Bitwise OR operator (|)
    BitOr,
    /// Bitwise XOR operator (^)
    BitXor,
    /// Left bit shift operator (<<)
    LeftShift,
    /// Right bit shift operator (>>)
    RightShift,
    /// Logical AND operator (&&)
    LogicalAnd,
    /// Logical OR operator (||)
    LogicalOr,
    /// Equality operator (==)
    Equal,
    /// Inequality operator (!=)
    NotEqual,
    /// Less than operator (<)
    Less,
    /// Less than or equal operator (<=)
    LessEqual,
    /// Greater than operator (>)
    Greater,
    /// Greater than or equal operator (>=)
    GreaterEqual,
    /// Assignment operator (=)
    Assign,
    /// Add and assign operator (+=)
    AddAssign,
    /// Subtract and assign operator (-=)
    SubAssign,
    /// Multiply and assign operator (*=)
    MulAssign,
    /// Divide and assign operator (/=)
    DivAssign,
    /// Modulo and assign operator (%=)
    ModAssign,
    /// Bitwise AND and assign operator (&=)
    BitAndAssign,
    /// Bitwise OR and assign operator (|=)
    BitOrAssign,
    /// Bitwise XOR and assign operator (^=)
    BitXorAssign,
    /// Left shift and assign operator (<<=)
    LeftShiftAssign,
    /// Right shift and assign operator (>>=)
    RightShiftAssign,
}

/// Unary operation expression
#[derive(Debug)]
pub struct UnaryExpr {
    /// Unary operator
    pub operator: UnaryOp,
    /// Operand
    pub operand: Box<Expression>,
    /// Location in source
    pub location: Location,
}

/// Unary operators
#[derive(Debug, Clone, Copy, PartialEq, Eq)]
pub enum UnaryOp {
    /// Logical not (!)
    Not,
    /// Bitwise not (~)
    BitNot,
    /// Unary minus (-)
    Neg,
    /// Unary plus (+)
    Pos,
    /// Dereference (*)
    Deref,
    /// Address of (&)
    AddrOf,
}

/// Conditional expression (ternary operator)
#[derive(Debug)]
pub struct ConditionalExpr {
    /// Condition
    pub condition: Box<Expression>,
    /// True branch
    pub true_expr: Box<Expression>,
    /// False branch
    pub false_expr: Box<Expression>,
    /// Location in source
    pub location: Location,
}

/// Array literal expression
#[derive(Debug)]
pub struct ArrayExpr {
    /// Array elements
    pub elements: Vec<Expression>,
    /// Location in source
    pub location: Location,
}

/// Map literal expression
#[derive(Debug)]
pub struct MapExpr {
    /// Map entries
    pub entries: Vec<MapEntry>,
    /// Location in source
    pub location: Location,
}

/// Map entry
#[derive(Debug)]
pub struct MapEntry {
    /// Key
    pub key: Expression,
    /// Value
    pub value: Expression,
    /// Location in source
    pub location: Location,
}

/// Tuple literal expression
#[derive(Debug)]
pub struct TupleExpr {
    /// Tuple elements
    pub elements: Vec<Expression>,
    /// Location in source
    pub location: Location,
}

/// Struct literal expression
#[derive(Debug)]
pub struct StructExpr {
    /// Struct type
    pub struct_type: Type,
    /// Field initializers
    pub fields: Vec<FieldInit>,
    /// Location in source
    pub location: Location,
}

/// Field initializer
#[derive(Debug)]
pub struct FieldInit {
    /// Field name
    pub name: String,
    /// Field value
    pub value: Expression,
    /// Location in source
    pub location: Location,
}

/// Field access expression
#[derive(Debug)]
pub struct FieldAccessExpr {
    /// Object expression
    pub object: Box<Expression>,
    /// Field name
    pub field: String,
    /// Location in source
    pub location: Location,
}

/// Index access expression
#[derive(Debug)]
pub struct IndexAccessExpr {
    /// Object expression
    pub object: Box<Expression>,
    /// Index expression
    pub index: Box<Expression>,
    /// Location in source
    pub location: Location,
}

/// Type cast expression
#[derive(Debug)]
pub struct CastExpr {
    /// Expression to cast
    pub expr: Box<Expression>,
    /// Target type
    pub target_type: Type,
    /// Location in source
    pub location: Location,
}

/// Type assertion expression
#[derive(Debug)]
pub struct AssertExpr {
    /// Expression to assert
    pub expr: Box<Expression>,
    /// Asserted type
    pub asserted_type: Type,
    /// Location in source
    pub location: Location,
}

/// Lambda/closure expression
#[derive(Debug)]
pub struct LambdaExpr {
    /// Lambda parameters
    pub parameters: Vec<Parameter>,
    /// Return type
    pub return_type: Option<Type>,
    /// Lambda body
    pub body: Box<Expression>,
    /// Location in source
    pub location: Location,
}

/// Match expression
#[derive(Debug)]
pub struct MatchExpr {
    /// Expression to match
    pub expr: Box<Expression>,
    /// Match arms
    pub arms: Vec<MatchArm>,
    /// Location in source
    pub location: Location,
}

/// Match arm
#[derive(Debug)]
pub struct MatchArm {
    /// Pattern
    pub pattern: Pattern,
    /// Guard condition (if any)
    pub guard: Option<Expression>,
    /// Arm body
    pub body: Expression,
    /// Location in source
    pub location: Location,
}

/// Pattern for matching
#[derive(Debug)]
pub enum Pattern {
    /// Literal pattern
    Literal(Literal),
    /// Variable pattern
    Variable(String),
    /// Wildcard pattern
    Wildcard,
    /// Tuple pattern
    Tuple(Vec<Pattern>),
    /// Struct pattern
    Struct(StructPattern),
    /// Array pattern
    Array(Vec<Pattern>),
    /// Type pattern
    Type(Type),
    /// Or pattern (alternative patterns)
    Or(Vec<Pattern>),
}

/// Struct pattern
#[derive(Debug)]
pub struct StructPattern {
    /// Struct type
    pub struct_type: Type,
    /// Field patterns
    pub fields: Vec<FieldPattern>,
    /// Location in source
    pub location: Location,
}

/// Field pattern
#[derive(Debug)]
pub struct FieldPattern {
    /// Field name
    pub name: String,
    /// Field pattern
    pub pattern: Pattern,
    /// Location in source
    pub location: Location,
}

/// An expression as a mathematical value: names as character sequences and lists as sequences.
/// Forms that hold blocks of code (lambdas, `match`, `if`, loops, `try`, `select`, `go`, `new`,
/// casts, assertions, tuples and blocks) are all `Other`.
pub enum ExprModel {
    Literal(Literal),
    Variable(Seq<char>),
    Call(Box<ExprModel>, Seq<TypeModel>, Seq<ExprModel>, Location),
    MethodCall(Box<ExprModel>, Seq<char>, Seq<TypeModel>, Seq<ExprModel>, Location),
    Binary(Box<ExprModel>, BinaryOp, Box<ExprModel>, Location),
    Unary(UnaryOp, Box<ExprModel>, Location),
    Conditional(Box<ExprModel>, Box<ExprModel>, Box<ExprModel>, Location),
    FieldAccess(Box<ExprModel>, Seq<char>, Location),
    IndexAccess(Box<ExprModel>, Box<ExprModel>, Location),
    Array(Seq<ExprModel>, Location),
    MapLiteral(Seq<(ExprModel, ExprModel, Location)>, Location),
    Struct(TypeModel, Seq<(Seq<char>, ExprModel, Location)>, Location),
    Other,
}

impl Expression {
    /// The expression as a mathematical value.
    pub open spec fn model(&self) -> ExprModel
        decreases *self,
    {
        match *self {
            Expression::Literal(l) => ExprModel::Literal(l),
            Expression::Variable(n) => ExprModel::Variable(n@),
            Expression::Call(c) => ExprModel::Call(Box::new(c.callee.model()), models(c.type_args@),
                expr_models(c.arguments@), c.location),
            Expression::MethodCall(m) => ExprModel::MethodCall(Box::new(m.object.model()), m.method@,
                models(m.type_args@), expr_models(m.arguments@), m.location),
            Expression::Binary(b) => ExprModel::Binary(Box::new(b.left.model()), b.operator, Box::new(b.right.model()), b.location),
            Expression::Unary(u) => ExprModel::Unary(u.operator, Box::new(u.operand.model()), u.location),
            Expression::Conditional(c) => ExprModel::Conditional(Box::new(c.condition.model()),
                Box::new(c.true_expr.model()), Box::new(c.false_expr.model()), c.location),
            Expression::FieldAccess(f) => ExprModel::FieldAccess(Box::new(f.object.model()), f.field@, f.location),
            Expression::IndexAccess(i) => ExprModel::IndexAccess(Box::new(i.object.model()), Box::new(i.index.model()), i.location),
            Expression::Array(a) => ExprModel::Array(expr_models(a.elements@), a.location),
            Expression::MapLiteral(m) => ExprModel::MapLiteral(entry_models(m.entries@), m.location),
            Expression::Struct(st) => ExprModel::Struct(st.struct_type.model(), field_init_models(st.fields@), st.location),
            _ => ExprModel::Other,
        }
    }
}

/// The models of a list of expressions, in order.
pub open spec fn expr_models(es: Seq<Expression>) -> Seq<ExprModel>
    decreases es,
{
    if es.len() == 0 {
        Seq::empty()
    } else {
        expr_models(es.subrange(0, es.len() - 1)).push(es[es.len() - 1].model())
    }
}

/// The models of a map literal's entries: key, value and place of each, in order.
pub open spec fn entry_models(es: Seq<MapEntry>) -> Seq<(ExprModel, ExprModel, Location)>
    decreases es,
{
    if es.len() == 0 {
        Seq::empty()
    } else {
        let e = es[es.len() - 1];
        entry_models(es.subrange(0, es.len() - 1)).push((e.key.model(), e.value.model(), e.location))
    }
}

/// The models of a struct literal's field values: name, value and place of each, in order.
pub open spec fn field_init_models(fs: Seq<FieldInit>) -> Seq<(Seq<char>, ExprModel, Location)>
    decreases fs,
{
    if fs.len() == 0 {
        Seq::empty()
    } else {
        let f = fs[fs.len() - 1];
        field_init_models(fs.subrange(0, fs.len() - 1)).push((f.name@, f.value.model(), f.location))
    }
}

/// Adding an expression to a list adds its model.
pub proof fn lemma_expr_models_push(es: Seq<Expression>, e: Expression)
    ensures
        expr_models(es.push(e)) == expr_models(es).push(e.model()),
        expr_models(Seq::<Expression>::empty()) == Seq::<ExprModel>::empty(),
{
    assert(es.push(e).subrange(0, es.len() as int) =~= es);
}

/// Adding an entry to a map literal adds its model.
pub proof fn lemma_entry_models_push(es: Seq<MapEntry>, e: MapEntry)
    ensures
        entry_models(es.push(e)) == entry_models(es).push((e.key.model(), e.value.model(), e.location)),
        entry_models(Seq::<MapEntry>::empty()) == Seq::<(ExprModel, ExprModel, Location)>::empty(),
{
    assert(es.push(e).subrange(0, es.len() as int) =~= es);
}

/// Adding a field value to a struct literal adds its model.
pub proof fn lemma_field_init_models_push(fs: Seq<FieldInit>, f: FieldInit)
    ensures
        field_init_models(fs.push(f)) == field_init_models(fs).push((f.name@, f.value.model(), f.location)),
        field_init_models(Seq::<FieldInit>::empty()) == Seq::<(Seq<char>, ExprModel, Location)>::empty(),
{
    assert(fs.push(f).subrange(0, fs.len() as int) =~= fs);
}

/// A pattern as a mathematical value: names as character sequences and lists as sequences.
pub enum PatternModel {
    Literal(Literal),
    Variable(Seq<char>),
    Wildcard,
    Tuple(Seq<PatternModel>),
    Struct(TypeModel, Seq<(Seq<char>, PatternModel, Location)>, Location),
    Array(Seq<PatternModel>),
    Type(TypeModel),
    Or(Seq<PatternModel>),
}

impl Pattern {
    /// The pattern as a mathematical value.
    pub open spec fn model(&self) -> PatternModel
        decreases *self,
    {
        match *self {
            Pattern::Literal(l) => PatternModel::Literal(l),
            Pattern::Variable(n) => PatternModel::Variable(n@),
            Pattern::Wildcard => PatternModel::Wildcard,
            Pattern::Tuple(ps) => PatternModel::Tuple(pattern_models(ps@)),
            Pattern::Struct(sp) => PatternModel::Struct(sp.struct_type.model(), field_pattern_models(sp.fields@), sp.location),
            Pattern::Array(ps) => PatternModel::Array(pattern_models(ps@)),
            Pattern::Type(t) => PatternModel::Type(t.model()),
            Pattern::Or(ps) => PatternModel::Or(pattern_models(ps@)),
        }
    }
}

/// The models of a list of patterns, in order.
pub open spec fn pattern_models(ps: Seq<Pattern>) -> Seq<PatternModel>
    decreases ps,
{
    if ps.len() == 0 {
        Seq::empty()
    } else {
        pattern_models(ps.subrange(0, ps.len() - 1)).push(ps[ps.len() - 1].model())
    }
}

/// The models of a struct pattern's fields: name, pattern and place of each, in order.
pub open spec fn field_pattern_models(fs: Seq<FieldPattern>) -> Seq<(Seq<char>, PatternModel, Location)>
    decreases fs,
{
    if fs.len() == 0 {
        Seq::empty()
    } else {
        let f = fs[fs.len() - 1];
        field_pattern_models(fs.subrange(0, fs.len() - 1)).push((f.name@, f.pattern.model(), f.location))
    }
}

/// A list of patterns has as many models as patterns.
pub proof fn lemma_pattern_models_len(ps: Seq<Pattern>)
    ensures
        pattern_models(ps).len() == ps.len(),
    decreases ps.len(),
{
    if ps.len() > 0 {
        lemma_pattern_models_len(ps.subrange(0, ps.len() - 1));
    }
}

/// Adding a pattern to a list adds its model to the list's models.
pub proof fn lemma_pattern_models_push(ps: Seq<Pattern>, p: Pattern)
    ensures
        pattern_models(ps.push(p)) == pattern_models(ps).push(p.model()),
{
    assert(ps.push(p).subrange(0, ps.len() as int) =~= ps);
}

/// A list of one pattern has the model of that pattern alone.
pub proof fn lemma_pattern_models_single(ps: Seq<Pattern>)
    requires
        ps.len() == 1,
    ensures
        pattern_models(ps) == seq![ps[0].model()],
{
    assert(ps.subrange(0, 0) =~= Seq::<Pattern>::empty());
    assert(pattern_models(ps.subrange(0, 0)) =~= Seq::<PatternModel>::empty());
    assert(pattern_models(ps) =~= seq![ps[0].model()]);
}

/// Block expression
#[derive(Debug)]
pub struct BlockExpr {
    /// Statements in the block
    pub statements: Vec<Statement>,
    /// Final expression (if any)
    pub final_expr: Option<Box<Expression>>,
    /// Location in source
    pub location: Location,
}

/// If expression
#[derive(Debug)]
pub struct IfExpr {
    /// Condition
    pub condition: Box<Expression>,
    /// Then branch
    pub then_branch: Box<Expression>,
    /// Else branch (if any)
    pub else_branch: Option<Box<Expression>>,
    /// Location in source
    pub location: Location,
}

/// For expression
#[derive(Debug)]
pub struct ForExpr {
    /// Loop variable
    pub variable: String,
    /// Iterable expression
    pub iterable: Box<Expression>,
    /// Loop body
    pub body: Box<Expression>,
    /// Location in source
    pub location: Location,
}

/// While expression
#[derive(Debug)]
pub struct WhileExpr {
    /// Condition
    pub condition: Box<Expression>,
    /// Loop body
    pub body: Box<Expression>,
    /// Location in source
    pub location: Location,
}

/// Try expression
#[derive(Debug)]
pub struct TryExpr {
    /// Expression to try
    pub expr: Box<Expression>,
    /// Catch handlers
    pub catch_handlers: Vec<CatchHandler>,
    /// Location in source
    pub location: Location,
}

/// Catch handler
#[derive(Debug)]
pub struct CatchHandler {
    /// Exception type
    pub exception_type: Type,
    /// Exception variable
    pub variable: String,
    /// Handler body
    pub body: Expression,
    /// Location in source
    pub location: Location,
}

/// Select expression
#[derive(Debug)]
pub struct SelectExpr {
    /// Select cases
    pub cases: Vec<SelectCase>,
    /// Default case (if any)
    pub default_case: Option<Box<Expression>>,
    /// Location in source
    pub location: Location,
}

/// Select case
#[derive(Debug)]
pub struct SelectCase {
    /// Channel expression
    pub channel: Expression,
    /// Case body
    pub body: Expression,
    /// Location in source
    pub location: Location,
}

/// Go expression (goroutine)
#[derive(Debug)]
pub struct GoExpr {
    /// Function call to execute in goroutine
    pub call: CallExpr,
    /// Location in source
    pub location: Location,
}

/// Creation of a reference-counted object (`new T`, `new T{...}`, `new T(...)`)
#[derive(Debug)]
pub struct NewExpr {
    /// Name of the created type
    pub object_type: String,
    /// Initializer (if any)
    pub initializer: Option<Box<Expression>>,
    /// Location in source
    pub location: Location,
}

impl Expression {
    /// The location an expression carries; literals and variables carry `0:0`.
    pub open spec fn spec_location(&self) -> Location {
        match self {
            Expression::Literal(_) => Location::zero(),
            Expression::Variable(_) => Location::zero(),
            Expression::Call(e) => e.location,
            Expression::MethodCall(e) => e.location,
            Expression::Binary(e) => e.location,
            Expression::Unary(e) => e.location,
            Expression::Conditional(e) => e.location,
            Expression::Array(e) => e.location,
            Expression::MapLiteral(e) => e.location,
            Expression::Tuple(e) => e.location,
            Expression::Struct(e) => e.location,
            Expression::FieldAccess(e) => e.location,
            Expression::IndexAccess(e) => e.location,
            Expression::Cast(e) => e.location,
            Expression::Assert(e) => e.location,
            Expression::Lambda(e) => e.location,
            Expression::Match(e) => e.location,
            Expression::Block(e) => e.location,
            Expression::If(e) => e.location,
            Expression::For(e) => e.location,
            Expression::While(e) => e.location,
            Expression::Try(e) => e.location,
            Expression::Select(e) => e.location,
            Expression::Go(e) => e.location,
            Expression::New(e) => e.location,
        }
    }

    /// Get the location of this expression
    pub fn location(&self) -> (res: Location)
        ensures
            res == self.spec_location(),
    {
        match self {
            Expression::Literal(_) => Location::new(0, 0, 0),
            Expression::Variable(_) => Location::new(0, 0, 0),
            Expression::Call(e) => e.location,
            Expression::MethodCall(e) => e.location,
            Expression::Binary(e) => e.location,
            Expression::Unary(e) => e.location,
            Expression::Conditional(e) => e.location,
            Expression::Array(e) => e.location,
            Expression::MapLiteral(e) => e.location,
            Expression::Tuple(e) => e.location,
            Expression::Struct(e) => e.location,
            Expression::FieldAccess(e) => e.location,
            Expression::IndexAccess(e) => e.location,
            Expression::Cast(e) => e.location,
            Expression::Assert(e) => e.location,
            Expression::Lambda(e) => e.location,
            Expression::Match(e) => e.location,
            Expression::Block(e) => e.location,
            Expression::If(e) => e.location,
            Expression::For(e) => e.location,
            Expression::While(e) => e.location,
            Expression::Try(e) => e.location,
            Expression::Select(e) => e.location,
            Expression::Go(e) => e.location,
            Expression::New(e) => e.location,
        }
    }
}

} // verus!
