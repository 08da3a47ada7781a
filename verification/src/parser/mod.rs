//! Parser for Nature language
use vstd::prelude::*;
use crate::ast::{Declaration, Program, SourceInfo};
use crate::error::{CompilerError, Location, Result};
use crate::lexer::{Lexer, lexes};
use crate::lexer::token::{Token, TokenKind, TokenWithLocation};
use crate::text::concat;
use crate::ast::expr::ExprModel;
use crate::ast::types::TypeModel;

pub mod type_parser;
pub mod expr_parser;
pub mod stmt_parser;
pub mod decl_parser;

pub use type_parser::parse_type;
pub use expr_parser::parse_expression;
pub use decl_parser::{parse_function_declaration, parse_variable_declaration, parse_constant_declaration, parse_type_declaration, parse_go_style_struct_declaration, parse_go_style_struct_declaration_from_current, parse_impl_declaration, parse_struct_declaration, parse_interface_declaration, parse_import_declaration};
pub use stmt_parser::{parse_statement, parse_if_statement, parse_for_statement, parse_while_statement, parse_match_statement, parse_return_statement, parse_break_statement, parse_continue_statement, parse_try_statement, parse_throw_statement, parse_select_statement, parse_go_statement, parse_block_statement, parse_export_statement};

verus! {

/// Parser for Nature language
///
/// The source is lexed when the parser is made; a lexical error is reported when the parser
/// reaches the place where it stopped the lexer.
pub struct Parser {
    /// The tokens of the source, in order, up to the end or to the first lexical error
    tokens: Vec<TokenWithLocation>,
    /// The lexical error that stopped the lexer, if any
    lex_error: Option<CompilerError>,
    /// Index of the next token to read
    next: usize,
    /// Current token
    current: Option<TokenWithLocation>,
    /// Source file information
    source_info: SourceInfo,
}

/// `p1` is `p0` after some parsing: the same input, read no less far.
pub open spec fn advanced(p0: Parser, p1: Parser) -> bool {
    &&& p1.wf()
    &&& p1.tokens() == p0.tokens()
    &&& p1.lex_error() == p0.lex_error()
    &&& p1.source() == p0.source()
    &&& p1.measure() <= p0.measure()
    &&& p1.cursor() >= p0.cursor()
}

/// `p1` is `p0` after one token was read: the next token, or none at the end of the input.
pub open spec fn stepped(p0: Parser, p1: Parser) -> bool {
    &&& p1.wf()
    &&& p1.tokens() == p0.tokens()
    &&& p1.lex_error() == p0.lex_error()
    &&& p1.source() == p0.source()
    &&& if p0.cursor() < p0.tokens().len() {
        p1.cur() == Some(p0.tokens()[p0.cursor()]) && p1.cursor() == p0.cursor() + 1
    } else {
        p1.cur() is None && p1.cursor() == p0.cursor() && p0.lex_error() is None
    }
}

/// The kind of a token the parser may hold.
pub open spec fn kind_of(t: Option<TokenWithLocation>) -> Option<TokenKind> {
    match t {
        Some(t) => Some(t.token.spec_kind()),
        None => None,
    }
}

/// Where a token the parser may hold stands; nowhere when there is none.
pub open spec fn location_of(t: Option<TokenWithLocation>) -> Location {
    match t {
        Some(t) => Location { line: t.line, column: t.column, offset: t.offset },
        None => Location::zero(),
    }
}

/// The `Debug` text of a token the parser may hold.
pub open spec fn debug_of(t: Option<TokenWithLocation>) -> Seq<char> {
    match t {
        Some(t) => "Some("@ + t.token.spec_debug() + ")"@,
        None => "None"@,
    }
}

/// The kind of the token after the current one, if there is one.
pub open spec fn next_kind(p: Parser) -> Option<TokenKind> {
    if 0 <= p.cursor() < p.tokens().len() {
        Some(p.tokens()[p.cursor()].token.spec_kind())
    } else {
        None
    }
}

/// Reading past the current token fails: the input ends with a lexical error there.
pub open spec fn next_read_fails(p: Parser) -> bool {
    p.cursor() == p.tokens().len() && p.lex_error() is Some
}

/// The name the current token carries, if it is an identifier.
pub open spec fn cur_identifier(p: Parser) -> Option<String> {
    match p.cur() {
        Some(t) => match t.token {
            Token::Identifier(name) => Some(name),
            _ => None,
        },
        None => None,
    }
}

/// The tokens that open a top-level declaration of a program.
pub open spec fn opens_program_declaration(k: Option<TokenKind>) -> bool {
    match k {
        Some(k) => k == TokenKind::Fn || k == TokenKind::Let || k == TokenKind::Const || k == TokenKind::Type
            || k == TokenKind::Struct || k == TokenKind::Interface || k == TokenKind::Import,
        None => false,
    }
}

/// The input of a parser: its tokens, and the lexical error met after them, if any.
pub struct TokenInput {
    pub tokens: Seq<TokenWithLocation>,
    pub lex_error: Option<CompilerError>,
}

/// Where a parser stands: the index of the next token to read, and the current token.
pub struct Spot {
    pub next: int,
    pub current: Option<TokenWithLocation>,
}

/// Why parsing failed: the lexical error met when reading past the last token, or a syntax
/// error at a place, with its message.
pub enum Failure {
    Lexical(CompilerError),
    Syntax(Location, Seq<char>),
}

/// Reading past the current token at `s` fails: the input ends there with a lexical error.
pub open spec fn read_fails_at(inp: TokenInput, s: Spot) -> bool {
    s.next >= inp.tokens.len() && inp.lex_error is Some
}

/// Where the parser stands after reading one more token from `s`.
pub open spec fn read_at(inp: TokenInput, s: Spot) -> Spot {
    if 0 <= s.next < inp.tokens.len() {
        Spot { next: s.next + 1, current: Some(inp.tokens[s.next]) }
    } else {
        Spot { next: s.next, current: None }
    }
}

/// How much input is left at `s`: the tokens not yet read, and the current one.
pub open spec fn measure_at(inp: TokenInput, s: Spot) -> nat {
    ((inp.tokens.len() - s.next) + if s.current is Some { 1int } else { 0int }) as nat
}

/// Less input is left at `s1` than at `s0`.
pub open spec fn smaller(inp: TokenInput, s1: Spot, s0: Spot) -> bool {
    measure_at(inp, s1) < measure_at(inp, s0)
}

/// The failure of reading past the end of an input that ends with a lexical error.
pub open spec fn lexical_failure(inp: TokenInput) -> Failure {
    Failure::Lexical(inp.lex_error->0)
}

/// The failure no parse ever reaches: each step that could loop reads a token first.
pub open spec fn stalled() -> Failure {
    Failure::Syntax(Location::zero(), Seq::empty())
}

/// `e` is the error of the failure `f`.
pub open spec fn fails_with(e: CompilerError, f: Failure) -> bool {
    match f {
        Failure::Lexical(l) => e == l,
        Failure::Syntax(loc, m) => syntax_error_at(e, loc, m),
    }
}

/// Consuming a token of kind `k` at `s`: whether the current token was one, and where the parser
/// then stands.
pub open spec fn consume_at(inp: TokenInput, s: Spot, k: TokenKind) -> std::result::Result<(bool, Spot), Failure> {
    if kind_of(s.current) == Some(k) {
        if read_fails_at(inp, s) {
            Err(lexical_failure(inp))
        } else {
            Ok((true, read_at(inp, s)))
        }
    } else {
        Ok((false, s))
    }
}

/// The message of the syntax error where a token of the kind of `t` was expected and `cur` came.
#[verifier::opaque]
pub open spec fn expected_message(t: Token, cur: Option<TokenWithLocation>) -> Seq<char> {
    "Expected "@ + t.spec_debug() + ", found "@ + debug_of(cur)
}

/// Reading a token of the kind of `t` at `s`, which must be the current one.
pub open spec fn expect_at(inp: TokenInput, s: Spot, t: Token) -> std::result::Result<Spot, Failure> {
    if kind_of(s.current) == Some(t.spec_kind()) {
        if read_fails_at(inp, s) {
            Err(lexical_failure(inp))
        } else {
            Ok(read_at(inp, s))
        }
    } else {
        Err(Failure::Syntax(location_of(s.current), expected_message(t, s.current)))
    }
}

/// The integer the current token at `s` carries, if it is an integer literal.
pub open spec fn int_at(s: Spot) -> Option<i64> {
    match s.current {
        Some(t) => match t.token {
            Token::Integer(n) => Some(n),
            _ => None,
        },
        None => None,
    }
}

/// The syntax error reported at `loc` with `message`.
pub open spec fn syntax_error_at(e: CompilerError, loc: Location, message: Seq<char>) -> bool {
    &&& e matches CompilerError::Syntax { line, column, message: m }
    &&& line == loc.line && column == loc.column && m@ == message
}

/// A declaration as a mathematical value, for the kinds whose parsing is described exactly.
pub enum DeclModel {
    Function(decl_parser::FnModel),
    Constant(Seq<char>, Option<TypeModel>, ExprModel, Location),
    Struct(decl_parser::StructModel),
    Type(decl_parser::TypeDeclModel),
    Interface(decl_parser::InterfaceModel),
    Import(decl_parser::ImportModel),
    /// A declaration of another kind
    Other,
}

/// The model of a declaration.
pub open spec fn decl_model(d: Declaration) -> DeclModel {
    match d {
        Declaration::Function(f) => DeclModel::Function(decl_parser::fn_model(f)),
        Declaration::Constant(c) => DeclModel::Constant(c.name@, decl_parser::opt_type_model(c.const_type), c.value.model(), c.location),
        Declaration::Struct(st) => DeclModel::Struct(decl_parser::struct_model(st)),
        Declaration::Type(t) => DeclModel::Type(decl_parser::type_decl_model(t)),
        Declaration::Interface(i) => DeclModel::Interface(decl_parser::interface_model(i)),
        Declaration::Import(i) => DeclModel::Import(decl_parser::import_model(i)),
        _ => DeclModel::Other,
    }
}

/// The models of a list of declarations, in order.
pub open spec fn decl_models(ds: Seq<Declaration>) -> Seq<DeclModel> {
    ds.map_values(|d: Declaration| decl_model(d))
}

/// What parsing a program gives: a failure, a declaration this description leaves open (with
/// all that follows), or the declarations.
pub enum ProgramParse {
    Failed(Failure),
    Open,
    Done(Seq<DeclModel>),
}

/// What parsing a declaration gives: nothing where no declaration starts (the token is then
/// skipped), a failure, a declaration this description leaves open, or the declaration and where
/// the parser then stands.
pub enum DeclParse {
    Skip,
    Failed(Failure),
    Open,
    Done(DeclModel, Spot),
}

/// A top-level declaration at `s`: a function, a constant, a struct, a type, an interface or an
/// import, as their parsers read them. A `let` fails, for the variable parser expects `var`; a
/// struct followed by methods is left open.
pub open spec fn decl_at(inp: TokenInput, s: Spot) -> DeclParse {
    match kind_of(s.current) {
        None => DeclParse::Skip,
        Some(k) => if k == TokenKind::Fn {
            match decl_parser::fn_decl_at(inp, s) {
                stmt_parser::StmtParse::Failed(f) => DeclParse::Failed(f),
                stmt_parser::StmtParse::Open => DeclParse::Open,
                stmt_parser::StmtParse::Done(m, s1) => DeclParse::Done(DeclModel::Function(m), s1),
            }
        } else if k == TokenKind::Let {
            DeclParse::Failed(Failure::Syntax(location_of(s.current), expected_message(Token::Var, s.current)))
        } else if k == TokenKind::Const {
            match stmt_parser::const_decl_at(inp, s) {
                stmt_parser::StmtParse::Failed(f) => DeclParse::Failed(f),
                stmt_parser::StmtParse::Open => DeclParse::Open,
                stmt_parser::StmtParse::Done((n, t, v, l), s1) => DeclParse::Done(DeclModel::Constant(n, t, v, l), s1),
            }
        } else if k == TokenKind::Struct {
            match decl_parser::struct_decl_head_at(inp, s) {
                decl_parser::Parsed::Failed(f) => DeclParse::Failed(f),
                decl_parser::Parsed::Done(m, s1) => if kind_of(s1.current) == Some(TokenKind::Fn) {
                    DeclParse::Open
                } else {
                    DeclParse::Done(DeclModel::Struct(m), s1)
                },
            }
        } else if k == TokenKind::Type {
            match decl_parser::type_decl_at(inp, s) {
                decl_parser::Parsed::Failed(f) => DeclParse::Failed(f),
                decl_parser::Parsed::Done(m, s1) => DeclParse::Done(DeclModel::Type(m), s1),
            }
        } else if k == TokenKind::Interface {
            match decl_parser::interface_decl_at(inp, s) {
                decl_parser::Parsed::Failed(f) => DeclParse::Failed(f),
                decl_parser::Parsed::Done(m, s1) => DeclParse::Done(DeclModel::Interface(m), s1),
            }
        } else if k == TokenKind::Import {
            match decl_parser::import_decl_at(inp, s) {
                decl_parser::Parsed::Failed(f) => DeclParse::Failed(f),
                decl_parser::Parsed::Done(m, s1) => DeclParse::Done(DeclModel::Import(m), s1),
            }
        } else {
            DeclParse::Skip
        },
    }
}

/// The declarations of a program from `s`, after those in `acc`: each declaration as parsed,
/// and tokens that open no declaration skipped.
pub open spec fn program_rest_at(inp: TokenInput, s: Spot, acc: Seq<DeclModel>) -> ProgramParse
    decreases measure_at(inp, s),
{
    if s.current is None {
        ProgramParse::Done(acc)
    } else {
        match decl_at(inp, s) {
            DeclParse::Failed(f) => ProgramParse::Failed(f),
            DeclParse::Open => ProgramParse::Open,
            DeclParse::Done(m, s1) => if smaller(inp, s1, s) {
                program_rest_at(inp, s1, acc.push(m))
            } else {
                ProgramParse::Failed(stalled())
            },
            DeclParse::Skip => if read_fails_at(inp, s) {
                ProgramParse::Failed(lexical_failure(inp))
            } else if smaller(inp, read_at(inp, s), s) {
                program_rest_at(inp, read_at(inp, s), acc)
            } else {
                ProgramParse::Failed(stalled())
            },
        }
    }
}

/// A whole program from `s`: read the first token, then the declarations.
#[verifier::opaque]
pub open spec fn program_at(inp: TokenInput, s: Spot) -> ProgramParse {
    if read_fails_at(inp, s) {
        ProgramParse::Failed(lexical_failure(inp))
    } else {
        program_rest_at(inp, read_at(inp, s), Seq::empty())
    }
}

/// Tokens that end at once, with no error, make an empty program.
pub proof fn lemma_empty_program(inp: TokenInput)
    requires
        inp.tokens.len() == 0,
        inp.lex_error is None,
    ensures
        program_at(inp, Spot { next: 0, current: None }) == ProgramParse::Done(Seq::<DeclModel>::empty()),
{
    reveal(program_at);
}

/// The tokens a declaration starts with, where recovery after an error stops.
pub open spec fn starts_recovery(k: TokenKind) -> bool {
    k == TokenKind::Fn || k == TokenKind::Var || k == TokenKind::Const || k == TokenKind::Type
        || k == TokenKind::Struct || k == TokenKind::Interface || k == TokenKind::Import
}

/// Recovery from `s`, whose current token is already passed: skip tokens up to the end, to just
/// after a `;`, or to a token that starts a declaration; or fail where reading fails.
pub open spec fn recover_at(inp: TokenInput, s: Spot) -> std::result::Result<Spot, Failure>
    decreases measure_at(inp, s),
{
    match kind_of(s.current) {
        None => Ok(s),
        Some(k) => if starts_recovery(k) {
            Ok(s)
        } else if read_fails_at(inp, s) {
            Err(lexical_failure(inp))
        } else if k == TokenKind::Semicolon {
            Ok(read_at(inp, s))
        } else if smaller(inp, read_at(inp, s), s) {
            recover_at(inp, read_at(inp, s))
        } else {
            Err(stalled())
        },
    }
}

/// Synchronizing from `s`: read past the current token, then recover.
pub open spec fn synchronize_at(inp: TokenInput, s: Spot) -> std::result::Result<Spot, Failure> {
    if read_fails_at(inp, s) {
        Err(lexical_failure(inp))
    } else {
        recover_at(inp, read_at(inp, s))
    }
}

impl Parser {
    /// The tokens of the source.
    pub closed spec fn tokens(&self) -> Seq<TokenWithLocation> {
        self.tokens@
    }

    /// The lexical error met after the tokens, if any.
    pub closed spec fn lex_error(&self) -> Option<CompilerError> {
        self.lex_error
    }

    /// Index of the next token to read.
    pub closed spec fn cursor(&self) -> int {
        self.next as int
    }

    /// The current token.
    pub closed spec fn cur(&self) -> Option<TokenWithLocation> {
        self.current
    }

    /// The source file information.
    pub closed spec fn source(&self) -> SourceInfo {
        self.source_info
    }

    /// The parser's input.
    pub open spec fn input(&self) -> TokenInput {
        TokenInput { tokens: self.tokens(), lex_error: self.lex_error() }
    }

    /// Where the parser stands.
    pub open spec fn spot(&self) -> Spot {
        Spot { next: self.cursor(), current: self.cur() }
    }

    /// The parser's invariant.
    pub open spec fn wf(&self) -> bool {
        0 <= self.cursor() <= self.tokens().len()
    }

    /// How much input is left: the tokens not yet read, and the current one.
    pub open spec fn measure(&self) -> nat {
        ((self.tokens().len() - self.cursor()) + if self.cur() is Some { 1int } else { 0int }) as nat
    }

    /// The kind of the current token.
    pub open spec fn cur_kind(&self) -> Option<TokenKind> {
        kind_of(self.cur())
    }

    /// Create a new parser for the given source code
    pub fn new(source: String, file_path: Option<String>) -> (res: Self)
        requires
            source@.len() + 2 <= usize::MAX,
        ensures
            res.wf(),
            lexes(source@, 0, 1, 1, res.tokens(), res.lex_error()),
            res.cursor() == 0,
            res.cur() is None,
            res.source().file_path == file_path,
            res.source().source_code@ == source@,
    {
        let source_info = SourceInfo { file_path, source_code: source.clone() };
        let mut lexer = Lexer::new(source);
        let (tokens, lex_error) = lexer.lex_all();
        proof {
            assert(tokens@.skip(0) =~= tokens@);
        }
        Parser { tokens, lex_error, next: 0, current: None, source_info }
    }

    /// Parse the entire program
    pub fn parse_program(&mut self) -> (res: Result<Program>)
        requires
            old(self).wf(),
        ensures
            advanced(*old(self), *final(self)),
            res is Ok ==> final(self).cur() is None,
            res matches Ok(p) ==> p.source_info == old(self).source(),
            match program_at(old(self).input(), old(self).spot()) {
                ProgramParse::Failed(f) => res is Err && fails_with(res->Err_0, f),
                ProgramParse::Open => true,
                ProgramParse::Done(ms) => res matches Ok(p) && decl_models(p.declarations@) == ms,
            },
    {
        reveal(program_at);
        let ghost inp = self.input();
        let mut declarations: Vec<Declaration> = Vec::new();
        self.advance()?;
        let ghost goal = program_at(old(self).input(), old(self).spot());
        proof {
            assert(decl_models(declarations@) =~= Seq::<DeclModel>::empty());
        }
        while !self.is_at_end()
            invariant
                advanced(*old(self), *self),
                self.input() == inp,
                inp == old(self).input(),
                goal == program_at(old(self).input(), old(self).spot()),
                goal is Open || program_rest_at(inp, self.spot(), decl_models(declarations@)) == goal,
            decreases self.measure(),
        {
            let ghost sb = self.spot();
            let ghost before = declarations@;
            match self.parse_declaration()? {
                Some(decl) => {
                    declarations.push(decl);
                    proof {
                        assert(decl_models(declarations@) =~= decl_models(before).push(decl_model(decl)));
                    }
                },
                None => {
                    self.advance()?;
                    proof {
                        assert(smaller(inp, self.spot(), sb));
                    }
                },
            }
        }
        let info = SourceInfo {
            file_path: self.source_info.file_path.clone(),
            source_code: self.source_info.source_code.clone(),
        };
        proof {
            assert(info.source_code@ == self.source().source_code@);
        }
        Ok(Program::new(declarations, info))
    }

    /// Parse a declaration
    pub fn parse_declaration(&mut self) -> (res: Result<Option<Declaration>>)
        requires
            old(self).wf(),
        ensures
            advanced(*old(self), *final(self)),
            res matches Ok(Some(_)) ==> final(self).measure() < old(self).measure(),
            !opens_program_declaration(old(self).cur_kind()) ==> (res matches Ok(None) && *final(self) == *old(self)),
            opens_program_declaration(old(self).cur_kind()) ==> !(res matches Ok(None)),
            match decl_at(old(self).input(), old(self).spot()) {
                DeclParse::Skip => res matches Ok(None) && *final(self) == *old(self),
                DeclParse::Failed(f) => res is Err && fails_with(res->Err_0, f),
                DeclParse::Open => true,
                DeclParse::Done(m, sp) => final(self).spot() == sp && (res matches Ok(Some(d)) && decl_model(d) == m),
            },
    {
        match self.current_kind() {
            Some(TokenKind::Fn) => {
                let func = decl_parser::parse_function_declaration(self)?;
                Ok(Some(Declaration::Function(func)))
            },
            Some(TokenKind::Let) => {
                let var = decl_parser::parse_variable_declaration(self)?;
                Ok(Some(Declaration::Variable(var)))
            },
            Some(TokenKind::Const) => {
                let c = decl_parser::parse_constant_declaration(self)?;
                Ok(Some(Declaration::Constant(c)))
            },
            Some(TokenKind::Type) => {
                let t = decl_parser::parse_type_declaration(self)?;
                Ok(Some(Declaration::Type(t)))
            },
            Some(TokenKind::Struct) => {
                let s = decl_parser::parse_struct_declaration(self)?;
                Ok(Some(Declaration::Struct(s)))
            },
            Some(TokenKind::Interface) => {
                let i = decl_parser::parse_interface_declaration(self)?;
                Ok(Some(Declaration::Interface(i)))
            },
            Some(TokenKind::Import) => {
                let i = decl_parser::parse_import_declaration(self)?;
                Ok(Some(Declaration::Import(i)))
            },
            _ => Ok(None),
        }
    }

    /// Advance to the next token
    pub fn advance(&mut self) -> (res: Result<()>)
        requires
            old(self).wf(),
        ensures
            advanced(*old(self), *final(self)),
            res is Ok ==> stepped(*old(self), *final(self)),
            res is Err ==> next_read_fails(*old(self)) && *final(self) == *old(self)
                && old(self).lex_error() == Some(res->Err_0),
            !next_read_fails(*old(self)) ==> res is Ok,
            old(self).cur() is Some && res is Ok ==> final(self).measure() < old(self).measure(),
            res is Ok <==> !read_fails_at(old(self).input(), old(self).spot()),
            res is Ok ==> final(self).spot() == read_at(old(self).input(), old(self).spot()),
            res is Err ==> fails_with(res->Err_0, lexical_failure(old(self).input())),
    {
        if self.next < self.tokens.len() {
            let t = self.tokens[self.next].clone();
            self.current = Some(t);
            self.next = self.next + 1;
            Ok(())
        } else {
            match &self.lex_error {
                Some(e) => Err(e.clone()),
                None => {
                    self.current = None;
                    Ok(())
                },
            }
        }
    }

    /// Peek at the current token
    pub fn peek(&self) -> (res: Option<&TokenWithLocation>)
        ensures
            match res {
                Some(t) => self.cur() == Some(*t),
                None => self.cur() is None,
            },
    {
        match &self.current {
            Some(t) => Some(t),
            None => None,
        }
    }

    /// The kind of the current token.
    pub fn current_kind(&self) -> (res: Option<TokenKind>)
        ensures
            res == self.cur_kind(),
    {
        match &self.current {
            Some(t) => Some(t.token.kind()),
            None => None,
        }
    }

    /// Peek at the token after the current one without consuming anything
    pub fn peek_next(&self) -> (res: Result<Option<&TokenWithLocation>>)
        requires
            self.wf(),
        ensures
            self.cursor() < self.tokens().len() ==> (res matches Ok(Some(t)) && *t == self.tokens()[self.cursor()]),
            self.cursor() == self.tokens().len() ==> match self.lex_error() {
                Some(e) => res == Err::<Option<&TokenWithLocation>, CompilerError>(e),
                None => res matches Ok(None),
            },
    {
        if self.next < self.tokens.len() {
            Ok(Some(&self.tokens[self.next]))
        } else {
            match &self.lex_error {
                Some(e) => Err(e.clone()),
                None => Ok(None),
            }
        }
    }

    /// Check if we're at the end of input
    pub fn is_at_end(&self) -> (res: bool)
        ensures
            res == (self.cur() is None),
    {
        self.current.is_none()
    }

    /// Check if the current token is of the same variant as the given token
    pub fn check(&self, token: &Token) -> (res: bool)
        ensures
            res == (self.cur_kind() == Some(token.spec_kind())),
    {
        match &self.current {
            Some(t) => t.token.kind() == token.kind(),
            None => false,
        }
    }

    /// Check if the current token is of the same variant as any of the given tokens
    pub fn check_any(&self, tokens: &[Token]) -> (res: bool)
        ensures
            res == exists|i: int| 0 <= i < tokens@.len() && self.cur_kind() == Some(#[trigger] tokens@[i].spec_kind()),
    {
        let mut i: usize = 0;
        while i < tokens.len()
            invariant
                i <= tokens@.len(),
                forall|j: int| 0 <= j < i ==> self.cur_kind() != Some(#[trigger] tokens@[j].spec_kind()),
            decreases tokens@.len() - i,
        {
            if self.check(&tokens[i]) {
                return true;
            }
            i = i + 1;
        }
        false
    }

    /// Consume the current token if it is of the same variant as the given token
    pub fn consume(&mut self, token: &Token) -> (res: Result<bool>)
        requires
            old(self).wf(),
        ensures
            advanced(*old(self), *final(self)),
            old(self).cur_kind() != Some(token.spec_kind())
                ==> res == Ok::<bool, CompilerError>(false) && *final(self) == *old(self),
            old(self).cur_kind() == Some(token.spec_kind()) ==> {
                &&& res is Ok ==> res == Ok::<bool, CompilerError>(true) && stepped(*old(self), *final(self))
                    && final(self).measure() < old(self).measure()
                &&& res is Err ==> next_read_fails(*old(self)) && *final(self) == *old(self)
                    && old(self).lex_error() == Some(res->Err_0)
                &&& !next_read_fails(*old(self)) ==> res is Ok
            },
            match consume_at(old(self).input(), old(self).spot(), token.spec_kind()) {
                Ok((b, sp)) => res == Ok::<bool, CompilerError>(b) && final(self).spot() == sp,
                Err(f) => res is Err && fails_with(res->Err_0, f),
            },
    {
        if self.check(token) {
            match self.advance() {
                Ok(()) => Ok(true),
                Err(e) => Err(e),
            }
        } else {
            Ok(false)
        }
    }

    /// Consume the current token if it is of the same variant as any of the given tokens, and
    /// hand back the first of them that matched
    pub fn consume_any(&mut self, tokens: &[Token]) -> (res: Result<Option<Token>>)
        requires
            old(self).wf(),
        ensures
            advanced(*old(self), *final(self)),
            res matches Ok(None) ==> *final(self) == *old(self),
            (forall|i: int| 0 <= i < tokens@.len() ==> old(self).cur_kind() != Some(#[trigger] tokens@[i].spec_kind()))
                ==> res matches Ok(None),
            res matches Ok(Some(t)) ==> old(self).cur_kind() == Some(t.spec_kind())
                && final(self).measure() < old(self).measure()
                && exists|i: int| 0 <= i < tokens@.len() && tokens@[i] == t,
    {
        let mut i: usize = 0;
        while i < tokens.len()
            invariant
                i <= tokens@.len(),
                *self == *old(self),
                self.wf(),
                forall|j: int| 0 <= j < i ==> self.cur_kind() != Some(#[trigger] tokens@[j].spec_kind()),
            decreases tokens@.len() - i,
        {
            if self.check(&tokens[i]) {
                let consumed = tokens[i].clone();
                self.advance()?;
                return Ok(Some(consumed));
            }
            i = i + 1;
        }
        Ok(None)
    }

    /// Expect the current token to be of the same variant as the given token
    pub fn expect(&mut self, token: &Token) -> (res: Result<()>)
        requires
            old(self).wf(),
        ensures
            advanced(*old(self), *final(self)),
            old(self).cur_kind() == Some(token.spec_kind()) ==> {
                &&& res is Ok ==> stepped(*old(self), *final(self)) && final(self).measure() < old(self).measure()
                &&& res is Err ==> next_read_fails(*old(self)) && *final(self) == *old(self)
                    && old(self).lex_error() == Some(res->Err_0)
                &&& !next_read_fails(*old(self)) ==> res is Ok
            },
            old(self).cur_kind() != Some(token.spec_kind()) ==> {
                &&& res is Err
                &&& *final(self) == *old(self)
                &&& syntax_error_at(res->Err_0, location_of(old(self).cur()), expected_message(*token, old(self).cur()))
            },
            match expect_at(old(self).input(), old(self).spot(), *token) {
                Ok(sp) => res is Ok && final(self).spot() == sp,
                Err(f) => res is Err && fails_with(res->Err_0, f),
            },
    {
        if self.check(token) {
            self.advance()
        } else {
            let location = self.current_location();
            let expected = token.debug_string();
            let found = self.current_debug();
            let head = concat("Expected ", expected.as_str());
            let head = concat(head.as_str(), ", found ");
            let message = concat(head.as_str(), found.as_str());
            proof {
                assert(message@ =~= "Expected "@ + token.spec_debug() + ", found "@ + debug_of(self.cur()));
                reveal(expected_message);
            }
            Err(CompilerError::syntax(location.line, location.column, message.as_str()))
        }
    }

    /// The `Debug` text of the current token.
    fn current_debug(&self) -> (res: String)
        ensures
            res@ == debug_of(self.cur()),
    {
        match &self.current {
            Some(t) => {
                let inner = t.token.debug_string();
                let head = concat("Some(", inner.as_str());
                concat(head.as_str(), ")")
            },
            None => String::from_str("None"),
        }
    }

    /// Expect the current token to be of the same variant as any of the given tokens
    pub fn expect_any(&mut self, tokens: &[Token]) -> (res: Result<Token>)
        requires
            old(self).wf(),
        ensures
            advanced(*old(self), *final(self)),
            res matches Ok(t) ==> old(self).cur_kind() == Some(t.spec_kind())
                && final(self).measure() < old(self).measure()
                && exists|i: int| 0 <= i < tokens@.len() && tokens@[i] == t,
            (forall|i: int| 0 <= i < tokens@.len() ==> old(self).cur_kind() != Some(#[trigger] tokens@[i].spec_kind()))
                ==> res is Err && *final(self) == *old(self)
                && (res->Err_0 matches CompilerError::Syntax { line, column, .. }
                && line == location_of(old(self).cur()).line && column == location_of(old(self).cur()).column),
    {
        match self.consume_any(tokens)? {
            Some(t) => Ok(t),
            None => {
                let location = self.current_location();
                let mut expected = String::new();
                let mut i: usize = 0;
                while i < tokens.len()
                    invariant
                        i <= tokens@.len(),
                    decreases tokens@.len() - i,
                {
                    if i > 0 {
                        expected.append(" or ");
                    }
                    let d = tokens[i].debug_string();
                    expected.append(d.as_str());
                    i = i + 1;
                }
                let found = self.current_debug();
                let head = concat("Expected ", expected.as_str());
                let head = concat(head.as_str(), ", found ");
                let message = concat(head.as_str(), found.as_str());
                Err(CompilerError::syntax(location.line, location.column, message.as_str()))
            },
        }
    }

    /// Get the current token's location
    pub fn current_location(&self) -> (res: Location)
        ensures
            res == location_of(self.cur()),
    {
        match &self.current {
            Some(t) => Location::new(t.line, t.column, t.offset),
            None => Location::new(0, 0, 0),
        }
    }

    /// Put back a token taken before as the current one, leaving the rest of the input as it
    /// stands.
    pub fn set_current(&mut self, token: Option<TokenWithLocation>)
        requires
            old(self).wf(),
        ensures
            final(self).wf(),
            final(self).tokens() == old(self).tokens(),
            final(self).lex_error() == old(self).lex_error(),
            final(self).source() == old(self).source(),
            final(self).cursor() == old(self).cursor(),
            final(self).cur() == token,
    {
        self.current = token;
    }

    /// Synchronize the parser after an error: skip to just after a `;`, or to the start of
    /// the next declaration.
    pub fn synchronize(&mut self) -> (res: Result<()>)
        requires
            old(self).wf(),
        ensures
            advanced(*old(self), *final(self)),
            match synchronize_at(old(self).input(), old(self).spot()) {
                Ok(sp) => res is Ok && final(self).spot() == sp,
                Err(f) => res is Err && fails_with(res->Err_0, f),
            },
    {
        let ghost inp = self.input();
        self.advance()?;
        let ghost goal = recover_at(inp, self.spot());
        while !self.is_at_end()
            invariant
                advanced(*old(self), *self),
                self.input() == inp,
                recover_at(inp, self.spot()) == goal,
                goal == synchronize_at(old(self).input(), old(self).spot()),
            decreases self.measure(),
        {
            let ghost s = self.spot();
            match self.current_kind() {
                Some(TokenKind::Semicolon) => {
                    self.advance()?;
                    return Ok(());
                },
                Some(TokenKind::Fn) | Some(TokenKind::Var) | Some(TokenKind::Const) | Some(TokenKind::Type)
                | Some(TokenKind::Struct) | Some(TokenKind::Interface) | Some(TokenKind::Import) => {
                    return Ok(());
                },
                _ => {
                    self.advance()?;
                    proof {
                        assert(smaller(inp, self.spot(), s));
                    }
                },
            }
        }
        Ok(())
    }
}

} // verus!
