//! Token definitions for Nature language
use vstd::prelude::*;
use vstd::string::*;
use crate::error::{decimal, usize_to_string};
use crate::text::text_eq;

verus! {

/// All possible tokens in Nature language
#[derive(Debug, PartialEq)]
pub enum Token {
    /// Boolean literal true
    True,
    /// Boolean literal false
    False,
    /// Integer literal
    Integer(i64),
    /// Floating point literal, kept as written
    Float(String),
    /// String literal (the text between the quotes)
    String(String),
    /// Character literal
    Char(char),
    /// Identifier token
    Identifier(String),
    /// Function keyword (`func`, also written `fn`)
    Fn,
    /// Let keyword
    Let,
    /// Variable keyword
    Var,
    /// Constant keyword
    Const,
    /// Type keyword
    Type,
    /// Struct keyword
    Struct,
    /// Interface keyword
    Interface,
    /// Import keyword
    Import,
    /// Implementation keyword
    Impl,
    /// If keyword
    If,
    /// Else keyword
    Else,
    /// For keyword
    For,
    /// While keyword
    While,
    /// Match keyword
    Match,
    /// Go keyword
    Go,
    /// Select keyword
    Select,
    /// Try keyword
    Try,
    /// Catch keyword
    Catch,
    /// Throw keyword
    Throw,
    /// Return keyword
    Return,
    /// Break keyword
    Break,
    /// Continue keyword
    Continue,
    /// Defer keyword
    Defer,
    /// New keyword for creating reference-counted objects
    New,
    /// As keyword
    As,
    /// Export keyword
    Export,
    /// Is keyword
    Is,
    /// Null keyword
    Null,
    /// Any keyword
    Any,
    /// Any pointer keyword
    AnyPtr,
    /// Raw pointer keyword
    RawPtr,
    /// Integer type keyword
    Int,
    /// 8-bit signed integer type keyword
    I8,
    /// 16-bit signed integer type keyword
    I16,
    /// 32-bit signed integer type keyword
    I32,
    /// 64-bit signed integer type keyword
    I64,
    /// 8-bit unsigned integer type keyword
    U8,
    /// 16-bit unsigned integer type keyword
    U16,
    /// 32-bit unsigned integer type keyword
    U32,
    /// 64-bit unsigned integer type keyword
    U64,
    /// 32-bit float type keyword
    F32,
    /// 64-bit float type keyword
    F64,
    /// Boolean type keyword
    Bool,
    /// String type keyword
    StringType,
    /// Vector type keyword
    Vec,
    /// Map type keyword
    MapKw,
    /// Set type keyword
    SetKw,
    /// Tuple type keyword
    Tup,
    /// Plus operator
    Plus,
    /// Minus operator
    Minus,
    /// Multiplication operator
    Star,
    /// Asterisk (alias for Star; never produced by the lexer)
    Asterisk,
    /// From keyword
    From,
    /// Division operator
    Slash,
    /// Modulo operator
    Percent,
    /// Bitwise AND operator
    Ampersand,
    /// Bitwise OR operator
    Pipe,
    /// Bitwise XOR operator
    Caret,
    /// Bitwise NOT operator
    Tilde,
    /// Left shift operator
    LeftShift,
    /// Right shift operator
    RightShift,
    /// Logical AND operator
    LogicalAnd,
    /// Logical OR operator
    LogicalOr,
    /// Logical NOT operator
    Not,
    /// Equality operator
    Equal,
    /// Inequality operator
    NotEqual,
    /// Less than operator
    Less,
    /// Less than or equal operator
    LessEqual,
    /// Greater than operator
    Greater,
    /// Greater than or equal operator
    GreaterEqual,
    /// Assignment operator
    Assign,
    /// Add and assign operator
    PlusAssign,
    /// Subtract and assign operator
    MinusAssign,
    /// Multiply and assign operator
    StarAssign,
    /// Divide and assign operator
    SlashAssign,
    /// Modulo and assign operator
    PercentAssign,
    /// Bitwise AND and assign operator
    AmpersandAssign,
    /// Bitwise OR and assign operator
    PipeAssign,
    /// Bitwise XOR and assign operator
    CaretAssign,
    /// Left shift and assign operator
    LeftShiftAssign,
    /// Right shift and assign operator
    RightShiftAssign,
    /// Left parenthesis
    LeftParen,
    /// Right parenthesis
    RightParen,
    /// Left bracket
    LeftBracket,
    /// Right bracket
    RightBracket,
    /// Left brace
    LeftBrace,
    /// Right brace
    RightBrace,
    /// Comma
    Comma,
    /// Semicolon
    Semicolon,
    /// Colon
    Colon,
    /// Double colon (namespace separator)
    ColonColon,
    /// Dot
    Dot,
    /// Arrow
    Arrow,
    /// Question mark
    Question,
    /// Backtick (for Go-style field tags)
    Backtick,
    /// Underscore
    Underscore,
    /// Default keyword
    Default,
    /// In keyword
    In,
    /// At symbol
    At,
    /// Channel keyword
    Chan,
    /// Mutable keyword
    Mut,
    /// Error token for invalid input
    Error,
}

/// The variant of a token, without its payload.
#[derive(Debug, Clone, Copy, PartialEq, Eq, Structural)]
pub enum TokenKind {
    /// Boolean literal true
    True,
    /// Boolean literal false
    False,
    /// Integer literal
    Integer,
    /// Floating point literal, kept as written
    Float,
    /// String literal (the text between the quotes)
    String,
    /// Character literal
    Char,
    /// Identifier token
    Identifier,
    /// Function keyword (`func`, also written `fn`)
    Fn,
    /// Let keyword
    Let,
    /// Variable keyword
    Var,
    /// Constant keyword
    Const,
    /// Type keyword
    Type,
    /// Struct keyword
    Struct,
    /// Interface keyword
    Interface,
    /// Import keyword
    Import,
    /// Implementation keyword
    Impl,
    /// If keyword
    If,
    /// Else keyword
    Else,
    /// For keyword
    For,
    /// While keyword
    While,
    /// Match keyword
    Match,
    /// Go keyword
    Go,
    /// Select keyword
    Select,
    /// Try keyword
    Try,
    /// Catch keyword
    Catch,
    /// Throw keyword
    Throw,
    /// Return keyword
    Return,
    /// Break keyword
    Break,
    /// Continue keyword
    Continue,
    /// Defer keyword
    Defer,
    /// New keyword for creating reference-counted objects
    New,
    /// As keyword
    As,
    /// Export keyword
    Export,
    /// Is keyword
    Is,
    /// Null keyword
    Null,
    /// Any keyword
    Any,
    /// Any pointer keyword
    AnyPtr,
    /// Raw pointer keyword
    RawPtr,
    /// Integer type keyword
    Int,
    /// 8-bit signed integer type keyword
    I8,
    /// 16-bit signed integer type keyword
    I16,
    /// 32-bit signed integer type keyword
    I32,
    /// 64-bit signed integer type keyword
    I64,
    /// 8-bit unsigned integer type keyword
    U8,
    /// 16-bit unsigned integer type keyword
    U16,
    /// 32-bit unsigned integer type keyword
    U32,
    /// 64-bit unsigned integer type keyword
    U64,
    /// 32-bit float type keyword
    F32,
    /// 64-bit float type keyword
    F64,
    /// Boolean type keyword
    Bool,
    /// String type keyword
    StringType,
    /// Vector type keyword
    Vec,
    /// Map type keyword
    MapKw,
    /// Set type keyword
    SetKw,
    /// Tuple type keyword
    Tup,
    /// Plus operator
    Plus,
    /// Minus operator
    Minus,
    /// Multiplication operator
    Star,
    /// Asterisk (alias for Star; never produced by the lexer)
    Asterisk,
    /// From keyword
    From,
    /// Division operator
    Slash,
    /// Modulo operator
    Percent,
    /// Bitwise AND operator
    Ampersand,
    /// Bitwise OR operator
    Pipe,
    /// Bitwise XOR operator
    Caret,
    /// Bitwise NOT operator
    Tilde,
    /// Left shift operator
    LeftShift,
    /// Right shift operator
    RightShift,
    /// Logical AND operator
    LogicalAnd,
    /// Logical OR operator
    LogicalOr,
    /// Logical NOT operator
    Not,
    /// Equality operator
    Equal,
    /// Inequality operator
    NotEqual,
    /// Less than operator
    Less,
    /// Less than or equal operator
    LessEqual,
    /// Greater than operator
    Greater,
    /// Greater than or equal operator
    GreaterEqual,
    /// Assignment operator
    Assign,
    /// Add and assign operator
    PlusAssign,
    /// Subtract and assign operator
    MinusAssign,
    /// Multiply and assign operator
    StarAssign,
    /// Divide and assign operator
    SlashAssign,
    /// Modulo and assign operator
    PercentAssign,
    /// Bitwise AND and assign operator
    AmpersandAssign,
    /// Bitwise OR and assign operator
    PipeAssign,
    /// Bitwise XOR and assign operator
    CaretAssign,
    /// Left shift and assign operator
    LeftShiftAssign,
    /// Right shift and assign operator
    RightShiftAssign,
    /// Left parenthesis
    LeftParen,
    /// Right parenthesis
    RightParen,
    /// Left bracket
    LeftBracket,
    /// Right bracket
    RightBracket,
    /// Left brace
    LeftBrace,
    /// Right brace
    RightBrace,
    /// Comma
    Comma,
    /// Semicolon
    Semicolon,
    /// Colon
    Colon,
    /// Double colon (namespace separator)
    ColonColon,
    /// Dot
    Dot,
    /// Arrow
    Arrow,
    /// Question mark
    Question,
    /// Backtick (for Go-style field tags)
    Backtick,
    /// Underscore
    Underscore,
    /// Default keyword
    Default,
    /// In keyword
    In,
    /// At symbol
    At,
    /// Channel keyword
    Chan,
    /// Mutable keyword
    Mut,
    /// Error token for invalid input
    Error,
}

impl Token {
    /// The variant of this token.
    pub open spec fn spec_kind(&self) -> TokenKind {
        match self {
            Token::True => TokenKind::True,
            Token::False => TokenKind::False,
            Token::Integer(_) => TokenKind::Integer,
            Token::Float(_) => TokenKind::Float,
            Token::String(_) => TokenKind::String,
            Token::Char(_) => TokenKind::Char,
            Token::Identifier(_) => TokenKind::Identifier,
            Token::Fn => TokenKind::Fn,
            Token::Let => TokenKind::Let,
            Token::Var => TokenKind::Var,
            Token::Const => TokenKind::Const,
            Token::Type => TokenKind::Type,
            Token::Struct => TokenKind::Struct,
            Token::Interface => TokenKind::Interface,
            Token::Import => TokenKind::Import,
            Token::Impl => TokenKind::Impl,
            Token::If => TokenKind::If,
            Token::Else => TokenKind::Else,
            Token::For => TokenKind::For,
            Token::While => TokenKind::While,
            Token::Match => TokenKind::Match,
            Token::Go => TokenKind::Go,
            Token::Select => TokenKind::Select,
            Token::Try => TokenKind::Try,
            Token::Catch => TokenKind::Catch,
            Token::Throw => TokenKind::Throw,
            Token::Return => TokenKind::Return,
            Token::Break => TokenKind::Break,
            Token::Continue => TokenKind::Continue,
            Token::Defer => TokenKind::Defer,
            Token::New => TokenKind::New,
            Token::As => TokenKind::As,
            Token::Export => TokenKind::Export,
            Token::Is => TokenKind::Is,
            Token::Null => TokenKind::Null,
            Token::Any => TokenKind::Any,
            Token::AnyPtr => TokenKind::AnyPtr,
            Token::RawPtr => TokenKind::RawPtr,
            Token::Int => TokenKind::Int,
            Token::I8 => TokenKind::I8,
            Token::I16 => TokenKind::I16,
            Token::I32 => TokenKind::I32,
            Token::I64 => TokenKind::I64,
            Token::U8 => TokenKind::U8,
            Token::U16 => TokenKind::U16,
            Token::U32 => TokenKind::U32,
            Token::U64 => TokenKind::U64,
            Token::F32 => TokenKind::F32,
            Token::F64 => TokenKind::F64,
            Token::Bool => TokenKind::Bool,
            Token::StringType => TokenKind::StringType,
            Token::Vec => TokenKind::Vec,
            Token::MapKw => TokenKind::MapKw,
            Token::SetKw => TokenKind::SetKw,
            Token::Tup => TokenKind::Tup,
            Token::Plus => TokenKind::Plus,
            Token::Minus => TokenKind::Minus,
            Token::Star => TokenKind::Star,
            Token::Asterisk => TokenKind::Asterisk,
            Token::From => TokenKind::From,
            Token::Slash => TokenKind::Slash,
            Token::Percent => TokenKind::Percent,
            Token::Ampersand => TokenKind::Ampersand,
            Token::Pipe => TokenKind::Pipe,
            Token::Caret => TokenKind::Caret,
            Token::Tilde => TokenKind::Tilde,
            Token::LeftShift => TokenKind::LeftShift,
            Token::RightShift => TokenKind::RightShift,
            Token::LogicalAnd => TokenKind::LogicalAnd,
            Token::LogicalOr => TokenKind::LogicalOr,
            Token::Not => TokenKind::Not,
            Token::Equal => TokenKind::Equal,
            Token::NotEqual => TokenKind::NotEqual,
            Token::Less => TokenKind::Less,
            Token::LessEqual => TokenKind::LessEqual,
            Token::Greater => TokenKind::Greater,
            Token::GreaterEqual => TokenKind::GreaterEqual,
            Token::Assign => TokenKind::Assign,
            Token::PlusAssign => TokenKind::PlusAssign,
            Token::MinusAssign => TokenKind::MinusAssign,
            Token::StarAssign => TokenKind::StarAssign,
            Token::SlashAssign => TokenKind::SlashAssign,
            Token::PercentAssign => TokenKind::PercentAssign,
            Token::AmpersandAssign => TokenKind::AmpersandAssign,
            Token::PipeAssign => TokenKind::PipeAssign,
            Token::CaretAssign => TokenKind::CaretAssign,
            Token::LeftShiftAssign => TokenKind::LeftShiftAssign,
            Token::RightShiftAssign => TokenKind::RightShiftAssign,
            Token::LeftParen => TokenKind::LeftParen,
            Token::RightParen => TokenKind::RightParen,
            Token::LeftBracket => TokenKind::LeftBracket,
            Token::RightBracket => TokenKind::RightBracket,
            Token::LeftBrace => TokenKind::LeftBrace,
            Token::RightBrace => TokenKind::RightBrace,
            Token::Comma => TokenKind::Comma,
            Token::Semicolon => TokenKind::Semicolon,
            Token::Colon => TokenKind::Colon,
            Token::ColonColon => TokenKind::ColonColon,
            Token::Dot => TokenKind::Dot,
            Token::Arrow => TokenKind::Arrow,
            Token::Question => TokenKind::Question,
            Token::Backtick => TokenKind::Backtick,
            Token::Underscore => TokenKind::Underscore,
            Token::Default => TokenKind::Default,
            Token::In => TokenKind::In,
            Token::At => TokenKind::At,
            Token::Chan => TokenKind::Chan,
            Token::Mut => TokenKind::Mut,
            Token::Error => TokenKind::Error,
        }
    }

    /// The variant of this token.
    pub fn kind(&self) -> (res: TokenKind)
        ensures
            res == self.spec_kind(),
    {
        match self {
            Token::True => TokenKind::True,
            Token::False => TokenKind::False,
            Token::Integer(_) => TokenKind::Integer,
            Token::Float(_) => TokenKind::Float,
            Token::String(_) => TokenKind::String,
            Token::Char(_) => TokenKind::Char,
            Token::Identifier(_) => TokenKind::Identifier,
            Token::Fn => TokenKind::Fn,
            Token::Let => TokenKind::Let,
            Token::Var => TokenKind::Var,
            Token::Const => TokenKind::Const,
            Token::Type => TokenKind::Type,
            Token::Struct => TokenKind::Struct,
            Token::Interface => TokenKind::Interface,
            Token::Import => TokenKind::Import,
            Token::Impl => TokenKind::Impl,
            Token::If => TokenKind::If,
            Token::Else => TokenKind::Else,
            Token::For => TokenKind::For,
            Token::While => TokenKind::While,
            Token::Match => TokenKind::Match,
            Token::Go => TokenKind::Go,
            Token::Select => TokenKind::Select,
            Token::Try => TokenKind::Try,
            Token::Catch => TokenKind::Catch,
            Token::Throw => TokenKind::Throw,
            Token::Return => TokenKind::Return,
            Token::Break => TokenKind::Break,
            Token::Continue => TokenKind::Continue,
            Token::Defer => TokenKind::Defer,
            Token::New => TokenKind::New,
            Token::As => TokenKind::As,
            Token::Export => TokenKind::Export,
            Token::Is => TokenKind::Is,
            Token::Null => TokenKind::Null,
            Token::Any => TokenKind::Any,
            Token::AnyPtr => TokenKind::AnyPtr,
            Token::RawPtr => TokenKind::RawPtr,
            Token::Int => TokenKind::Int,
            Token::I8 => TokenKind::I8,
            Token::I16 => TokenKind::I16,
            Token::I32 => TokenKind::I32,
            Token::I64 => TokenKind::I64,
            Token::U8 => TokenKind::U8,
            Token::U16 => TokenKind::U16,
            Token::U32 => TokenKind::U32,
            Token::U64 => TokenKind::U64,
            Token::F32 => TokenKind::F32,
            Token::F64 => TokenKind::F64,
            Token::Bool => TokenKind::Bool,
            Token::StringType => TokenKind::StringType,
            Token::Vec => TokenKind::Vec,
            Token::MapKw => TokenKind::MapKw,
            Token::SetKw => TokenKind::SetKw,
            Token::Tup => TokenKind::Tup,
            Token::Plus => TokenKind::Plus,
            Token::Minus => TokenKind::Minus,
            Token::Star => TokenKind::Star,
            Token::Asterisk => TokenKind::Asterisk,
            Token::From => TokenKind::From,
            Token::Slash => TokenKind::Slash,
            Token::Percent => TokenKind::Percent,
            Token::Ampersand => TokenKind::Ampersand,
            Token::Pipe => TokenKind::Pipe,
            Token::Caret => TokenKind::Caret,
            Token::Tilde => TokenKind::Tilde,
            Token::LeftShift => TokenKind::LeftShift,
            Token::RightShift => TokenKind::RightShift,
            Token::LogicalAnd => TokenKind::LogicalAnd,
            Token::LogicalOr => TokenKind::LogicalOr,
            Token::Not => TokenKind::Not,
            Token::Equal => TokenKind::Equal,
            Token::NotEqual => TokenKind::NotEqual,
            Token::Less => TokenKind::Less,
            Token::LessEqual => TokenKind::LessEqual,
            Token::Greater => TokenKind::Greater,
            Token::GreaterEqual => TokenKind::GreaterEqual,
            Token::Assign => TokenKind::Assign,
            Token::PlusAssign => TokenKind::PlusAssign,
            Token::MinusAssign => TokenKind::MinusAssign,
            Token::StarAssign => TokenKind::StarAssign,
            Token::SlashAssign => TokenKind::SlashAssign,
            Token::PercentAssign => TokenKind::PercentAssign,
            Token::AmpersandAssign => TokenKind::AmpersandAssign,
            Token::PipeAssign => TokenKind::PipeAssign,
            Token::CaretAssign => TokenKind::CaretAssign,
            Token::LeftShiftAssign => TokenKind::LeftShiftAssign,
            Token::RightShiftAssign => TokenKind::RightShiftAssign,
            Token::LeftParen => TokenKind::LeftParen,
            Token::RightParen => TokenKind::RightParen,
            Token::LeftBracket => TokenKind::LeftBracket,
            Token::RightBracket => TokenKind::RightBracket,
            Token::LeftBrace => TokenKind::LeftBrace,
            Token::RightBrace => TokenKind::RightBrace,
            Token::Comma => TokenKind::Comma,
            Token::Semicolon => TokenKind::Semicolon,
            Token::Colon => TokenKind::Colon,
            Token::ColonColon => TokenKind::ColonColon,
            Token::Dot => TokenKind::Dot,
            Token::Arrow => TokenKind::Arrow,
            Token::Question => TokenKind::Question,
            Token::Backtick => TokenKind::Backtick,
            Token::Underscore => TokenKind::Underscore,
            Token::Default => TokenKind::Default,
            Token::In => TokenKind::In,
            Token::At => TokenKind::At,
            Token::Chan => TokenKind::Chan,
            Token::Mut => TokenKind::Mut,
            Token::Error => TokenKind::Error,
        }
    }

    /// Whether two tokens are of the same variant, whatever their payloads.
    pub fn same_kind(&self, other: &Token) -> (res: bool)
        ensures
            res == (self.spec_kind() == other.spec_kind()),
    {
        self.kind() == other.kind()
    }

    /// The text `{token}` renders to: the source form of literals, identifiers and operators,
    /// and the variant's name for the other keywords.
    pub open spec fn spec_display(&self) -> Seq<char> {
        match self {
            Token::Integer(n) => signed_decimal(*n as int),
            Token::Float(t) => t@,
            Token::String(s) => "\""@ + s@ + "\""@,
            Token::Char(c) => "'"@ + seq![*c] + "'"@,
            Token::Identifier(s) => s@,
            Token::True => "true"@,
            Token::False => "false"@,
            Token::Fn => "Fn"@,
            Token::Let => "Let"@,
            Token::Var => "Var"@,
            Token::Const => "Const"@,
            Token::Type => "Type"@,
            Token::Struct => "Struct"@,
            Token::Interface => "Interface"@,
            Token::Import => "Import"@,
            Token::Impl => "Impl"@,
            Token::If => "If"@,
            Token::Else => "Else"@,
            Token::For => "For"@,
            Token::While => "While"@,
            Token::Match => "Match"@,
            Token::Go => "Go"@,
            Token::Select => "Select"@,
            Token::Try => "Try"@,
            Token::Catch => "Catch"@,
            Token::Throw => "Throw"@,
            Token::Return => "Return"@,
            Token::Break => "Break"@,
            Token::Continue => "Continue"@,
            Token::Defer => "Defer"@,
            Token::New => "New"@,
            Token::As => "As"@,
            Token::Export => "Export"@,
            Token::Is => "Is"@,
            Token::Null => "Null"@,
            Token::Any => "Any"@,
            Token::AnyPtr => "AnyPtr"@,
            Token::RawPtr => "RawPtr"@,
            Token::Int => "Int"@,
            Token::I8 => "I8"@,
            Token::I16 => "I16"@,
            Token::I32 => "I32"@,
            Token::I64 => "I64"@,
            Token::U8 => "U8"@,
            Token::U16 => "U16"@,
            Token::U32 => "U32"@,
            Token::U64 => "U64"@,
            Token::F32 => "F32"@,
            Token::F64 => "F64"@,
            Token::Bool => "Bool"@,
            Token::StringType => "StringType"@,
            Token::Vec => "Vec"@,
            Token::MapKw => "MapKw"@,
            Token::SetKw => "SetKw"@,
            Token::Tup => "Tup"@,
            Token::Plus => "+"@,
            Token::Minus => "-"@,
            Token::Star => "*"@,
            Token::Asterisk => "Asterisk"@,
            Token::From => "From"@,
            Token::Slash => "/"@,
            Token::Percent => "%"@,
            Token::Ampersand => "&"@,
            Token::Pipe => "|"@,
            Token::Caret => "^"@,
            Token::Tilde => "~"@,
            Token::LeftShift => "<<"@,
            Token::RightShift => ">>"@,
            Token::LogicalAnd => "&&"@,
            Token::LogicalOr => "||"@,
            Token::Not => "!"@,
            Token::Equal => "=="@,
            Token::NotEqual => "!="@,
            Token::Less => "<"@,
            Token::LessEqual => "<="@,
            Token::Greater => ">"@,
            Token::GreaterEqual => ">="@,
            Token::Assign => "="@,
            Token::PlusAssign => "PlusAssign"@,
            Token::MinusAssign => "MinusAssign"@,
            Token::StarAssign => "StarAssign"@,
            Token::SlashAssign => "SlashAssign"@,
            Token::PercentAssign => "PercentAssign"@,
            Token::AmpersandAssign => "AmpersandAssign"@,
            Token::PipeAssign => "PipeAssign"@,
            Token::CaretAssign => "CaretAssign"@,
            Token::LeftShiftAssign => "LeftShiftAssign"@,
            Token::RightShiftAssign => "RightShiftAssign"@,
            Token::LeftParen => "("@,
            Token::RightParen => ")"@,
            Token::LeftBracket => "["@,
            Token::RightBracket => "]"@,
            Token::LeftBrace => "{"@,
            Token::RightBrace => "}"@,
            Token::Comma => ","@,
            Token::Semicolon => ";"@,
            Token::Colon => ":"@,
            Token::ColonColon => "::"@,
            Token::Dot => "."@,
            Token::Arrow => "->"@,
            Token::Question => "?"@,
            Token::Backtick => "Backtick"@,
            Token::Underscore => "_"@,
            Token::Default => "Default"@,
            Token::In => "In"@,
            Token::At => "At"@,
            Token::Chan => "Chan"@,
            Token::Mut => "Mut"@,
            Token::Error => "<error>"@,
        }
    }

    /// The text of the token as `{token}` renders it.
    pub fn to_string(&self) -> (res: String)
        ensures
            res@ == self.spec_display(),
    {
        match self {
            Token::Integer(n) => i64_to_string(*n),
            Token::Float(t) => t.clone(),
            Token::String(s) => {
                let mut r = String::from_str("\"");
                r.append(s.as_str());
                r.append("\"");
                r
            },
            Token::Char(c) => {
                let mut r = String::from_str("'");
                let cs = char_to_string(*c);
                r.append(cs.as_str());
                r.append("'");
                r
            },
            Token::Identifier(s) => s.clone(),
            Token::True => String::from_str("true"),
            Token::False => String::from_str("false"),
            Token::Fn => String::from_str("Fn"),
            Token::Let => String::from_str("Let"),
            Token::Var => String::from_str("Var"),
            Token::Const => String::from_str("Const"),
            Token::Type => String::from_str("Type"),
            Token::Struct => String::from_str("Struct"),
            Token::Interface => String::from_str("Interface"),
            Token::Import => String::from_str("Import"),
            Token::Impl => String::from_str("Impl"),
            Token::If => String::from_str("If"),
            Token::Else => String::from_str("Else"),
            Token::For => String::from_str("For"),
            Token::While => String::from_str("While"),
            Token::Match => String::from_str("Match"),
            Token::Go => String::from_str("Go"),
            Token::Select => String::from_str("Select"),
            Token::Try => String::from_str("Try"),
            Token::Catch => String::from_str("Catch"),
            Token::Throw => String::from_str("Throw"),
            Token::Return => String::from_str("Return"),
            Token::Break => String::from_str("Break"),
            Token::Continue => String::from_str("Continue"),
            Token::Defer => String::from_str("Defer"),
            Token::New => String::from_str("New"),
            Token::As => String::from_str("As"),
            Token::Export => String::from_str("Export"),
            Token::Is => String::from_str("Is"),
            Token::Null => String::from_str("Null"),
            Token::Any => String::from_str("Any"),
            Token::AnyPtr => String::from_str("AnyPtr"),
            Token::RawPtr => String::from_str("RawPtr"),
            Token::Int => String::from_str("Int"),
            Token::I8 => String::from_str("I8"),
            Token::I16 => String::from_str("I16"),
            Token::I32 => String::from_str("I32"),
            Token::I64 => String::from_str("I64"),
            Token::U8 => String::from_str("U8"),
            Token::U16 => String::from_str("U16"),
            Token::U32 => String::from_str("U32"),
            Token::U64 => String::from_str("U64"),
            Token::F32 => String::from_str("F32"),
            Token::F64 => String::from_str("F64"),
            Token::Bool => String::from_str("Bool"),
            Token::StringType => String::from_str("StringType"),
            Token::Vec => String::from_str("Vec"),
            Token::MapKw => String::from_str("MapKw"),
            Token::SetKw => String::from_str("SetKw"),
            Token::Tup => String::from_str("Tup"),
            Token::Plus => String::from_str("+"),
            Token::Minus => String::from_str("-"),
            Token::Star => String::from_str("*"),
            Token::Asterisk => String::from_str("Asterisk"),
            Token::From => String::from_str("From"),
            Token::Slash => String::from_str("/"),
            Token::Percent => String::from_str("%"),
            Token::Ampersand => String::from_str("&"),
            Token::Pipe => String::from_str("|"),
            Token::Caret => String::from_str("^"),
            Token::Tilde => String::from_str("~"),
            Token::LeftShift => String::from_str("<<"),
            Token::RightShift => String::from_str(">>"),
            Token::LogicalAnd => String::from_str("&&"),
            Token::LogicalOr => String::from_str("||"),
            Token::Not => String::from_str("!"),
            Token::Equal => String::from_str("=="),
            Token::NotEqual => String::from_str("!="),
            Token::Less => String::from_str("<"),
            Token::LessEqual => String::from_str("<="),
            Token::Greater => String::from_str(">"),
            Token::GreaterEqual => String::from_str(">="),
            Token::Assign => String::from_str("="),
            Token::PlusAssign => String::from_str("PlusAssign"),
            Token::MinusAssign => String::from_str("MinusAssign"),
            Token::StarAssign => String::from_str("StarAssign"),
            Token::SlashAssign => String::from_str("SlashAssign"),
            Token::PercentAssign => String::from_str("PercentAssign"),
            Token::AmpersandAssign => String::from_str("AmpersandAssign"),
            Token::PipeAssign => String::from_str("PipeAssign"),
            Token::CaretAssign => String::from_str("CaretAssign"),
            Token::LeftShiftAssign => String::from_str("LeftShiftAssign"),
            Token::RightShiftAssign => String::from_str("RightShiftAssign"),
            Token::LeftParen => String::from_str("("),
            Token::RightParen => String::from_str(")"),
            Token::LeftBracket => String::from_str("["),
            Token::RightBracket => String::from_str("]"),
            Token::LeftBrace => String::from_str("{"),
            Token::RightBrace => String::from_str("}"),
            Token::Comma => String::from_str(","),
            Token::Semicolon => String::from_str(";"),
            Token::Colon => String::from_str(":"),
            Token::ColonColon => String::from_str("::"),
            Token::Dot => String::from_str("."),
            Token::Arrow => String::from_str("->"),
            Token::Question => String::from_str("?"),
            Token::Backtick => String::from_str("Backtick"),
            Token::Underscore => String::from_str("_"),
            Token::Default => String::from_str("Default"),
            Token::In => String::from_str("In"),
            Token::At => String::from_str("At"),
            Token::Chan => String::from_str("Chan"),
            Token::Mut => String::from_str("Mut"),
            Token::Error => String::from_str("<error>"),
        }
    }

    /// The text `{token:?}` renders to: the variant's name, with the payload in parentheses.
    pub open spec fn spec_debug(&self) -> Seq<char> {
        match self {
            Token::Integer(n) => "Integer("@ + signed_decimal(*n as int) + ")"@,
            Token::Float(t) => "Float("@ + t@ + ")"@,
            Token::String(s) => "String(\""@ + s@ + "\")"@,
            Token::Char(c) => "Char('"@ + seq![*c] + "')"@,
            Token::Identifier(s) => "Identifier(\""@ + s@ + "\")"@,
            Token::True => "True"@,
            Token::False => "False"@,
            Token::Fn => "Fn"@,
            Token::Let => "Let"@,
            Token::Var => "Var"@,
            Token::Const => "Const"@,
            Token::Type => "Type"@,
            Token::Struct => "Struct"@,
            Token::Interface => "Interface"@,
            Token::Import => "Import"@,
            Token::Impl => "Impl"@,
            Token::If => "If"@,
            Token::Else => "Else"@,
            Token::For => "For"@,
            Token::While => "While"@,
            Token::Match => "Match"@,
            Token::Go => "Go"@,
            Token::Select => "Select"@,
            Token::Try => "Try"@,
            Token::Catch => "Catch"@,
            Token::Throw => "Throw"@,
            Token::Return => "Return"@,
            Token::Break => "Break"@,
            Token::Continue => "Continue"@,
            Token::Defer => "Defer"@,
            Token::New => "New"@,
            Token::As => "As"@,
            Token::Export => "Export"@,
            Token::Is => "Is"@,
            Token::Null => "Null"@,
            Token::Any => "Any"@,
            Token::AnyPtr => "AnyPtr"@,
            Token::RawPtr => "RawPtr"@,
            Token::Int => "Int"@,
            Token::I8 => "I8"@,
            Token::I16 => "I16"@,
            Token::I32 => "I32"@,
            Token::I64 => "I64"@,
            Token::U8 => "U8"@,
            Token::U16 => "U16"@,
            Token::U32 => "U32"@,
            Token::U64 => "U64"@,
            Token::F32 => "F32"@,
            Token::F64 => "F64"@,
            Token::Bool => "Bool"@,
            Token::StringType => "StringType"@,
            Token::Vec => "Vec"@,
            Token::MapKw => "MapKw"@,
            Token::SetKw => "SetKw"@,
            Token::Tup => "Tup"@,
            Token::Plus => "Plus"@,
            Token::Minus => "Minus"@,
            Token::Star => "Star"@,
            Token::Asterisk => "Asterisk"@,
            Token::From => "From"@,
            Token::Slash => "Slash"@,
            Token::Percent => "Percent"@,
            Token::Ampersand => "Ampersand"@,
            Token::Pipe => "Pipe"@,
            Token::Caret => "Caret"@,
            Token::Tilde => "Tilde"@,
            Token::LeftShift => "LeftShift"@,
            Token::RightShift => "RightShift"@,
            Token::LogicalAnd => "LogicalAnd"@,
            Token::LogicalOr => "LogicalOr"@,
            Token::Not => "Not"@,
            Token::Equal => "Equal"@,
            Token::NotEqual => "NotEqual"@,
            Token::Less => "Less"@,
            Token::LessEqual => "LessEqual"@,
            Token::Greater => "Greater"@,
            Token::GreaterEqual => "GreaterEqual"@,
            Token::Assign => "Assign"@,
            Token::PlusAssign => "PlusAssign"@,
            Token::MinusAssign => "MinusAssign"@,
            Token::StarAssign => "StarAssign"@,
            Token::SlashAssign => "SlashAssign"@,
            Token::PercentAssign => "PercentAssign"@,
            Token::AmpersandAssign => "AmpersandAssign"@,
            Token::PipeAssign => "PipeAssign"@,
            Token::CaretAssign => "CaretAssign"@,
            Token::LeftShiftAssign => "LeftShiftAssign"@,
            Token::RightShiftAssign => "RightShiftAssign"@,
            Token::LeftParen => "LeftParen"@,
            Token::RightParen => "RightParen"@,
            Token::LeftBracket => "LeftBracket"@,
            Token::RightBracket => "RightBracket"@,
            Token::LeftBrace => "LeftBrace"@,
            Token::RightBrace => "RightBrace"@,
            Token::Comma => "Comma"@,
            Token::Semicolon => "Semicolon"@,
            Token::Colon => "Colon"@,
            Token::ColonColon => "ColonColon"@,
            Token::Dot => "Dot"@,
            Token::Arrow => "Arrow"@,
            Token::Question => "Question"@,
            Token::Backtick => "Backtick"@,
            Token::Underscore => "Underscore"@,
            Token::Default => "Default"@,
            Token::In => "In"@,
            Token::At => "At"@,
            Token::Chan => "Chan"@,
            Token::Mut => "Mut"@,
            Token::Error => "Error"@,
        }
    }

    /// The token in the form `{token:?}` renders it.
    pub fn debug_string(&self) -> (res: String)
        ensures
            res@ == self.spec_debug(),
    {
        match self {
            Token::Integer(n) => {
                let mut r = String::from_str("Integer(");
                let d = i64_to_string(*n);
                r.append(d.as_str());
                r.append(")");
                r
            },
            Token::Float(t) => {
                let mut r = String::from_str("Float(");
                r.append(t.as_str());
                r.append(")");
                r
            },
            Token::String(s) => {
                let mut r = String::from_str("String(\"");
                r.append(s.as_str());
                r.append("\")");
                r
            },
            Token::Char(c) => {
                let mut r = String::from_str("Char('");
                let cs = char_to_string(*c);
                r.append(cs.as_str());
                r.append("')");
                r
            },
            Token::Identifier(s) => {
                let mut r = String::from_str("Identifier(\"");
                r.append(s.as_str());
                r.append("\")");
                r
            },
            Token::True => String::from_str("True"),
            Token::False => String::from_str("False"),
            Token::Fn => String::from_str("Fn"),
            Token::Let => String::from_str("Let"),
            Token::Var => String::from_str("Var"),
            Token::Const => String::from_str("Const"),
            Token::Type => String::from_str("Type"),
            Token::Struct => String::from_str("Struct"),
            Token::Interface => String::from_str("Interface"),
            Token::Import => String::from_str("Import"),
            Token::Impl => String::from_str("Impl"),
            Token::If => String::from_str("If"),
            Token::Else => String::from_str("Else"),
            Token::For => String::from_str("For"),
            Token::While => String::from_str("While"),
            Token::Match => String::from_str("Match"),
            Token::Go => String::from_str("Go"),
            Token::Select => String::from_str("Select"),
            Token::Try => String::from_str("Try"),
            Token::Catch => String::from_str("Catch"),
            Token::Throw => String::from_str("Throw"),
            Token::Return => String::from_str("Return"),
            Token::Break => String::from_str("Break"),
            Token::Continue => String::from_str("Continue"),
            Token::Defer => String::from_str("Defer"),
            Token::New => String::from_str("New"),
            Token::As => String::from_str("As"),
            Token::Export => String::from_str("Export"),
            Token::Is => String::from_str("Is"),
            Token::Null => String::from_str("Null"),
            Token::Any => String::from_str("Any"),
            Token::AnyPtr => String::from_str("AnyPtr"),
            Token::RawPtr => String::from_str("RawPtr"),
            Token::Int => String::from_str("Int"),
            Token::I8 => String::from_str("I8"),
            Token::I16 => String::from_str("I16"),
            Token::I32 => String::from_str("I32"),
            Token::I64 => String::from_str("I64"),
            Token::U8 => String::from_str("U8"),
            Token::U16 => String::from_str("U16"),
            Token::U32 => String::from_str("U32"),
            Token::U64 => String::from_str("U64"),
            Token::F32 => String::from_str("F32"),
            Token::F64 => String::from_str("F64"),
            Token::Bool => String::from_str("Bool"),
            Token::StringType => String::from_str("StringType"),
            Token::Vec => String::from_str("Vec"),
            Token::MapKw => String::from_str("MapKw"),
            Token::SetKw => String::from_str("SetKw"),
            Token::Tup => String::from_str("Tup"),
            Token::Plus => String::from_str("Plus"),
            Token::Minus => String::from_str("Minus"),
            Token::Star => String::from_str("Star"),
            Token::Asterisk => String::from_str("Asterisk"),
            Token::From => String::from_str("From"),
            Token::Slash => String::from_str("Slash"),
            Token::Percent => String::from_str("Percent"),
            Token::Ampersand => String::from_str("Ampersand"),
            Token::Pipe => String::from_str("Pipe"),
            Token::Caret => String::from_str("Caret"),
            Token::Tilde => String::from_str("Tilde"),
            Token::LeftShift => String::from_str("LeftShift"),
            Token::RightShift => String::from_str("RightShift"),
            Token::LogicalAnd => String::from_str("LogicalAnd"),
            Token::LogicalOr => String::from_str("LogicalOr"),
            Token::Not => String::from_str("Not"),
            Token::Equal => String::from_str("Equal"),
            Token::NotEqual => String::from_str("NotEqual"),
            Token::Less => String::from_str("Less"),
            Token::LessEqual => String::from_str("LessEqual"),
            Token::Greater => String::from_str("Greater"),
            Token::GreaterEqual => String::from_str("GreaterEqual"),
            Token::Assign => String::from_str("Assign"),
            Token::PlusAssign => String::from_str("PlusAssign"),
            Token::MinusAssign => String::from_str("MinusAssign"),
            Token::StarAssign => String::from_str("StarAssign"),
            Token::SlashAssign => String::from_str("SlashAssign"),
            Token::PercentAssign => String::from_str("PercentAssign"),
            Token::AmpersandAssign => String::from_str("AmpersandAssign"),
            Token::PipeAssign => String::from_str("PipeAssign"),
            Token::CaretAssign => String::from_str("CaretAssign"),
            Token::LeftShiftAssign => String::from_str("LeftShiftAssign"),
            Token::RightShiftAssign => String::from_str("RightShiftAssign"),
            Token::LeftParen => String::from_str("LeftParen"),
            Token::RightParen => String::from_str("RightParen"),
            Token::LeftBracket => String::from_str("LeftBracket"),
            Token::RightBracket => String::from_str("RightBracket"),
            Token::LeftBrace => String::from_str("LeftBrace"),
            Token::RightBrace => String::from_str("RightBrace"),
            Token::Comma => String::from_str("Comma"),
            Token::Semicolon => String::from_str("Semicolon"),
            Token::Colon => String::from_str("Colon"),
            Token::ColonColon => String::from_str("ColonColon"),
            Token::Dot => String::from_str("Dot"),
            Token::Arrow => String::from_str("Arrow"),
            Token::Question => String::from_str("Question"),
            Token::Backtick => String::from_str("Backtick"),
            Token::Underscore => String::from_str("Underscore"),
            Token::Default => String::from_str("Default"),
            Token::In => String::from_str("In"),
            Token::At => String::from_str("At"),
            Token::Chan => String::from_str("Chan"),
            Token::Mut => String::from_str("Mut"),
            Token::Error => String::from_str("Error"),
        }
    }
}

/// The source text of an operator or delimiter token of kind `k`; none for the other kinds.
pub open spec fn operator_text(k: TokenKind) -> Option<Seq<char>> {
    match k {
        TokenKind::Plus => Some(seq!['+']),
        TokenKind::PlusAssign => Some(seq!['+', '=']),
        TokenKind::Minus => Some(seq!['-']),
        TokenKind::MinusAssign => Some(seq!['-', '=']),
        TokenKind::Arrow => Some(seq!['-', '>']),
        TokenKind::Star => Some(seq!['*']),
        TokenKind::StarAssign => Some(seq!['*', '=']),
        TokenKind::Slash => Some(seq!['/']),
        TokenKind::SlashAssign => Some(seq!['/', '=']),
        TokenKind::Percent => Some(seq!['%']),
        TokenKind::PercentAssign => Some(seq!['%', '=']),
        TokenKind::Ampersand => Some(seq!['&']),
        TokenKind::LogicalAnd => Some(seq!['&', '&']),
        TokenKind::AmpersandAssign => Some(seq!['&', '=']),
        TokenKind::Pipe => Some(seq!['|']),
        TokenKind::LogicalOr => Some(seq!['|', '|']),
        TokenKind::PipeAssign => Some(seq!['|', '=']),
        TokenKind::Caret => Some(seq!['^']),
        TokenKind::CaretAssign => Some(seq!['^', '=']),
        TokenKind::Tilde => Some(seq!['~']),
        TokenKind::Less => Some(seq!['<']),
        TokenKind::LessEqual => Some(seq!['<', '=']),
        TokenKind::LeftShift => Some(seq!['<', '<']),
        TokenKind::LeftShiftAssign => Some(seq!['<', '<', '=']),
        TokenKind::Greater => Some(seq!['>']),
        TokenKind::GreaterEqual => Some(seq!['>', '=']),
        TokenKind::RightShift => Some(seq!['>', '>']),
        TokenKind::RightShiftAssign => Some(seq!['>', '>', '=']),
        TokenKind::Not => Some(seq!['!']),
        TokenKind::NotEqual => Some(seq!['!', '=']),
        TokenKind::Assign => Some(seq!['=']),
        TokenKind::Equal => Some(seq!['=', '=']),
        TokenKind::Colon => Some(seq![':']),
        TokenKind::ColonColon => Some(seq![':', ':']),
        TokenKind::LeftParen => Some(seq!['(']),
        TokenKind::RightParen => Some(seq![')']),
        TokenKind::LeftBracket => Some(seq!['[']),
        TokenKind::RightBracket => Some(seq![']']),
        TokenKind::LeftBrace => Some(seq!['{']),
        TokenKind::RightBrace => Some(seq!['}']),
        TokenKind::Comma => Some(seq![',']),
        TokenKind::Semicolon => Some(seq![';']),
        TokenKind::Dot => Some(seq!['.']),
        TokenKind::Question => Some(seq!['?']),
        TokenKind::Backtick => Some(seq!['`']),
        TokenKind::At => Some(seq!['@']),
        _ => None,
    }
}

/// The token of a payload-free variant.
pub open spec fn unit_kind(k: TokenKind) -> bool {
    !(k is Integer || k is Float || k is String || k is Char || k is Identifier)
}

/// The token of a payload-free variant.
pub fn token_of_kind(k: TokenKind) -> (res: Token)
    requires
        unit_kind(k),
    ensures
        res.spec_kind() == k,
{
    match k {
        TokenKind::True => Token::True,
        TokenKind::False => Token::False,
        TokenKind::Integer => Token::Error,
        TokenKind::Float => Token::Error,
        TokenKind::String => Token::Error,
        TokenKind::Char => Token::Error,
        TokenKind::Identifier => Token::Error,
        TokenKind::Fn => Token::Fn,
        TokenKind::Let => Token::Let,
        TokenKind::Var => Token::Var,
        TokenKind::Const => Token::Const,
        TokenKind::Type => Token::Type,
        TokenKind::Struct => Token::Struct,
        TokenKind::Interface => Token::Interface,
        TokenKind::Import => Token::Import,
        TokenKind::Impl => Token::Impl,
        TokenKind::If => Token::If,
        TokenKind::Else => Token::Else,
        TokenKind::For => Token::For,
        TokenKind::While => Token::While,
        TokenKind::Match => Token::Match,
        TokenKind::Go => Token::Go,
        TokenKind::Select => Token::Select,
        TokenKind::Try => Token::Try,
        TokenKind::Catch => Token::Catch,
        TokenKind::Throw => Token::Throw,
        TokenKind::Return => Token::Return,
        TokenKind::Break => Token::Break,
        TokenKind::Continue => Token::Continue,
        TokenKind::Defer => Token::Defer,
        TokenKind::New => Token::New,
        TokenKind::As => Token::As,
        TokenKind::Export => Token::Export,
        TokenKind::Is => Token::Is,
        TokenKind::Null => Token::Null,
        TokenKind::Any => Token::Any,
        TokenKind::AnyPtr => Token::AnyPtr,
        TokenKind::RawPtr => Token::RawPtr,
        TokenKind::Int => Token::Int,
        TokenKind::I8 => Token::I8,
        TokenKind::I16 => Token::I16,
        TokenKind::I32 => Token::I32,
        TokenKind::I64 => Token::I64,
        TokenKind::U8 => Token::U8,
        TokenKind::U16 => Token::U16,
        TokenKind::U32 => Token::U32,
        TokenKind::U64 => Token::U64,
        TokenKind::F32 => Token::F32,
        TokenKind::F64 => Token::F64,
        TokenKind::Bool => Token::Bool,
        TokenKind::StringType => Token::StringType,
        TokenKind::Vec => Token::Vec,
        TokenKind::MapKw => Token::MapKw,
        TokenKind::SetKw => Token::SetKw,
        TokenKind::Tup => Token::Tup,
        TokenKind::Plus => Token::Plus,
        TokenKind::Minus => Token::Minus,
        TokenKind::Star => Token::Star,
        TokenKind::Asterisk => Token::Asterisk,
        TokenKind::From => Token::From,
        TokenKind::Slash => Token::Slash,
        TokenKind::Percent => Token::Percent,
        TokenKind::Ampersand => Token::Ampersand,
        TokenKind::Pipe => Token::Pipe,
        TokenKind::Caret => Token::Caret,
        TokenKind::Tilde => Token::Tilde,
        TokenKind::LeftShift => Token::LeftShift,
        TokenKind::RightShift => Token::RightShift,
        TokenKind::LogicalAnd => Token::LogicalAnd,
        TokenKind::LogicalOr => Token::LogicalOr,
        TokenKind::Not => Token::Not,
        TokenKind::Equal => Token::Equal,
        TokenKind::NotEqual => Token::NotEqual,
        TokenKind::Less => Token::Less,
        TokenKind::LessEqual => Token::LessEqual,
        TokenKind::Greater => Token::Greater,
        TokenKind::GreaterEqual => Token::GreaterEqual,
        TokenKind::Assign => Token::Assign,
        TokenKind::PlusAssign => Token::PlusAssign,
        TokenKind::MinusAssign => Token::MinusAssign,
        TokenKind::StarAssign => Token::StarAssign,
        TokenKind::SlashAssign => Token::SlashAssign,
        TokenKind::PercentAssign => Token::PercentAssign,
        TokenKind::AmpersandAssign => Token::AmpersandAssign,
        TokenKind::PipeAssign => Token::PipeAssign,
        TokenKind::CaretAssign => Token::CaretAssign,
        TokenKind::LeftShiftAssign => Token::LeftShiftAssign,
        TokenKind::RightShiftAssign => Token::RightShiftAssign,
        TokenKind::LeftParen => Token::LeftParen,
        TokenKind::RightParen => Token::RightParen,
        TokenKind::LeftBracket => Token::LeftBracket,
        TokenKind::RightBracket => Token::RightBracket,
        TokenKind::LeftBrace => Token::LeftBrace,
        TokenKind::RightBrace => Token::RightBrace,
        TokenKind::Comma => Token::Comma,
        TokenKind::Semicolon => Token::Semicolon,
        TokenKind::Colon => Token::Colon,
        TokenKind::ColonColon => Token::ColonColon,
        TokenKind::Dot => Token::Dot,
        TokenKind::Arrow => Token::Arrow,
        TokenKind::Question => Token::Question,
        TokenKind::Backtick => Token::Backtick,
        TokenKind::Underscore => Token::Underscore,
        TokenKind::Default => Token::Default,
        TokenKind::In => Token::In,
        TokenKind::At => Token::At,
        TokenKind::Chan => Token::Chan,
        TokenKind::Mut => Token::Mut,
        TokenKind::Error => Token::Error,
    }
}

/// The keyword a word spells, if it spells one.
pub open spec fn keyword_kind(word: Seq<char>) -> Option<TokenKind> {
    if word == "true"@ { Some(TokenKind::True) }
    else if word == "false"@ { Some(TokenKind::False) }
    else if word == "func"@ { Some(TokenKind::Fn) }
    else if word == "let"@ { Some(TokenKind::Let) }
    else if word == "var"@ { Some(TokenKind::Var) }
    else if word == "const"@ { Some(TokenKind::Const) }
    else if word == "type"@ { Some(TokenKind::Type) }
    else if word == "struct"@ { Some(TokenKind::Struct) }
    else if word == "interface"@ { Some(TokenKind::Interface) }
    else if word == "import"@ { Some(TokenKind::Import) }
    else if word == "impl"@ { Some(TokenKind::Impl) }
    else if word == "if"@ { Some(TokenKind::If) }
    else if word == "else"@ { Some(TokenKind::Else) }
    else if word == "for"@ { Some(TokenKind::For) }
    else if word == "while"@ { Some(TokenKind::While) }
    else if word == "match"@ { Some(TokenKind::Match) }
    else if word == "go"@ { Some(TokenKind::Go) }
    else if word == "select"@ { Some(TokenKind::Select) }
    else if word == "try"@ { Some(TokenKind::Try) }
    else if word == "catch"@ { Some(TokenKind::Catch) }
    else if word == "throw"@ { Some(TokenKind::Throw) }
    else if word == "return"@ { Some(TokenKind::Return) }
    else if word == "break"@ { Some(TokenKind::Break) }
    else if word == "continue"@ { Some(TokenKind::Continue) }
    else if word == "defer"@ { Some(TokenKind::Defer) }
    else if word == "new"@ { Some(TokenKind::New) }
    else if word == "as"@ { Some(TokenKind::As) }
    else if word == "export"@ { Some(TokenKind::Export) }
    else if word == "is"@ { Some(TokenKind::Is) }
    else if word == "null"@ { Some(TokenKind::Null) }
    else if word == "any"@ { Some(TokenKind::Any) }
    else if word == "anyptr"@ { Some(TokenKind::AnyPtr) }
    else if word == "rawptr"@ { Some(TokenKind::RawPtr) }
    else if word == "int"@ { Some(TokenKind::Int) }
    else if word == "i8"@ { Some(TokenKind::I8) }
    else if word == "i16"@ { Some(TokenKind::I16) }
    else if word == "i32"@ { Some(TokenKind::I32) }
    else if word == "i64"@ { Some(TokenKind::I64) }
    else if word == "u8"@ { Some(TokenKind::U8) }
    else if word == "u16"@ { Some(TokenKind::U16) }
    else if word == "u32"@ { Some(TokenKind::U32) }
    else if word == "u64"@ { Some(TokenKind::U64) }
    else if word == "f32"@ { Some(TokenKind::F32) }
    else if word == "f64"@ { Some(TokenKind::F64) }
    else if word == "bool"@ { Some(TokenKind::Bool) }
    else if word == "string"@ { Some(TokenKind::StringType) }
    else if word == "vec"@ { Some(TokenKind::Vec) }
    else if word == "map"@ { Some(TokenKind::MapKw) }
    else if word == "set"@ { Some(TokenKind::SetKw) }
    else if word == "tup"@ { Some(TokenKind::Tup) }
    else if word == "from"@ { Some(TokenKind::From) }
    else if word == "_"@ { Some(TokenKind::Underscore) }
    else if word == "default"@ { Some(TokenKind::Default) }
    else if word == "in"@ { Some(TokenKind::In) }
    else if word == "chan"@ { Some(TokenKind::Chan) }
    else if word == "mut"@ { Some(TokenKind::Mut) }
    else if word == "fn"@ { Some(TokenKind::Fn) }
    else { None }
}

/// The keyword a word spells, if it spells one.
pub fn keyword_of(word: &str) -> (res: Option<TokenKind>)
    ensures
        res == keyword_kind(word@),
{
    if text_eq(word, "true") { return Some(TokenKind::True); }
    if text_eq(word, "false") { return Some(TokenKind::False); }
    if text_eq(word, "func") { return Some(TokenKind::Fn); }
    if text_eq(word, "let") { return Some(TokenKind::Let); }
    if text_eq(word, "var") { return Some(TokenKind::Var); }
    if text_eq(word, "const") { return Some(TokenKind::Const); }
    if text_eq(word, "type") { return Some(TokenKind::Type); }
    if text_eq(word, "struct") { return Some(TokenKind::Struct); }
    if text_eq(word, "interface") { return Some(TokenKind::Interface); }
    if text_eq(word, "import") { return Some(TokenKind::Import); }
    if text_eq(word, "impl") { return Some(TokenKind::Impl); }
    if text_eq(word, "if") { return Some(TokenKind::If); }
    if text_eq(word, "else") { return Some(TokenKind::Else); }
    if text_eq(word, "for") { return Some(TokenKind::For); }
    if text_eq(word, "while") { return Some(TokenKind::While); }
    if text_eq(word, "match") { return Some(TokenKind::Match); }
    if text_eq(word, "go") { return Some(TokenKind::Go); }
    if text_eq(word, "select") { return Some(TokenKind::Select); }
    if text_eq(word, "try") { return Some(TokenKind::Try); }
    if text_eq(word, "catch") { return Some(TokenKind::Catch); }
    if text_eq(word, "throw") { return Some(TokenKind::Throw); }
    if text_eq(word, "return") { return Some(TokenKind::Return); }
    if text_eq(word, "break") { return Some(TokenKind::Break); }
    if text_eq(word, "continue") { return Some(TokenKind::Continue); }
    if text_eq(word, "defer") { return Some(TokenKind::Defer); }
    if text_eq(word, "new") { return Some(TokenKind::New); }
    if text_eq(word, "as") { return Some(TokenKind::As); }
    if text_eq(word, "export") { return Some(TokenKind::Export); }
    if text_eq(word, "is") { return Some(TokenKind::Is); }
    if text_eq(word, "null") { return Some(TokenKind::Null); }
    if text_eq(word, "any") { return Some(TokenKind::Any); }
    if text_eq(word, "anyptr") { return Some(TokenKind::AnyPtr); }
    if text_eq(word, "rawptr") { return Some(TokenKind::RawPtr); }
    if text_eq(word, "int") { return Some(TokenKind::Int); }
    if text_eq(word, "i8") { return Some(TokenKind::I8); }
    if text_eq(word, "i16") { return Some(TokenKind::I16); }
    if text_eq(word, "i32") { return Some(TokenKind::I32); }
    if text_eq(word, "i64") { return Some(TokenKind::I64); }
    if text_eq(word, "u8") { return Some(TokenKind::U8); }
    if text_eq(word, "u16") { return Some(TokenKind::U16); }
    if text_eq(word, "u32") { return Some(TokenKind::U32); }
    if text_eq(word, "u64") { return Some(TokenKind::U64); }
    if text_eq(word, "f32") { return Some(TokenKind::F32); }
    if text_eq(word, "f64") { return Some(TokenKind::F64); }
    if text_eq(word, "bool") { return Some(TokenKind::Bool); }
    if text_eq(word, "string") { return Some(TokenKind::StringType); }
    if text_eq(word, "vec") { return Some(TokenKind::Vec); }
    if text_eq(word, "map") { return Some(TokenKind::MapKw); }
    if text_eq(word, "set") { return Some(TokenKind::SetKw); }
    if text_eq(word, "tup") { return Some(TokenKind::Tup); }
    if text_eq(word, "from") { return Some(TokenKind::From); }
    if text_eq(word, "_") { return Some(TokenKind::Underscore); }
    if text_eq(word, "default") { return Some(TokenKind::Default); }
    if text_eq(word, "in") { return Some(TokenKind::In); }
    if text_eq(word, "chan") { return Some(TokenKind::Chan); }
    if text_eq(word, "mut") { return Some(TokenKind::Mut); }
    if text_eq(word, "fn") { return Some(TokenKind::Fn); }
    None
}

impl Clone for Token {
    fn clone(&self) -> (res: Self)
        ensures
            res == *self,
    {
        match self {
            Token::Integer(n) => Token::Integer(*n),
            Token::Float(t) => Token::Float(t.clone()),
            Token::String(s) => Token::String(s.clone()),
            Token::Char(c) => Token::Char(*c),
            Token::Identifier(s) => Token::Identifier(s.clone()),
            Token::True => Token::True,
            Token::False => Token::False,
            Token::Fn => Token::Fn,
            Token::Let => Token::Let,
            Token::Var => Token::Var,
            Token::Const => Token::Const,
            Token::Type => Token::Type,
            Token::Struct => Token::Struct,
            Token::Interface => Token::Interface,
            Token::Import => Token::Import,
            Token::Impl => Token::Impl,
            Token::If => Token::If,
            Token::Else => Token::Else,
            Token::For => Token::For,
            Token::While => Token::While,
            Token::Match => Token::Match,
            Token::Go => Token::Go,
            Token::Select => Token::Select,
            Token::Try => Token::Try,
            Token::Catch => Token::Catch,
            Token::Throw => Token::Throw,
            Token::Return => Token::Return,
            Token::Break => Token::Break,
            Token::Continue => Token::Continue,
            Token::Defer => Token::Defer,
            Token::New => Token::New,
            Token::As => Token::As,
            Token::Export => Token::Export,
            Token::Is => Token::Is,
            Token::Null => Token::Null,
            Token::Any => Token::Any,
            Token::AnyPtr => Token::AnyPtr,
            Token::RawPtr => Token::RawPtr,
            Token::Int => Token::Int,
            Token::I8 => Token::I8,
            Token::I16 => Token::I16,
            Token::I32 => Token::I32,
            Token::I64 => Token::I64,
            Token::U8 => Token::U8,
            Token::U16 => Token::U16,
            Token::U32 => Token::U32,
            Token::U64 => Token::U64,
            Token::F32 => Token::F32,
            Token::F64 => Token::F64,
            Token::Bool => Token::Bool,
            Token::StringType => Token::StringType,
            Token::Vec => Token::Vec,
            Token::MapKw => Token::MapKw,
            Token::SetKw => Token::SetKw,
            Token::Tup => Token::Tup,
            Token::Plus => Token::Plus,
            Token::Minus => Token::Minus,
            Token::Star => Token::Star,
            Token::Asterisk => Token::Asterisk,
            Token::From => Token::From,
            Token::Slash => Token::Slash,
            Token::Percent => Token::Percent,
            Token::Ampersand => Token::Ampersand,
            Token::Pipe => Token::Pipe,
            Token::Caret => Token::Caret,
            Token::Tilde => Token::Tilde,
            Token::LeftShift => Token::LeftShift,
            Token::RightShift => Token::RightShift,
            Token::LogicalAnd => Token::LogicalAnd,
            Token::LogicalOr => Token::LogicalOr,
            Token::Not => Token::Not,
            Token::Equal => Token::Equal,
            Token::NotEqual => Token::NotEqual,
            Token::Less => Token::Less,
            Token::LessEqual => Token::LessEqual,
            Token::Greater => Token::Greater,
            Token::GreaterEqual => Token::GreaterEqual,
            Token::Assign => Token::Assign,
            Token::PlusAssign => Token::PlusAssign,
            Token::MinusAssign => Token::MinusAssign,
            Token::StarAssign => Token::StarAssign,
            Token::SlashAssign => Token::SlashAssign,
            Token::PercentAssign => Token::PercentAssign,
            Token::AmpersandAssign => Token::AmpersandAssign,
            Token::PipeAssign => Token::PipeAssign,
            Token::CaretAssign => Token::CaretAssign,
            Token::LeftShiftAssign => Token::LeftShiftAssign,
            Token::RightShiftAssign => Token::RightShiftAssign,
            Token::LeftParen => Token::LeftParen,
            Token::RightParen => Token::RightParen,
            Token::LeftBracket => Token::LeftBracket,
            Token::RightBracket => Token::RightBracket,
            Token::LeftBrace => Token::LeftBrace,
            Token::RightBrace => Token::RightBrace,
            Token::Comma => Token::Comma,
            Token::Semicolon => Token::Semicolon,
            Token::Colon => Token::Colon,
            Token::ColonColon => Token::ColonColon,
            Token::Dot => Token::Dot,
            Token::Arrow => Token::Arrow,
            Token::Question => Token::Question,
            Token::Backtick => Token::Backtick,
            Token::Underscore => Token::Underscore,
            Token::Default => Token::Default,
            Token::In => Token::In,
            Token::At => Token::At,
            Token::Chan => Token::Chan,
            Token::Mut => Token::Mut,
            Token::Error => Token::Error,
        }
    }
}
/// The decimal text of a signed number, with a leading `-` when negative.
pub open spec fn signed_decimal(n: int) -> Seq<char> {
    if n < 0 { "-"@ + decimal((-n) as nat) } else { decimal(n as nat) }
}

/// Decimal rendering of a signed 64-bit number.
pub fn i64_to_string(n: i64) -> (res: String)
    ensures
        res@ == signed_decimal(n as int),
{
    if n < 0 {
        let m: u64 = if n == i64::MIN { 9223372036854775808u64 } else { (-n) as u64 };
        let mut s = String::from_str("-");
        let d = u64_to_string(m);
        s.append(d.as_str());
        s
    } else {
        u64_to_string(n as u64)
    }
}

/// Decimal rendering of an unsigned 64-bit number.
pub fn u64_to_string(n: u64) -> (res: String)
    ensures
        res@ == decimal(n as nat),
    decreases n,
{
    if n < 10 {
        usize_to_string(n as usize)
    } else {
        let mut s = u64_to_string(n / 10);
        let d = usize_to_string((n % 10) as usize);
        s.append(d.as_str());
        s
    }
}

/// A one-character string (calls `char::to_string`).
#[verifier::external_body]
pub fn char_to_string(c: char) -> (res: String)
    ensures
        res@ == seq![c],
{
    c.to_string()
}

/// Token with location information
#[derive(Debug, PartialEq)]
pub struct TokenWithLocation {
    /// The token itself
    pub token: Token,
    /// Line number (1-based)
    pub line: usize,
    /// Column number (1-based)
    pub column: usize,
    /// Character offset from the start of the file
    pub offset: usize,
}

impl TokenWithLocation {
    /// Create a new token with location
    pub fn new(token: Token, line: usize, column: usize, offset: usize) -> (res: Self)
        ensures
            res.token == token,
            res.line == line,
            res.column == column,
            res.offset == offset,
    {
        TokenWithLocation { token, line, column, offset }
    }
}

impl Clone for TokenWithLocation {
    fn clone(&self) -> (res: Self)
        ensures
            res == *self,
    {
        TokenWithLocation {
            token: self.token.clone(),
            line: self.line,
            column: self.column,
            offset: self.offset,
        }
    }
}

} // verus!
