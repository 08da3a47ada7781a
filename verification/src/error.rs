//! Error values of the compiler: what went wrong and where.
use vstd::prelude::*;
use vstd::string::*;

verus! {

/// Source location information
#[derive(Debug, Clone, Copy, PartialEq, Eq, Hash)]
pub struct Location {
    /// Line number (1-based)
    pub line: usize,
    /// Column number (1-based)
    pub column: usize,
    /// Character offset from the start of the file
    pub offset: usize,
}

impl Location {
    /// Create a new location
    pub fn new(line: usize, column: usize, offset: usize) -> (res: Self)
        ensures
            res.line == line,
            res.column == column,
            res.offset == offset,
    {
        Location { line, column, offset }
    }

    /// The location `0:0` at offset 0, used where a node carries no position.
    pub open spec fn zero() -> Location {
        Location { line: 0, column: 0, offset: 0 }
    }
}

/// Main compiler error type
#[derive(Debug)]
pub enum CompilerError {
    /// Lexical analysis errors
    Lexical {
        /// Line number where the error occurred
        line: usize,
        /// Column number where the error occurred
        column: usize,
        /// Error message
        message: String,
    },
    /// Syntax analysis errors
    Syntax {
        /// Line number where the error occurred
        line: usize,
        /// Column number where the error occurred
        column: usize,
        /// Error message
        message: String,
    },
    /// Semantic analysis errors
    Semantic {
        /// Line number where the error occurred
        line: usize,
        /// Column number where the error occurred
        column: usize,
        /// Error message
        message: String,
    },
    /// Type checking errors
    Type {
        /// Line number where the error occurred
        line: usize,
        /// Column number where the error occurred
        column: usize,
        /// Error message
        message: String,
    },
    /// Code generation errors
    CodeGen {
        /// Error message
        message: String,
    },
    /// LLVM backend errors
    Llvm {
        /// Error message
        message: String,
    },
    /// I/O errors, carried by their message
    Io {
        /// Error message
        message: String,
    },
    /// File not found
    FileNotFound {
        /// Path to the file that was not found
        path: String,
    },
    /// Invalid configuration
    Config {
        /// Error message
        message: String,
    },
    /// Internal compiler error
    Internal {
        /// Error message
        message: String,
    },
}

/// Result type alias for compiler operations
pub type Result<T> = core::result::Result<T, CompilerError>;

impl Clone for CompilerError {
    fn clone(&self) -> (res: Self)
        ensures
            res == *self,
    {
        match self {
            CompilerError::Lexical { line, column, message } => CompilerError::Lexical {
                line: *line,
                column: *column,
                message: message.clone(),
            },
            CompilerError::Syntax { line, column, message } => CompilerError::Syntax {
                line: *line,
                column: *column,
                message: message.clone(),
            },
            CompilerError::Semantic { line, column, message } => CompilerError::Semantic {
                line: *line,
                column: *column,
                message: message.clone(),
            },
            CompilerError::Type { line, column, message } => CompilerError::Type {
                line: *line,
                column: *column,
                message: message.clone(),
            },
            CompilerError::CodeGen { message } => CompilerError::CodeGen { message: message.clone() },
            CompilerError::Llvm { message } => CompilerError::Llvm { message: message.clone() },
            CompilerError::Io { message } => CompilerError::Io { message: message.clone() },
            CompilerError::FileNotFound { path } => CompilerError::FileNotFound { path: path.clone() },
            CompilerError::Config { message } => CompilerError::Config { message: message.clone() },
            CompilerError::Internal { message } => CompilerError::Internal {
                message: message.clone(),
            },
        }
    }
}

/// Helper functions for creating common errors
impl CompilerError {
    /// Create a lexical error
    pub fn lexical(line: usize, column: usize, message: &str) -> (res: Self)
        ensures
            res matches CompilerError::Lexical { line: l, column: c, message: m }
                && l == line && c == column && m@ == message@,
    {
        CompilerError::Lexical { line, column, message: String::from_str(message) }
    }

    /// Create a syntax error
    pub fn syntax(line: usize, column: usize, message: &str) -> (res: Self)
        ensures
            res matches CompilerError::Syntax { line: l, column: c, message: m }
                && l == line && c == column && m@ == message@,
    {
        CompilerError::Syntax { line, column, message: String::from_str(message) }
    }

    /// Create a semantic error
    pub fn semantic(line: usize, column: usize, message: &str) -> (res: Self)
        ensures
            res matches CompilerError::Semantic { line: l, column: c, message: m }
                && l == line && c == column && m@ == message@,
    {
        CompilerError::Semantic { line, column, message: String::from_str(message) }
    }

    /// Create a type error
    pub fn type_error(line: usize, column: usize, message: &str) -> (res: Self)
        ensures
            res matches CompilerError::Type { line: l, column: c, message: m }
                && l == line && c == column && m@ == message@,
    {
        CompilerError::Type { line, column, message: String::from_str(message) }
    }

    /// Create a code generation error
    pub fn codegen(message: &str) -> (res: Self)
        ensures
            res matches CompilerError::CodeGen { message: m } && m@ == message@,
    {
        CompilerError::CodeGen { message: String::from_str(message) }
    }

    /// Create an LLVM error
    pub fn llvm(message: &str) -> (res: Self)
        ensures
            res matches CompilerError::Llvm { message: m } && m@ == message@,
    {
        CompilerError::Llvm { message: String::from_str(message) }
    }

    /// Create a file not found error
    pub fn file_not_found(path: &str) -> (res: Self)
        ensures
            res matches CompilerError::FileNotFound { path: p } && p@ == path@,
    {
        CompilerError::FileNotFound { path: String::from_str(path) }
    }

    /// Create a configuration error
    pub fn config(message: &str) -> (res: Self)
        ensures
            res matches CompilerError::Config { message: m } && m@ == message@,
    {
        CompilerError::Config { message: String::from_str(message) }
    }

    /// Create an internal error
    pub fn internal(message: &str) -> (res: Self)
        ensures
            res matches CompilerError::Internal { message: m } && m@ == message@,
    {
        CompilerError::Internal { message: String::from_str(message) }
    }

    /// The text `{error}` renders to: the category, the position where there is one, and the
    /// message, as in "Syntax error at 3:7: Expected ...".
    pub fn to_string(&self) -> (res: String)
        ensures
            res@ == self.spec_to_string(),
    {
        match self {
            CompilerError::Lexical { line, column, message } => position_message("Lexical error at ", *line, *column, message),
            CompilerError::Syntax { line, column, message } => position_message("Syntax error at ", *line, *column, message),
            CompilerError::Semantic { line, column, message } => position_message("Semantic error at ", *line, *column, message),
            CompilerError::Type { line, column, message } => position_message("Type error at ", *line, *column, message),
            CompilerError::CodeGen { message } => prefixed("Code generation error: ", message),
            CompilerError::Llvm { message } => prefixed("LLVM error: ", message),
            CompilerError::Io { message } => prefixed("I/O error: ", message),
            CompilerError::FileNotFound { path } => prefixed("File not found: ", path),
            CompilerError::Config { message } => prefixed("Invalid configuration: ", message),
            CompilerError::Internal { message } => prefixed("Internal compiler error: ", message),
        }
    }

    /// What `to_string` gives for this error.
    pub open spec fn spec_to_string(&self) -> Seq<char> {
        match self {
            CompilerError::Lexical { line, column, message } =>
                "Lexical error at "@ + decimal(*line as nat) + ":"@ + decimal(*column as nat) + ": "@ + message@,
            CompilerError::Syntax { line, column, message } =>
                "Syntax error at "@ + decimal(*line as nat) + ":"@ + decimal(*column as nat) + ": "@ + message@,
            CompilerError::Semantic { line, column, message } =>
                "Semantic error at "@ + decimal(*line as nat) + ":"@ + decimal(*column as nat) + ": "@ + message@,
            CompilerError::Type { line, column, message } =>
                "Type error at "@ + decimal(*line as nat) + ":"@ + decimal(*column as nat) + ": "@ + message@,
            CompilerError::CodeGen { message } => "Code generation error: "@ + message@,
            CompilerError::Llvm { message } => "LLVM error: "@ + message@,
            CompilerError::Io { message } => "I/O error: "@ + message@,
            CompilerError::FileNotFound { path } => "File not found: "@ + path@,
            CompilerError::Config { message } => "Invalid configuration: "@ + message@,
            CompilerError::Internal { message } => "Internal compiler error: "@ + message@,
        }
    }
}

fn prefixed(prefix: &str, message: &String) -> (res: String)
    ensures
        res@ == prefix@ + message@,
{
    let mut s = String::from_str(prefix);
    s.append(message.as_str());
    s
}

fn position_message(prefix: &str, line: usize, column: usize, message: &String) -> (res: String)
    ensures
        res@ == prefix@ + decimal(line as nat) + ":"@ + decimal(column as nat) + ": "@ + message@,
{
    let mut s = String::from_str(prefix);
    let l = usize_to_string(line);
    s.append(l.as_str());
    s.append(":");
    let c = usize_to_string(column);
    s.append(c.as_str());
    s.append(": ");
    s.append(message.as_str());
    s
}

/// The decimal digits of `n`, most significant first, with no leading zero (`"0"` for zero).
pub open spec fn decimal(n: nat) -> Seq<char>
    decreases n,
{
    if n < 10 {
        seq![digit_char(n)]
    } else {
        decimal(n / 10) + seq![digit_char(n % 10)]
    }
}

/// The character of the digit `d`.
pub open spec fn digit_char(d: nat) -> char {
    if d == 0 { '0' } else if d == 1 { '1' } else if d == 2 { '2' } else if d == 3 { '3' }
    else if d == 4 { '4' } else if d == 5 { '5' } else if d == 6 { '6' } else if d == 7 { '7' }
    else if d == 8 { '8' } else { '9' }
}

/// One digit as a one-character string.
fn digit_str(d: usize) -> (res: &'static str)
    requires
        d < 10,
    ensures
        res@ == seq![digit_char(d as nat)],
{
    proof {
        reveal_strlit("0");
        reveal_strlit("1");
        reveal_strlit("2");
        reveal_strlit("3");
        reveal_strlit("4");
        reveal_strlit("5");
        reveal_strlit("6");
        reveal_strlit("7");
        reveal_strlit("8");
        reveal_strlit("9");
    }
    if d == 0 { "0" } else if d == 1 { "1" } else if d == 2 { "2" } else if d == 3 { "3" }
    else if d == 4 { "4" } else if d == 5 { "5" } else if d == 6 { "6" } else if d == 7 { "7" }
    else if d == 8 { "8" } else { "9" }
}

/// Decimal rendering of an unsigned number.
pub fn usize_to_string(n: usize) -> (res: String)
    ensures
        res@ == decimal(n as nat),
    decreases n,
{
    if n < 10 {
        String::from_str(digit_str(n))
    } else {
        let mut s = usize_to_string(n / 10);
        s.append(digit_str(n % 10));
        s
    }
}

/// Error context for better error reporting
#[derive(Debug, Clone)]
pub struct ErrorContext {
    /// Path to the source file
    pub file_path: Option<String>,
    /// Source code content
    pub source_code: Option<String>,
    /// Location where the error occurred
    pub location: Location,
    /// Suggestion for fixing the error
    pub suggestion: Option<String>,
}

impl ErrorContext {
    /// Create a new error context
    pub fn new(location: Location) -> (res: Self)
        ensures
            res.location == location,
            res.file_path is None,
            res.source_code is None,
            res.suggestion is None,
    {
        ErrorContext { file_path: None, source_code: None, location, suggestion: None }
    }

    /// Add file path to context
    pub fn with_file_path(self, path: String) -> (res: Self)
        ensures
            res.file_path == Some(path),
            res.source_code == self.source_code,
            res.location == self.location,
            res.suggestion == self.suggestion,
    {
        ErrorContext { file_path: Some(path), ..self }
    }

    /// Add source code to context
    pub fn with_source_code(self, code: String) -> (res: Self)
        ensures
            res.source_code == Some(code),
            res.file_path == self.file_path,
            res.location == self.location,
            res.suggestion == self.suggestion,
    {
        ErrorContext { source_code: Some(code), ..self }
    }

    /// Add suggestion to context
    pub fn with_suggestion(self, suggestion: String) -> (res: Self)
        ensures
            res.suggestion == Some(suggestion),
            res.file_path == self.file_path,
            res.source_code == self.source_code,
            res.location == self.location,
    {
        ErrorContext { suggestion: Some(suggestion), ..self }
    }
}

} // verus!
