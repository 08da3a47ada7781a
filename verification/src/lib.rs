//! Nature compiler front end: lexer, parser, syntax tree, semantic analysis and target
//! configuration.
use vstd::prelude::*;

pub mod error;
pub mod text;
pub mod ast;
pub mod lexer;
pub mod parser;
pub mod semantic;
pub mod llvm_backend;
pub mod runtime;

use crate::error::{CompilerError, Result};
use crate::lexer::{Lexer, lexes};
use crate::lexer::token::TokenWithLocation;
use crate::text::{concat, concat3, text_eq};
use crate::ast::Program;
use crate::semantic::analyzer::decls_fresh;
use crate::semantic::name_resolver::decls_resolve;
use crate::semantic::nesting::program_nesting;
use crate::semantic::semantic_checker::{program_checks, kinds, top_context, lemma_kinds_same};
use crate::semantic::scope_analyzer::{decls_scoped, no_names, scope_names};

verus! {

/// Main compiler interface
pub struct Compiler {
    /// Compiler configuration
    config: CompilerConfig,
}

/// Compiler configuration
#[derive(Debug, Clone)]
pub struct CompilerConfig {
    /// Target architecture
    pub target_arch: String,
    /// Target OS
    pub target_os: String,
    /// Optimization level
    pub opt_level: OptLevel,
    /// Enable debug information
    pub debug_info: bool,
    /// Output directory
    pub output_dir: String,
    /// Enable static linking
    pub static_link: bool,
    /// Output file name
    pub output_name: String,
}

/// Optimization levels
#[derive(Debug, Clone, Copy, PartialEq, Eq)]
pub enum OptLevel {
    /// No optimization
    Off,
    /// Basic optimization
    Basic,
    /// Aggressive optimization
    Aggressive,
}

/// Target platform configuration
#[derive(Debug, Clone)]
pub struct TargetConfig {
    /// Architecture (x86_64, aarch64, riscv64)
    pub arch: String,
    /// Operating system (linux, windows, darwin)
    pub os: String,
    /// Environment (gnu, msvc, musl)
    pub env: String,
}

/// The number of times `c` occurs in `s`.
pub open spec fn count_char(s: Seq<char>, c: char) -> nat
    decreases s.len(),
{
    if s.len() == 0 {
        0
    } else {
        count_char(s.drop_last(), c) + if s.last() == c { 1nat } else { 0nat }
    }
}

/// The index of the first `c` in `s` at or after `i`, or the length of `s` when there is none.
pub open spec fn find_char(s: Seq<char>, c: char, i: int) -> int
    decreases s.len() - i,
{
    if i < 0 || i >= s.len() {
        s.len() as int
    } else if s[i] == c {
        i
    } else {
        find_char(s, c, i + 1)
    }
}

/// The LLVM name of a Go-style architecture name.
pub open spec fn llvm_arch_name(arch: Seq<char>) -> Seq<char> {
    if arch == "amd64"@ {
        "x86_64"@
    } else if arch == "arm64"@ {
        "aarch64"@
    } else {
        arch
    }
}

/// The environment used on an operating system.
pub open spec fn env_name(os: Seq<char>) -> Seq<char> {
    if os == "windows"@ { "msvc"@ } else { "gnu"@ }
}

/// The linker used on an operating system.
pub open spec fn linker_name(os: Seq<char>) -> Seq<char> {
    if os == "windows"@ {
        "link.exe"@
    } else if os == "darwin"@ {
        "ld64"@
    } else {
        "gcc"@
    }
}

impl TargetConfig {
    /// Split a Go-style target string (e.g., "linux/amd64") at its one `/` into the operating
    /// system and the architecture, as written; `None` when it holds no `/` or more than one.
    pub fn split_go_style(target: &str) -> (res: Option<(String, String)>)
        ensures
            res is Some <==> count_char(target@, '/') == 1,
            res matches Some(p) ==> {
                let k = find_char(target@, '/', 0);
                &&& p.0@ == target@.take(k)
                &&& p.1@ == target@.skip(k + 1)
            },
    {
        let chars = lexer::chars_of(target);
        let mut slashes: usize = 0;
        let mut first: usize = chars.len();
        let mut i: usize = 0;
        while i < chars.len()
            invariant
                chars@ == target@,
                i <= chars@.len(),
                slashes == count_char(chars@.take(i as int), '/'),
                slashes <= i,
                slashes == 0 ==> first == chars@.len(),
                slashes > 0 ==> first < i && first == find_char(chars@, '/', 0),
                slashes == 0 ==> forall|j: int| 0 <= j < i ==> chars@[j] != '/',
                first == chars@.len() || first < i,
            decreases chars@.len() - i,
        {
            proof {
                assert(chars@.take(i + 1).drop_last() =~= chars@.take(i as int));
                if slashes == 0 {
                    lemma_find_char_skips(chars@, '/', 0, i as int);
                }
            }
            if chars[i] == '/' {
                if slashes == 0 {
                    first = i;
                }
                slashes = slashes + 1;
            }
            i = i + 1;
        }
        proof {
            assert(chars@.take(chars@.len() as int) =~= chars@);
            if slashes == 0 {
                lemma_find_char_skips(chars@, '/', 0, chars@.len() as int);
            }
        }
        if slashes != 1 {
            return None;
        }
        let os = target.substring_char(0, first);
        let arch = target.substring_char(first + 1, chars.len());
        proof {
            assert(os@ =~= target@.take(first as int));
            assert(arch@ =~= target@.skip(first + 1));
        }
        Some((String::from_str(os), String::from_str(arch)))
    }

    /// Create target config from a Go-style target string (e.g., "linux/amd64"): the
    /// operating system, a `/`, and the architecture.
    pub fn from_go_style(target: &str) -> (res: Result<Self>)
        ensures
            res is Ok <==> count_char(target@, '/') == 1,
            res matches Ok(c) ==> {
                let k = find_char(target@, '/', 0);
                &&& c.os@ == target@.take(k)
                &&& c.arch@ == llvm_arch_name(target@.skip(k + 1))
                &&& c.env@ == env_name(c.os@)
            },
            res matches Err(e) ==> e matches CompilerError::Internal { message }
                && message@ == "Invalid target format: "@ + target@,
    {
        let (os, raw_arch) = match Self::split_go_style(target) {
            Some(parts) => parts,
            None => {
                let message = concat("Invalid target format: ", target);
                return Err(CompilerError::internal(message.as_str()));
            },
        };
        let arch = if text_eq(raw_arch.as_str(), "amd64") {
            String::from_str("x86_64")
        } else if text_eq(raw_arch.as_str(), "arm64") {
            String::from_str("aarch64")
        } else if text_eq(raw_arch.as_str(), "riscv64") {
            String::from_str("riscv64")
        } else {
            raw_arch
        };
        let env = Self::env_for(os.as_str());
        proof {
            reveal_strlit("amd64");
            reveal_strlit("arm64");
            reveal_strlit("riscv64");
            reveal_strlit("x86_64");
            reveal_strlit("aarch64");
        }
        Ok(TargetConfig { arch, os, env })
    }

    /// The environment used on an operating system: `msvc` on Windows, `gnu` elsewhere.
    fn env_for(os: &str) -> (res: String)
        ensures
            res@ == env_name(os@),
    {
        if text_eq(os, "windows") {
            String::from_str("msvc")
        } else {
            String::from_str("gnu")
        }
    }

    /// The target a compiler configuration builds for: its architecture and operating system,
    /// with the environment used there.
    pub fn from_config(config: &CompilerConfig) -> (res: Self)
        ensures
            res.arch@ == config.target_arch@,
            res.os@ == config.target_os@,
            res.env@ == env_name(config.target_os@),
    {
        TargetConfig {
            arch: String::from_str(config.target_arch.as_str()),
            os: String::from_str(config.target_os.as_str()),
            env: Self::env_for(config.target_os.as_str()),
        }
    }

    /// Convert to LLVM target triple: architecture, environment and operating system
    pub fn to_llvm_triple(&self) -> (res: String)
        ensures
            res@ == self.arch@ + "-"@ + self.env@ + "-"@ + self.os@,
    {
        let head = concat3(self.arch.as_str(), "-", self.env.as_str());
        concat3(head.as_str(), "-", self.os.as_str())
    }

    /// Get platform-specific llc command
    pub fn get_llc_command(&self) -> (res: &str)
        ensures
            res@ == "llc-15"@,
    {
        "llc-15"
    }

    /// Get platform-specific linker command
    pub fn get_linker_command(&self) -> (res: &str)
        ensures
            res@ == linker_name(self.os@),
    {
        proof {
            reveal_strlit("windows");
            reveal_strlit("darwin");
            reveal_strlit("linux");
        }
        if text_eq(self.os.as_str(), "linux") {
            proof {
                assert("linux"@.len() != "windows"@.len());
                assert("linux"@.len() != "darwin"@.len());
            }
            "gcc"
        } else if text_eq(self.os.as_str(), "windows") {
            "link.exe"
        } else if text_eq(self.os.as_str(), "darwin") {
            "ld64"
        } else {
            "gcc"
        }
    }
}

/// Before the first `c` at or after `i` there is no `c`.
proof fn lemma_find_char_skips(s: Seq<char>, c: char, i: int, j: int)
    requires
        0 <= i <= j <= s.len(),
        forall|k: int| i <= k < j ==> s[k] != c,
    ensures
        find_char(s, c, i) == find_char(s, c, j),
    decreases j - i,
{
    if i < j {
        lemma_find_char_skips(s, c, i + 1, j);
    }
}

impl Default for CompilerConfig {
    fn default() -> (res: Self)
        ensures
            res.target_arch@ == "x86_64"@,
            res.target_os@ == "linux"@,
            res.opt_level == OptLevel::Basic,
            !res.debug_info,
            res.output_dir@ == "./"@,
            res.static_link,
            res.output_name@ == "main"@,
    {
        CompilerConfig {
            target_arch: String::from_str("x86_64"),
            target_os: String::from_str("linux"),
            opt_level: OptLevel::Basic,
            debug_info: false,
            output_dir: String::from_str("./"),
            static_link: true,
            output_name: String::from_str("main"),
        }
    }
}

/// The input a parser reads from tokens lexed without error.
pub open spec fn lexed_input(toks: Seq<TokenWithLocation>) -> parser::TokenInput {
    parser::TokenInput { tokens: toks, lex_error: None }
}

/// Where a new parser stands: before the first token.
pub open spec fn start_spot() -> parser::Spot {
    parser::Spot { next: 0, current: None }
}

/// Every lexing of `source` without error gives tokens whose parse fails with `f`, and there
/// is one.
pub open spec fn parses_to_failure(source: Seq<char>, f: parser::Failure) -> bool {
    &&& exists|toks: Seq<TokenWithLocation>| #[trigger] lexes(source, 0, 1, 1, toks, None)
    &&& forall|toks: Seq<TokenWithLocation>| #[trigger] lexes(source, 0, 1, 1, toks, None)
        ==> parser::program_at(lexed_input(toks), start_spot()) == parser::ProgramParse::Failed(f)
}

/// What the parse of one lexing of `source` says of every lexing of it.
proof fn lemma_one_parse(source: Seq<char>, pt: Seq<TokenWithLocation>)
    requires
        lexes(source, 0, 1, 1, pt, None),
    ensures
        forall|f: parser::Failure| #[trigger] parses_to_failure(source, f)
            ==> parser::program_at(lexed_input(pt), start_spot()) == parser::ProgramParse::Failed(f),
        (forall|toks: Seq<TokenWithLocation>| #[trigger] lexes(source, 0, 1, 1, toks, None)
            ==> parser::program_at(lexed_input(toks), start_spot()) is Failed)
            ==> parser::program_at(lexed_input(pt), start_spot()) is Failed,
        (forall|toks: Seq<TokenWithLocation>| #[trigger] lexes(source, 0, 1, 1, toks, None)
            ==> parser::program_at(lexed_input(toks), start_spot()) is Done)
            ==> parser::program_at(lexed_input(pt), start_spot()) is Done,
{
}

impl Compiler {
    /// The compiler's configuration.
    pub closed spec fn configuration(&self) -> CompilerConfig {
        self.config
    }

    /// Create a new compiler instance
    pub fn new(config: CompilerConfig) -> (res: Self)
        ensures
            res.configuration() == config,
    {
        Compiler { config }
    }

    /// The compiler's configuration.
    pub fn config(&self) -> (res: &CompilerConfig)
        ensures
            *res == self.configuration(),
    {
        &self.config
    }

    /// Run the front end on Nature source code: lex the whole source, parse it and analyze
    /// the program, stopping at the first phase that fails; the analyzed program comes back.
    /// A lexical error anywhere is reported before any syntax error.
    pub fn front_end(&self, source: &str) -> (res: Result<Program>)
        requires
            source@.len() + 2 <= usize::MAX,
        ensures
            (exists|toks: Seq<TokenWithLocation>, e: CompilerError| lexes(source@, 0, 1, 1, toks, Some(e)))
                ==> (res matches Err(e) && exists|toks: Seq<TokenWithLocation>| lexes(source@, 0, 1, 1, toks, Some(e))),
            res matches Ok(p) ==> p.source_info.source_code@ == source@
                && p.source_info.file_path is None
                && decls_fresh(Seq::empty(), p.declarations@)
                && decls_scoped(no_names(), p.declarations@) is Some
                && program_nesting(p) < usize::MAX
                && exists|t: semantic::SymbolTable| #[trigger] decls_resolve(Seq::empty(), Seq::empty(), p.declarations@, t)
                    && program_checks(top_context(), p, kinds(t)),
            (exists|toks: Seq<TokenWithLocation>| #[trigger] lexes(source@, 0, 1, 1, toks, None) && toks.len() == 0)
                ==> (res matches Ok(p) && p.declarations@.len() == 0),
            res matches Ok(p) ==> exists|toks: Seq<TokenWithLocation>| #[trigger] lexes(source@, 0, 1, 1, toks, None)
                && match parser::program_at(lexed_input(toks), start_spot()) {
                    parser::ProgramParse::Done(ms) => parser::decl_models(p.declarations@) == ms,
                    parser::ProgramParse::Open => true,
                    parser::ProgramParse::Failed(_) => false,
                },
            (exists|toks: Seq<TokenWithLocation>| #[trigger] lexes(source@, 0, 1, 1, toks, None))
                && (forall|toks: Seq<TokenWithLocation>| #[trigger] lexes(source@, 0, 1, 1, toks, None)
                    ==> parser::program_at(lexed_input(toks), start_spot()) is Failed)
                ==> res is Err,
            forall|f: parser::Failure| #[trigger] parses_to_failure(source@, f)
                ==> (res is Err && parser::fails_with(res->Err_0, f)),
    {
        let mut lex = Lexer::new(String::from_str(source));
        let (toks, err) = lex.lex_all();
        proof {
            assert(toks@.skip(0) =~= toks@);
            assert forall|t2: Seq<TokenWithLocation>, e: CompilerError|
                lexes(source@, 0, 1, 1, t2, Some(e)) implies err is Some by {
                lexer::lemma_lexes_same_outcome(source@, 0, 1, 1, toks@, err, t2, Some(e));
            }
        }
        match err {
            Some(e) => {
                proof {
                    assert forall|t2: Seq<TokenWithLocation>| !lexes(source@, 0, 1, 1, t2, None) by {
                        if lexes(source@, 0, 1, 1, t2, None) {
                            lexer::lemma_lexes_same_outcome(source@, 0, 1, 1, toks@, err, t2, None);
                        }
                    }
                }
                return Err(e);
            },
            None => {},
        }
        let mut p = parser::Parser::new(String::from_str(source), None);
        let ghost no_tokens = exists|toks: Seq<TokenWithLocation>| #[trigger] lexes(source@, 0, 1, 1, toks, None)
            && toks.len() == 0;
        proof {
            if no_tokens {
                let toks = choose|toks: Seq<TokenWithLocation>| #[trigger] lexes(source@, 0, 1, 1, toks, None) && toks.len() == 0;
                lexer::lemma_lexes_same_outcome(source@, 0, 1, 1, toks, None, p.tokens(), p.lex_error());
                parser::lemma_empty_program(p.input());
            }
        }
        let ghost pt = p.tokens();
        proof {
            if p.lex_error() is Some {
                lexer::lemma_lexes_same_outcome(source@, 0, 1, 1, toks@, err, pt, p.lex_error());
            }
            assert(p.input() == lexed_input(pt));
            assert(p.spot() == start_spot());
            lexer::lemma_lexes_same_outcome(source@, 0, 1, 1, toks@, err, pt, p.lex_error());
            lemma_one_parse(source@, pt);
        }
        let program = p.parse_program()?;
        proof {
            assert forall|f: parser::Failure| #[trigger] parses_to_failure(source@, f) implies false by {
                assert(parser::program_at(lexed_input(pt), start_spot()) == parser::ProgramParse::Failed(f));
            }
        }
        proof {
            if no_tokens {
                assert(program.declarations@.len() == parser::decl_models(program.declarations@).len());
                assert(program.declarations@ =~= Seq::<ast::Declaration>::empty());
                assert(semantic::nesting::declarations_nesting(program.declarations@) == 0);
            }
        }
        if semantic::nesting::program_depth(&program) == usize::MAX {
            return Err(CompilerError::internal("Program nests too deeply to analyze"));
        }
        let mut analyzer = semantic::SemanticAnalyzer::new();
        proof {
            assert(analyzer.resolving().generic_params@ =~= Seq::<String>::empty());
            assert(analyzer.resolving().import_aliases@ =~= Seq::<(String, String)>::empty());
        }
        let ghost before = analyzer;
        proof {
            if no_tokens {
                assert(decls_scoped(scope_names(before.analysis_scope()), program.declarations@) is Some);
                assert(decls_fresh(before.table().current(), program.declarations@));
                assert(program_checks(before.checking(), program, kinds(before.phase_table())));
            }
        }
        analyzer.analyze(&program)?;
        proof {
            let t = choose|t: semantic::SymbolTable| t.scopes() == analyzer.table().scopes()
                && t.globals() == analyzer.table().globals()
                && #[trigger] decls_resolve(before.resolving().generic_params@, before.resolving().import_aliases@,
                    program.declarations@, t);
            lemma_kinds_same(t, analyzer.table());
            assert(decls_resolve(Seq::empty(), Seq::empty(), program.declarations@, t)
                && program_checks(top_context(), program, kinds(t)));
        }
        Ok(program)
    }
}

/// Simple compile function: lex the whole source, then parse it. A lexical error anywhere
/// is reported before any syntax error; a source without tokens (empty, or only blanks and
/// comments) compiles.
pub fn compile(source: &str) -> (res: Result<()>)
    requires
        source@.len() + 2 <= usize::MAX,
    ensures
        (exists|toks: Seq<TokenWithLocation>, e: CompilerError| lexes(source@, 0, 1, 1, toks, Some(e)))
            ==> (res matches Err(e) && exists|toks: Seq<TokenWithLocation>| lexes(source@, 0, 1, 1, toks, Some(e))),
        parses_as_stated(source@, res),
{
    let mut lex = Lexer::new(String::from_str(source));
    let (toks, err) = lex.lex_all();
    proof {
        assert(toks@.skip(0) =~= toks@);
        assert forall|t2: Seq<TokenWithLocation>, e: CompilerError|
            lexes(source@, 0, 1, 1, t2, Some(e)) implies err is Some by {
            lexer::lemma_lexes_same_outcome(source@, 0, 1, 1, toks@, err, t2, Some(e));
        }
    }
    match err {
        Some(e) => {
            proof {
                assert forall|t2: Seq<TokenWithLocation>| !lexes(source@, 0, 1, 1, t2, None) by {
                    if lexes(source@, 0, 1, 1, t2, None) {
                        lexer::lemma_lexes_same_outcome(source@, 0, 1, 1, toks@, err, t2, None);
                    }
                }
            }
            return Err(e);
        },
        None => {},
    }
    parse_lexed_source(source, Ghost(toks@))
}

/// `res` is what compiling `source` gave, as far as parsing decides it: a source without tokens
/// compiles; success means some lexing of it parses; a failure that every lexing's parse meets
/// is the error; when every lexing's parse fails, compiling fails, and when every lexing's parse
/// is complete, it succeeds.
pub open spec fn parses_as_stated(source: Seq<char>, res: Result<()>) -> bool {
    &&& (exists|toks: Seq<TokenWithLocation>| #[trigger] lexes(source, 0, 1, 1, toks, None) && toks.len() == 0)
        ==> res is Ok
    &&& res is Ok ==> exists|toks: Seq<TokenWithLocation>| #[trigger] lexes(source, 0, 1, 1, toks, None)
        && !(parser::program_at(lexed_input(toks), start_spot()) is Failed)
    &&& forall|f: parser::Failure| #[trigger] parses_to_failure(source, f) ==> (res is Err && parser::fails_with(res->Err_0, f))
    &&& (exists|toks: Seq<TokenWithLocation>| #[trigger] lexes(source, 0, 1, 1, toks, None))
        && (forall|toks: Seq<TokenWithLocation>| #[trigger] lexes(source, 0, 1, 1, toks, None)
            ==> parser::program_at(lexed_input(toks), start_spot()) is Failed)
        ==> res is Err
    &&& (exists|toks: Seq<TokenWithLocation>| #[trigger] lexes(source, 0, 1, 1, toks, None))
        && (forall|toks: Seq<TokenWithLocation>| #[trigger] lexes(source, 0, 1, 1, toks, None)
            ==> parser::program_at(lexed_input(toks), start_spot()) is Done)
        ==> res is Ok
}

/// Parse a source that lexes without error.
fn parse_lexed_source(source: &str, Ghost(lexed): Ghost<Seq<TokenWithLocation>>) -> (res: Result<()>)
    requires
        source@.len() + 2 <= usize::MAX,
        lexes(source@, 0, 1, 1, lexed, None),
    ensures
        parses_as_stated(source@, res),
{
    let mut p = parser::Parser::new(String::from_str(source), None);
    let ghost pt = p.tokens();
    proof {
        lexer::lemma_lexes_same_outcome(source@, 0, 1, 1, lexed, None, pt, p.lex_error());
        assert(p.input() == lexed_input(pt));
        assert(p.spot() == start_spot());
        assert(lexes(source@, 0, 1, 1, pt, None));
        lemma_one_parse(source@, pt);
        if exists|toks: Seq<TokenWithLocation>| #[trigger] lexes(source@, 0, 1, 1, toks, None) && toks.len() == 0 {
            let toks = choose|toks: Seq<TokenWithLocation>| #[trigger] lexes(source@, 0, 1, 1, toks, None) && toks.len() == 0;
            lexer::lemma_lexes_same_outcome(source@, 0, 1, 1, toks, None, pt, None);
            parser::lemma_empty_program(p.input());
        }
    }
    let ghost o = parser::program_at(lexed_input(pt), start_spot());
    match p.parse_program() {
        Ok(_) => {
            let res: Result<()> = Ok(());
            proof {
                assert(!(o is Failed));
                assert(lexes(source@, 0, 1, 1, pt, None) && !(parser::program_at(lexed_input(pt), start_spot()) is Failed));
                assert forall|f: parser::Failure| #[trigger] parses_to_failure(source@, f)
                    implies (res is Err && parser::fails_with(res->Err_0, f)) by {
                    assert(o == parser::ProgramParse::Failed(f));
                }
            }
            res
        },
        Err(e) => {
            let res: Result<()> = Err(e);
            proof {
                assert(!(o is Done));
                assert forall|f: parser::Failure| #[trigger] parses_to_failure(source@, f)
                    implies (res is Err && parser::fails_with(res->Err_0, f)) by {
                    assert(o == parser::ProgramParse::Failed(f));
                }
            }
            res
        },
    }
}

} // verus!
