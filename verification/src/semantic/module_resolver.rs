//! Module resolver for Nature language: where an import's module lives, and what a module
//! exports
use vstd::prelude::*;
use crate::ast::{Declaration, ImportDecl};
use crate::error::{CompilerError, Result};
use crate::parser::Parser;
use crate::text::{concat, concat3};
use super::symbol_table::{assoc_get, distinct_keys, find_entry, key_index, lemma_key_index_bounds, lemma_assoc_push, lemma_assoc_set, lemma_push_keeps_distinct};

verus! {

/// A resolved module
#[derive(Debug)]
pub struct Module {
    /// Module path
    pub path: String,
    /// Module declarations
    pub declarations: Vec<Declaration>,
    /// Exported symbols, by name
    pub exports: Vec<(String, ExportInfo)>,
}

/// Information about an exported symbol
#[derive(Debug)]
pub struct ExportInfo {
    /// Symbol name
    pub name: String,
    /// Symbol type
    pub symbol_type: ExportType,
    /// Original declaration
    pub declaration: Declaration,
}

/// Type of exported symbol
#[derive(Debug, Clone, Copy, PartialEq, Eq)]
pub enum ExportType {
    /// An exported function
    Function,
    /// An exported variable
    Variable,
    /// An exported constant
    Constant,
    /// An exported type
    Type,
    /// An exported struct
    Struct,
    /// An exported interface
    Interface,
}

/// The kind a declaration is exported as; imports and implementation blocks export nothing.
pub open spec fn export_kind(d: Declaration) -> Option<ExportType> {
    match d {
        Declaration::Function(_) => Some(ExportType::Function),
        Declaration::Variable(_) => Some(ExportType::Variable),
        Declaration::Constant(_) => Some(ExportType::Constant),
        Declaration::Type(_) => Some(ExportType::Type),
        Declaration::Struct(_) => Some(ExportType::Struct),
        Declaration::Interface(_) => Some(ExportType::Interface),
        _ => None,
    }
}

/// The index of the last of the first `n` declarations of `ds` that exports `name`, or -1.
pub open spec fn last_export(ds: Seq<Declaration>, n: int, name: Seq<char>) -> int
    decreases n,
{
    if n <= 0 {
        -1
    } else if export_kind(ds[n - 1]) is Some && ds[n - 1].spec_name() == name {
        n - 1
    } else {
        last_export(ds, n - 1, name)
    }
}

/// `info` describes the export of declaration `d`.
pub open spec fn describes(info: ExportInfo, d: Declaration) -> bool {
    &&& info.name@ == d.spec_name()
    &&& export_kind(d) == Some(info.symbol_type)
    &&& info.declaration.spec_name() == d.spec_name()
    &&& info.declaration.spec_location() == d.spec_location()
}

/// `e` holds, under each name, the export of the last of the first `n` declarations of `ds`
/// carrying that name, and nothing else.
pub open spec fn exports_of(e: Seq<(String, ExportInfo)>, ds: Seq<Declaration>, n: int) -> bool {
    &&& distinct_keys(e)
    &&& forall|m: Seq<char>| #[trigger] assoc_get(e, m) is Some <==> last_export(ds, n, m) >= 0
    &&& forall|m: Seq<char>| #[trigger] assoc_get(e, m) matches Some(info)
        ==> describes(info, ds[last_export(ds, n, m)])
}

/// The number of `"` characters `s` starts with.
pub open spec fn leading_quotes(s: Seq<char>) -> nat
    decreases s.len(),
{
    if s.len() == 0 || s[0] != '"' { 0 } else { 1 + leading_quotes(s.drop_first()) }
}

/// The number of `"` characters `s` ends with.
pub open spec fn trailing_quotes(s: Seq<char>) -> nat
    decreases s.len(),
{
    if s.len() == 0 || s.last() != '"' { 0 } else { 1 + trailing_quotes(s.drop_last()) }
}

/// `s` with the `"` characters at either end removed.
pub open spec fn trim_quotes(s: Seq<char>) -> Seq<char> {
    let a = leading_quotes(s);
    if a == s.len() { Seq::empty() } else { s.subrange(a as int, s.len() - trailing_quotes(s)) }
}

/// A module path that names a file relative to the base directory.
pub open spec fn joins_base(p: Seq<char>) -> bool {
    "./"@.is_prefix_of(p) || "../"@.is_prefix_of(p) || "std/"@.is_prefix_of(p)
}

/// The message of a module that does not parse.
pub open spec fn parse_failure_message(path: Seq<char>, e: CompilerError) -> Seq<char> {
    "Failed to parse module '"@ + path + "': "@ + e.spec_to_string()
}

/// Module resolver for handling import statements
pub struct ModuleResolver {
    /// Resolved modules, by path
    modules: Vec<(String, Module)>,
    /// Base directory for resolving relative imports
    base_dir: String,
}

proof fn lemma_leading_quotes_bound(s: Seq<char>)
    ensures
        leading_quotes(s) <= s.len(),
        forall|i: int| 0 <= i < leading_quotes(s) ==> s[i] == '"',
        leading_quotes(s) < s.len() ==> s[leading_quotes(s) as int] != '"',
    decreases s.len(),
{
    if s.len() > 0 && s[0] == '"' {
        lemma_leading_quotes_bound(s.drop_first());
        assert forall|i: int| 0 <= i < leading_quotes(s) implies s[i] == '"' by {
            if i > 0 {
                assert(s[i] == s.drop_first()[i - 1]);
            }
        }
    }
}

/// Leading quotes counted from `i` on, as a loop sees them.
proof fn lemma_leading_quotes_from(s: Seq<char>, i: int)
    requires
        0 <= i <= s.len(),
        forall|k: int| 0 <= k < i ==> s[k] == '"',
    ensures
        leading_quotes(s) == i + leading_quotes(s.skip(i)),
    decreases i,
{
    if i > 0 {
        assert(s.drop_first().skip(i - 1) =~= s.skip(i));
        lemma_leading_quotes_from(s.drop_first(), i - 1);
    } else {
        assert(s.skip(0) =~= s);
    }
}

/// Trailing quotes counted from `j` down, as a loop sees them.
proof fn lemma_trailing_quotes_from(s: Seq<char>, j: int)
    requires
        0 <= j <= s.len(),
        forall|k: int| j <= k < s.len() ==> s[k] == '"',
    ensures
        trailing_quotes(s) == (s.len() - j) + trailing_quotes(s.take(j)),
    decreases s.len() - j,
{
    if j < s.len() {
        assert(s.drop_last().take(j) =~= s.take(j));
        lemma_trailing_quotes_from(s.drop_last(), j);
    } else {
        assert(s.take(j) =~= s);
    }
}

/// `s` with the `"` characters at either end removed (as `trim_matches('"')` does).
fn trim_quotes_exec(s: &str) -> (res: String)
    ensures
        res@ == trim_quotes(s@),
{
    let n = s.unicode_len();
    let mut i: usize = 0;
    while i < n && s.get_char(i) == '"'
        invariant
            n == s@.len(),
            i <= n,
            forall|k: int| 0 <= k < i ==> s@[k] == '"',
        decreases n - i,
    {
        i = i + 1;
    }
    proof {
        lemma_leading_quotes_from(s@, i as int);
        if i < n {
            assert(s@.skip(i as int)[0] == s@[i as int]);
        }
        assert(leading_quotes(s@) == i);
    }
    if i == n {
        return String::new();
    }
    let mut j: usize = n;
    while j > i && s.get_char(j - 1) == '"'
        invariant
            n == s@.len(),
            i < j <= n || (i == j && j < n),
            i < n,
            forall|k: int| j <= k < n ==> s@[k] == '"',
        decreases j,
    {
        j = j - 1;
    }
    proof {
        lemma_leading_quotes_bound(s@);
        lemma_trailing_quotes_from(s@, j as int);
        if j > 0 {
            assert(s@.take(j as int).last() == s@[j - 1]);
        }
        if j == i {
            assert(s@[i as int] != '"');
            assert(false);
        }
        assert(trailing_quotes(s@.take(j as int)) == 0);
    }
    String::from_str(s.substring_char(i, j))
}

/// Whether `s` starts with `p`.
fn starts_with(s: &str, p: &str) -> (res: bool)
    ensures
        res == p@.is_prefix_of(s@),
{
    let n = s.unicode_len();
    let m = p.unicode_len();
    if m > n {
        return false;
    }
    let mut i: usize = 0;
    while i < m
        invariant
            n == s@.len(),
            m == p@.len(),
            m <= n,
            i <= m,
            forall|k: int| 0 <= k < i ==> s@[k] == p@[k],
        decreases m - i,
    {
        if s.get_char(i) != p.get_char(i) {
            return false;
        }
        i = i + 1;
    }
    true
}

/// A Windows base directory in verbatim form (`\\?\`), which `Path::join` normalizes.
pub open spec fn verbatim_dir(base: Seq<char>) -> bool {
    "\\\\?\\"@.is_prefix_of(base)
}

/// `joined` reads `base`, then what separates them, then `path`.
pub open spec fn joins_to(base: Seq<char>, path: Seq<char>, joined: Seq<char>) -> bool {
    &&& joined.len() >= base.len() + path.len()
    &&& base.is_prefix_of(joined)
    &&& joined.subrange(joined.len() - path.len(), joined.len() as int) == path
}

/// The base directory with a relative path joined to it (calls `std::path::Path::join`, then
/// `to_string_lossy` on the valid text it gives). Claimed: outside a verbatim base, the result
/// starts with the base and ends with the path, as `PathBuf::push` documents for a path with
/// neither root nor prefix. Not stated: the separator between them, which depends on the
/// platform, and the result under a verbatim base, which is normalized.
#[verifier::external_body]
fn join_path(base: &str, path: &str) -> (res: String)
    requires
        joins_base(path@),
    ensures
        !verbatim_dir(base@) ==> joins_to(base@, path@, res@),
{
    std::path::Path::new(base).join(path).to_string_lossy().to_string()
}

proof fn lemma_key_index_set<V>(e: Seq<(String, V)>, i: int, x: (String, V), m: Seq<char>, j: int)
    requires
        0 <= i < e.len(),
        0 <= j <= e.len(),
        e[i].0@ == x.0@,
    ensures
        key_index(e.update(i, x), m, j) == key_index(e, m, j),
    decreases e.len() - j,
{
    if j < e.len() {
        lemma_key_index_set(e, i, x, m, j + 1);
    }
}

/// The entry of `e` at `i` is replaced by one with an equal key: every other name finds what
/// it found.
proof fn lemma_assoc_set_others<V>(e: Seq<(String, V)>, i: int, x: (String, V), m: Seq<char>)
    requires
        0 <= i < e.len(),
        e[i].0@ == x.0@,
        m != x.0@,
    ensures
        assoc_get(e.update(i, x), m) == assoc_get(e, m),
{
    lemma_key_index_set(e, i, x, m, 0);
    lemma_key_index_bounds(e, m, 0);
}

proof fn lemma_exports_step(before: Seq<(String, ExportInfo)>, after: Seq<(String, ExportInfo)>, ds: Seq<Declaration>, i: int, info: ExportInfo)
    requires
        0 <= i < ds.len(),
        exports_of(before, ds, i),
        export_kind(ds[i]) is Some,
        describes(info, ds[i]),
        distinct_keys(after),
        assoc_get(after, ds[i].spec_name()) == Some(info),
        forall|m: Seq<char>| m != ds[i].spec_name() ==> assoc_get(after, m) == assoc_get(before, m),
    ensures
        exports_of(after, ds, i + 1),
{
    assert forall|m: Seq<char>| #[trigger] assoc_get(after, m) is Some <==> last_export(ds, i + 1, m) >= 0 by {
        if m != ds[i].spec_name() {
            assert(assoc_get(after, m) == assoc_get(before, m));
        }
    }
    assert forall|m: Seq<char>| #[trigger] assoc_get(after, m) matches Some(x)
        ==> describes(x, ds[last_export(ds, i + 1, m)]) by {
        if m != ds[i].spec_name() {
            assert(assoc_get(after, m) == assoc_get(before, m));
        }
    }
}

proof fn lemma_exports_skip(e: Seq<(String, ExportInfo)>, ds: Seq<Declaration>, i: int)
    requires
        0 <= i < ds.len(),
        exports_of(e, ds, i),
        export_kind(ds[i]) is None,
    ensures
        exports_of(e, ds, i + 1),
{
    assert forall|m: Seq<char>| last_export(ds, i + 1, m) == last_export(ds, i, m) by {}
}

impl ModuleResolver {
    /// The resolved modules, by path.
    pub closed spec fn loaded(&self) -> Seq<(String, Module)> {
        self.modules@
    }

    /// The base directory.
    pub closed spec fn base(&self) -> Seq<char> {
        self.base_dir@
    }

    /// The resolver's invariant: no path twice.
    pub open spec fn wf(&self) -> bool {
        distinct_keys(self.loaded())
    }

    /// Create a new module resolver
    pub fn new(base_dir: String) -> (res: Self)
        ensures
            res.wf(),
            res.loaded().len() == 0,
            res.base() == base_dir@,
    {
        ModuleResolver { modules: Vec::new(), base_dir }
    }

    /// Resolve an import declaration: unless a module is resolved at its path already, the
    /// module is made from `content`, the text of the file at that path (which the caller reads
    /// when no module stands at the path), and recorded under the path.
    pub fn resolve_import(&mut self, import: &ImportDecl, content: String) -> (res: Result<()>)
        requires
            old(self).wf(),
            content@.len() + 2 <= usize::MAX,
        ensures
            final(self).wf(),
            final(self).base() == old(self).base(),
            res is Err ==> *final(self) == *old(self)
                && (res->Err_0 matches CompilerError::Internal { message }
                && exists|pe: CompilerError, q: Seq<char>| message@ == #[trigger] parse_failure_message(q, pe)),
            res is Ok ==> exists|q: Seq<char>| {
                &&& #[trigger] assoc_get(final(self).loaded(), q) matches Some(m)
                &&& !joins_base(trim_quotes(import.path@)) ==> q == trim_quotes(import.path@)
                &&& assoc_get(old(self).loaded(), q) is Some ==> *final(self) == *old(self)
                &&& assoc_get(old(self).loaded(), q) is None ==> m.path@ == q
                    && exports_of(m.exports@, m.declarations@, m.declarations@.len() as int)
                &&& forall|o: Seq<char>| o != q ==> #[trigger] assoc_get(final(self).loaded(), o) == assoc_get(old(self).loaded(), o)
            },
            !joins_base(trim_quotes(import.path@)) && assoc_get(old(self).loaded(), trim_quotes(import.path@)) is Some
                ==> res is Ok && *final(self) == *old(self),
    {
        let path = self.resolve_module_path(import.path.as_str())?;
        if self.get_module(path.as_str()).is_none() {
            let module = self.load_module(path.as_str(), content)?;
            self.insert_module(path, module);
        }
        Ok(())
    }

    /// Resolve module path from import path: without its quotes; a path starting with `./`,
    /// `../` or `std/` is joined to the base directory, any other is kept as it is
    pub fn resolve_module_path(&self, import_path: &str) -> (res: Result<String>)
        ensures
            res is Ok,
            !joins_base(trim_quotes(import_path@)) ==> res->Ok_0@ == trim_quotes(import_path@),
            joins_base(trim_quotes(import_path@)) && !verbatim_dir(self.base())
                ==> joins_to(self.base(), trim_quotes(import_path@), res->Ok_0@),
    {
        let path = trim_quotes_exec(import_path);
        proof {
            reveal_strlit("./");
            reveal_strlit("../");
            reveal_strlit("std/");
        }
        if starts_with(path.as_str(), "./") || starts_with(path.as_str(), "../") {
            Ok(join_path(self.base_dir.as_str(), path.as_str()))
        } else if starts_with(path.as_str(), "std/") {
            Ok(join_path(self.base_dir.as_str(), path.as_str()))
        } else {
            Ok(path)
        }
    }

    /// Parse the text of a module and gather what it exports
    pub fn load_module(&self, mod_path: &str, content: String) -> (res: Result<Module>)
        requires
            content@.len() + 2 <= usize::MAX,
        ensures
            res matches Ok(m) ==> m.path@ == mod_path@ && exports_of(m.exports@, m.declarations@, m.declarations@.len() as int),
            res matches Err(e) ==> e matches CompilerError::Internal { message }
                && exists|pe: CompilerError| message@ == #[trigger] parse_failure_message(mod_path@, pe),
    {
        let mut parser = Parser::new(content, Some(String::from_str(mod_path)));
        let program = match parser.parse_program() {
            Ok(p) => p,
            Err(e) => {
                let text = e.to_string();
                let head = concat3("Failed to parse module '", mod_path, "': ");
                let message = concat(head.as_str(), text.as_str());
                proof {
                    assert(message@ == parse_failure_message(mod_path@, e));
                }
                return Err(CompilerError::internal(message.as_str()));
            },
        };
        let exports = self.extract_exports(&program.declarations)?;
        Ok(Module { path: String::from_str(mod_path), declarations: program.declarations, exports })
    }

    /// Extract exported symbols from module declarations: under each name, the last
    /// declaration carrying it
    fn extract_exports(&self, declarations: &Vec<Declaration>) -> (res: Result<Vec<(String, ExportInfo)>>)
        ensures
            res matches Ok(e) && exports_of(e@, declarations@, declarations@.len() as int),
    {
        let ghost ds = declarations@;
        let mut exports: Vec<(String, ExportInfo)> = Vec::new();
        let mut i: usize = 0;
        while i < declarations.len()
            invariant
                ds == declarations@,
                i <= ds.len(),
                exports_of(exports@, ds, i as int),
            decreases ds.len() - i,
        {
            let decl = &declarations[i];
            let kind = match decl {
                Declaration::Function(_) => Some(ExportType::Function),
                Declaration::Variable(_) => Some(ExportType::Variable),
                Declaration::Constant(_) => Some(ExportType::Constant),
                Declaration::Type(_) => Some(ExportType::Type),
                Declaration::Struct(_) => Some(ExportType::Struct),
                Declaration::Interface(_) => Some(ExportType::Interface),
                _ => None,
            };
            assert(kind == export_kind(ds[i as int]));
            match kind {
                Some(symbol_type) => {
                    if self.is_exported(decl) {
                        let name = String::from_str(decl.name());
                        let info = ExportInfo { name: name.clone(), symbol_type, declaration: decl.clone() };
                        let ghost before = exports@;
                        let ghost entry = (name, info);
                        proof {
                            assert(describes(info, ds[i as int]));
                        }
                        match find_entry(&exports, name.as_str()) {
                            Some(k) => {
                                exports.set(k, (name, info));
                                proof {
                                    lemma_assoc_set(before, k as int, entry);
                                    assert forall|m: Seq<char>| m != name@ implies
                                        assoc_get(exports@, m) == assoc_get(before, m) by {
                                        lemma_assoc_set_others(before, k as int, entry, m);
                                    }
                                    assert forall|a: int, b: int| 0 <= a < b < exports@.len() implies
                                        #[trigger] exports@[a].0@ != #[trigger] exports@[b].0@ by {
                                        assert(before[a].0@ != before[b].0@);
                                    }
                                    lemma_exports_step(before, exports@, ds, i as int, info);
                                }
                            },
                            None => {
                                exports.push((name, info));
                                proof {
                                    assert forall|m: Seq<char>| m != name@ implies
                                        assoc_get(exports@, m) == assoc_get(before, m) by {
                                        lemma_assoc_push(before, name, info, m);
                                    }
                                    lemma_assoc_push(before, name, info, name@);
                                    lemma_push_keeps_distinct(before, entry);
                                    lemma_exports_step(before, exports@, ds, i as int, info);
                                }
                            },
                        }
                    }
                },
                None => {
                    proof {
                        lemma_exports_skip(exports@, ds, i as int);
                    }
                },
            }
            i = i + 1;
        }
        Ok(exports)
    }

    /// Check if a declaration is exported: every declaration is
    fn is_exported(&self, decl: &Declaration) -> (res: bool)
        ensures
            res,
    {
        true
    }

    /// Record a resolved module under its path, in place of one resolved before under it
    pub fn insert_module(&mut self, path: String, module: Module)
        requires
            old(self).wf(),
        ensures
            final(self).wf(),
            final(self).base() == old(self).base(),
            assoc_get(final(self).loaded(), path@) == Some(module),
            forall|m: Seq<char>| m != path@ ==> #[trigger] assoc_get(final(self).loaded(), m) == assoc_get(old(self).loaded(), m),
    {
        let ghost before = self.modules@;
        match find_entry(&self.modules, path.as_str()) {
            Some(k) => {
                let ghost entry = (path, module);
                self.modules.set(k, (path, module));
                proof {
                    lemma_assoc_set(before, k as int, entry);
                    assert forall|m: Seq<char>| m != entry.0@ implies
                        #[trigger] assoc_get(self.modules@, m) == assoc_get(before, m) by {
                        lemma_assoc_set_others(before, k as int, entry, m);
                    }
                    assert forall|a: int, b: int| 0 <= a < b < self.modules@.len() implies
                        #[trigger] self.modules@[a].0@ != #[trigger] self.modules@[b].0@ by {
                        assert(before[a].0@ != before[b].0@);
                    }
                }
            },
            None => {
                let ghost entry = (path, module);
                self.modules.push((path, module));
                proof {
                    assert forall|m: Seq<char>| m != entry.0@ implies
                        #[trigger] assoc_get(self.modules@, m) == assoc_get(before, m) by {
                        lemma_assoc_push(before, entry.0, entry.1, m);
                    }
                    lemma_assoc_push(before, entry.0, entry.1, entry.0@);
                    lemma_push_keeps_distinct(before, entry);
                }
            },
        }
    }

    /// Get a module by path
    pub fn get_module(&self, path: &str) -> (res: Option<&Module>)
        ensures
            res is Some == assoc_get(self.loaded(), path@) is Some,
            res matches Some(m) ==> assoc_get(self.loaded(), path@) == Some(*m),
    {
        match find_entry(&self.modules, path) {
            Some(k) => Some(&self.modules[k].1),
            None => None,
        }
    }

    /// Get all loaded modules
    pub fn get_modules(&self) -> (res: &Vec<(String, Module)>)
        ensures
            res@ == self.loaded(),
    {
        &self.modules
    }
}

} // verus!
