//! Declaration AST nodes for Nature language
use vstd::prelude::*;
use crate::error::Location;
use crate::ast::types::{Type, Parameter};
use crate::ast::expr::Expression;
use crate::ast::{Block, StructField};
use crate::text::text_eq;

verus! {

/// All possible declarations in Nature
#[derive(Debug)]
pub enum Declaration {
    /// Function declaration
    Function(FunctionDecl),
    /// Variable declaration
    Variable(VariableDecl),
    /// Constant declaration
    Constant(ConstantDecl),
    /// Type declaration
    Type(TypeDecl),
    /// Struct declaration
    Struct(StructDecl),
    /// Interface declaration
    Interface(InterfaceDecl),
    /// Import declaration
    Import(ImportDecl),
    /// Implementation declaration
    Impl(ImplDecl),
}

/// Function declaration
#[derive(Debug)]
pub struct FunctionDecl {
    /// Function name
    pub name: String,
    /// Generic type parameters
    pub generics: Vec<GenericParam>,
    /// Function parameters
    pub parameters: Vec<Parameter>,
    /// Return type
    pub return_type: Option<Type>,
    /// Function body
    pub body: Option<Block>,
    /// Function attributes
    pub attributes: Vec<Attribute>,
    /// Location in source
    pub location: Location,
}

/// Generic type parameter
#[derive(Debug)]
pub struct GenericParam {
    /// Parameter name
    pub name: String,
    /// Type constraints
    pub constraints: Vec<Type>,
    /// Location in source
    pub location: Location,
}

/// Variable declaration
#[derive(Debug)]
pub struct VariableDecl {
    /// Variable name
    pub name: String,
    /// Variable type (if specified)
    pub var_type: Option<Type>,
    /// Initial value
    pub initializer: Option<Expression>,
    /// Is mutable
    pub mutable: bool,
    /// Location in source
    pub location: Location,
}

/// Constant declaration
#[derive(Debug)]
pub struct ConstantDecl {
    /// Constant name
    pub name: String,
    /// Constant type (if specified)
    pub const_type: Option<Type>,
    /// Constant value
    pub value: Expression,
    /// Location in source
    pub location: Location,
}

/// Type declaration
#[derive(Debug)]
pub struct TypeDecl {
    /// Type name
    pub name: String,
    /// Type definition
    pub type_def: Type,
    /// Location in source
    pub location: Location,
}

/// Struct declaration
#[derive(Debug)]
pub struct StructDecl {
    /// Struct name
    pub name: String,
    /// Generic type parameters
    pub generics: Vec<GenericParam>,
    /// Struct fields
    pub fields: Vec<StructField>,
    /// Struct methods
    pub methods: Vec<FunctionDecl>,
    /// Location in source
    pub location: Location,
}

/// Interface declaration
#[derive(Debug)]
pub struct InterfaceDecl {
    /// Interface name
    pub name: String,
    /// Generic type parameters
    pub generics: Vec<GenericParam>,
    /// Interface methods
    pub methods: Vec<InterfaceMethod>,
    /// Location in source
    pub location: Location,
}

/// Interface method
#[derive(Debug)]
pub struct InterfaceMethod {
    /// Method name
    pub name: String,
    /// Method parameters
    pub parameters: Vec<Parameter>,
    /// Return type
    pub return_type: Option<Type>,
    /// Location in source
    pub location: Location,
}

/// Import declaration
#[derive(Debug)]
pub struct ImportDecl {
    /// Import path
    pub path: String,
    /// Imported items (if specific imports)
    pub items: Option<Vec<String>>,
    /// Alias (if renamed)
    pub alias: Option<String>,
    /// Location in source
    pub location: Location,
}

/// Implementation declaration (Rust-style: impl Type { ... })
#[derive(Debug)]
pub struct ImplDecl {
    /// Type name being implemented
    pub self_type: String,
    /// Generic type parameters
    pub generics: Vec<GenericParam>,
    /// Methods in this implementation
    pub methods: Vec<FunctionDecl>,
    /// Location in source
    pub location: Location,
}

/// Function or method attribute
#[derive(Debug)]
pub struct Attribute {
    /// Attribute name
    pub name: String,
    /// Attribute arguments
    pub arguments: Vec<Expression>,
    /// Location in source
    pub location: Location,
}

impl Declaration {
    /// The location a declaration carries.
    pub open spec fn spec_location(&self) -> Location {
        match self {
            Declaration::Function(d) => d.location,
            Declaration::Variable(d) => d.location,
            Declaration::Constant(d) => d.location,
            Declaration::Type(d) => d.location,
            Declaration::Struct(d) => d.location,
            Declaration::Interface(d) => d.location,
            Declaration::Import(d) => d.location,
            Declaration::Impl(d) => d.location,
        }
    }

    /// The name a declaration carries: the import path for imports, the implemented type for
    /// impl blocks.
    pub open spec fn spec_name(&self) -> Seq<char> {
        match self {
            Declaration::Function(d) => d.name@,
            Declaration::Variable(d) => d.name@,
            Declaration::Constant(d) => d.name@,
            Declaration::Type(d) => d.name@,
            Declaration::Struct(d) => d.name@,
            Declaration::Interface(d) => d.name@,
            Declaration::Import(d) => d.path@,
            Declaration::Impl(d) => d.self_type@,
        }
    }

    /// Get the location of this declaration
    pub fn location(&self) -> (res: Location)
        ensures
            res == self.spec_location(),
    {
        match self {
            Declaration::Function(d) => d.location,
            Declaration::Variable(d) => d.location,
            Declaration::Constant(d) => d.location,
            Declaration::Type(d) => d.location,
            Declaration::Struct(d) => d.location,
            Declaration::Interface(d) => d.location,
            Declaration::Import(d) => d.location,
            Declaration::Impl(d) => d.location,
        }
    }

    /// Get the name of this declaration
    pub fn name(&self) -> (res: &str)
        ensures
            res@ == self.spec_name(),
    {
        match self {
            Declaration::Function(d) => d.name.as_str(),
            Declaration::Variable(d) => d.name.as_str(),
            Declaration::Constant(d) => d.name.as_str(),
            Declaration::Type(d) => d.name.as_str(),
            Declaration::Struct(d) => d.name.as_str(),
            Declaration::Interface(d) => d.name.as_str(),
            Declaration::Import(d) => d.path.as_str(),
            Declaration::Impl(d) => d.self_type.as_str(),
        }
    }
}

/// Some attribute in `attrs` is named `name`.
pub open spec fn has_attribute(attrs: Seq<Attribute>, name: Seq<char>) -> bool {
    exists|i: int| 0 <= i < attrs.len() && #[trigger] attrs[i].name@ == name
}

/// Whether some attribute of the list has the given name.
pub fn any_attribute_named(attrs: &Vec<Attribute>, name: &str) -> (res: bool)
    ensures
        res == has_attribute(attrs@, name@),
{
    let mut i: usize = 0;
    while i < attrs.len()
        invariant
            i <= attrs@.len(),
            forall|k: int| 0 <= k < i ==> attrs@[k].name@ != name@,
        decreases attrs.len() - i,
    {
        if text_eq(attrs[i].name.as_str(), name) {
            return true;
        }
        i = i + 1;
    }
    false
}

impl FunctionDecl {
    /// Check if this function is a method
    pub fn is_method(&self) -> (res: bool)
        ensures
            res == has_attribute(self.attributes@, "method"@),
    {
        any_attribute_named(&self.attributes, "method")
    }

    /// Check if this function is a constructor
    pub fn is_constructor(&self) -> (res: bool)
        ensures
            res == has_attribute(self.attributes@, "constructor"@),
    {
        any_attribute_named(&self.attributes, "constructor")
    }

    /// Check if this function is a destructor
    pub fn is_destructor(&self) -> (res: bool)
        ensures
            res == has_attribute(self.attributes@, "destructor"@),
    {
        any_attribute_named(&self.attributes, "destructor")
    }

    /// Get the receiver type if this is a method
    pub fn receiver_type(&self) -> (res: Option<&Type>)
        ensures
            res is Some <==> has_attribute(self.attributes@, "method"@) && self.parameters@.len() > 0,
            res matches Some(t) ==> *t == self.parameters@[0].param_type,
    {
        if self.is_method() && self.parameters.len() > 0 {
            Some(&self.parameters[0].param_type)
        } else {
            None
        }
    }
}

/// The first position in `names` holding `name`, if any.
pub open spec fn first_named(names: Seq<Seq<char>>, name: Seq<char>) -> Option<int> {
    if exists|i: int| 0 <= i < names.len() && names[i] == name {
        Some(choose|i: int| 0 <= i < names.len() && names[i] == name
            && forall|j: int| 0 <= j < i ==> names[j] != name)
    } else {
        None
    }
}

/// The names of struct fields.
pub open spec fn field_names(fields: Seq<StructField>) -> Seq<Seq<char>> {
    fields.map_values(|f: StructField| f.name@)
}

/// The names of functions.
pub open spec fn function_names(fs: Seq<FunctionDecl>) -> Seq<Seq<char>> {
    fs.map_values(|f: FunctionDecl| f.name@)
}

/// The names of interface methods.
pub open spec fn interface_method_names(ms: Seq<InterfaceMethod>) -> Seq<Seq<char>> {
    ms.map_values(|m: InterfaceMethod| m.name@)
}

/// Position of the first name equal to `name`.

/// What `first_named` finds is a position holding the name, and it finds one exactly when the
/// name occurs.
pub proof fn lemma_first_named_props(names: Seq<Seq<char>>, name: Seq<char>)
    ensures
        first_named(names, name) matches Some(i) ==> 0 <= i < names.len() && names[i] == name,
        first_named(names, name) is None <==> !names.contains(name),
{
    if exists|i: int| 0 <= i < names.len() && names[i] == name {
        let w = choose|i: int| 0 <= i < names.len() && names[i] == name;
        lemma_least_exists(names, name, w);
    }
}

proof fn lemma_least_exists(names: Seq<Seq<char>>, name: Seq<char>, w: int)
    requires
        0 <= w < names.len(),
        names[w] == name,
    ensures
        exists|i: int| 0 <= i < names.len() && names[i] == name
            && forall|j: int| 0 <= j < i ==> names[j] != name,
    decreases w,
{
    if exists|j: int| 0 <= j < w && names[j] == name {
        let j = choose|j: int| 0 <= j < w && names[j] == name;
        lemma_least_exists(names, name, j);
    } else {
        assert(forall|j: int| 0 <= j < w ==> names[j] != name);
    }
}

proof fn lemma_first_named(names: Seq<Seq<char>>, name: Seq<char>, i: int)
    requires
        0 <= i < names.len(),
        names[i] == name,
        forall|j: int| 0 <= j < i ==> names[j] != name,
    ensures
        first_named(names, name) == Some(i),
{
    let k = choose|k: int| 0 <= k < names.len() && names[k] == name
        && forall|j: int| 0 <= j < k ==> names[j] != name;
    assert(k == i) by {
        if k < i {
            assert(names[k] != name);
        } else if k > i {
            assert(names[i] != name);
        }
    }
}

impl StructDecl {
    /// Position of the first field with the given name.
    fn field_index(&self, name: &str) -> (res: Option<usize>)
        ensures
            res matches Some(i) ==> i < self.fields@.len() && first_named(field_names(self.fields@), name@) == Some(i as int),
            res is None ==> first_named(field_names(self.fields@), name@) is None,
    {
        let mut i: usize = 0;
        while i < self.fields.len()
            invariant
                i <= self.fields@.len(),
                forall|j: int| 0 <= j < i ==> self.fields@[j].name@ != name@,
            decreases self.fields.len() - i,
        {
            if text_eq(self.fields[i].name.as_str(), name) {
                proof {
                    lemma_first_named(field_names(self.fields@), name@, i as int);
                }
                return Some(i);
            }
            i = i + 1;
        }
        proof {
            assert(!exists|k: int| 0 <= k < field_names(self.fields@).len() && field_names(self.fields@)[k] == name@);
        }
        None
    }

    /// Position of the first method with the given name.
    fn method_index(&self, name: &str) -> (res: Option<usize>)
        ensures
            res matches Some(i) ==> i < self.methods@.len() && first_named(function_names(self.methods@), name@) == Some(i as int),
            res is None ==> first_named(function_names(self.methods@), name@) is None,
    {
        let mut i: usize = 0;
        while i < self.methods.len()
            invariant
                i <= self.methods@.len(),
                forall|j: int| 0 <= j < i ==> self.methods@[j].name@ != name@,
            decreases self.methods.len() - i,
        {
            if text_eq(self.methods[i].name.as_str(), name) {
                proof {
                    lemma_first_named(function_names(self.methods@), name@, i as int);
                }
                return Some(i);
            }
            i = i + 1;
        }
        proof {
            assert(!exists|k: int| 0 <= k < function_names(self.methods@).len() && function_names(self.methods@)[k] == name@);
        }
        None
    }

    /// Get a field by name
    pub fn get_field(&self, name: &str) -> (res: Option<&StructField>)
        ensures
            match first_named(field_names(self.fields@), name@) {
                Some(i) => res matches Some(f) && *f == self.fields@[i],
                None => res is None,
            },
    {
        match self.field_index(name) {
            Some(i) => Some(&self.fields[i]),
            None => None,
        }
    }

    /// Get a method by name
    pub fn get_method(&self, name: &str) -> (res: Option<&FunctionDecl>)
        ensures
            match first_named(function_names(self.methods@), name@) {
                Some(i) => res matches Some(f) && *f == self.methods@[i],
                None => res is None,
            },
    {
        match self.method_index(name) {
            Some(i) => Some(&self.methods[i]),
            None => None,
        }
    }

    /// Check if this struct has a field with the given name
    pub fn has_field(&self, name: &str) -> (res: bool)
        ensures
            res == field_names(self.fields@).contains(name@),
    {
        let r = self.field_index(name);
        proof {
            lemma_first_named_props(field_names(self.fields@), name@);
        }
        r.is_some()
    }

    /// Check if this struct has a method with the given name
    pub fn has_method(&self, name: &str) -> (res: bool)
        ensures
            res == function_names(self.methods@).contains(name@),
    {
        let r = self.method_index(name);
        proof {
            lemma_first_named_props(function_names(self.methods@), name@);
        }
        r.is_some()
    }
}

impl InterfaceDecl {
    fn method_index(&self, name: &str) -> (res: Option<usize>)
        ensures
            res matches Some(i) ==> i < self.methods@.len() && first_named(interface_method_names(self.methods@), name@) == Some(i as int),
            res is None ==> first_named(interface_method_names(self.methods@), name@) is None,
    {
        let mut i: usize = 0;
        while i < self.methods.len()
            invariant
                i <= self.methods@.len(),
                forall|j: int| 0 <= j < i ==> self.methods@[j].name@ != name@,
            decreases self.methods.len() - i,
        {
            if text_eq(self.methods[i].name.as_str(), name) {
                proof {
                    lemma_first_named(interface_method_names(self.methods@), name@, i as int);
                }
                return Some(i);
            }
            i = i + 1;
        }
        proof {
            assert(!exists|k: int| 0 <= k < interface_method_names(self.methods@).len() && interface_method_names(self.methods@)[k] == name@);
        }
        None
    }

    /// Get a method by name
    pub fn get_method(&self, name: &str) -> (res: Option<&InterfaceMethod>)
        ensures
            match first_named(interface_method_names(self.methods@), name@) {
                Some(i) => res matches Some(m) && *m == self.methods@[i],
                None => res is None,
            },
    {
        match self.method_index(name) {
            Some(i) => Some(&self.methods[i]),
            None => None,
        }
    }

    /// Check if this interface has a method with the given name
    pub fn has_method(&self, name: &str) -> (res: bool)
        ensures
            res == interface_method_names(self.methods@).contains(name@),
    {
        let r = self.method_index(name);
        proof {
            lemma_first_named_props(interface_method_names(self.methods@), name@);
        }
        r.is_some()
    }
}

} // verus!
