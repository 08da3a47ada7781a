//! Type system AST nodes for Nature language
use vstd::prelude::*;
use vstd::string::*;
use crate::error::{Location, decimal, usize_to_string};
use crate::ast::expr::Expression;
use crate::text::text_eq;

verus! {

/// All possible types in Nature
#[derive(Debug, PartialEq, Eq, Hash)]
pub enum Type {
    /// Basic types
    Basic(BasicType),
    /// Generic type parameter
    Generic(String),
    /// Array/vector type
    Array(ArrayType),
    /// Map type
    MapOf(MapType),
    /// Tuple type
    Tuple(TupleType),
    /// Struct type
    Struct(StructType),
    /// Interface type
    Interface(InterfaceType),
    /// Function type
    Function(FunctionType),
    /// Pointer type
    Pointer(PointerType),
    /// Slice type
    Slice(SliceType),
    /// Channel type
    Channel(ChannelType),
    /// Optional type (nullable)
    Optional(OptionalType),
    /// Error type (errable)
    Error(ErrorType),
    /// Union type
    Union(UnionType),
    /// Type alias
    Alias(AliasType),
}

/// Basic types
#[derive(Debug, Clone, Copy, PartialEq, Eq, Hash)]
pub enum BasicType {
    /// 32-bit signed integer
    Int,
    /// 8-bit signed integer
    I8,
    /// 16-bit signed integer
    I16,
    /// 32-bit signed integer
    I32,
    /// 64-bit signed integer
    I64,
    /// 8-bit unsigned integer
    U8,
    /// 16-bit unsigned integer
    U16,
    /// 32-bit unsigned integer
    U32,
    /// 64-bit unsigned integer
    U64,
    /// 32-bit floating point
    F32,
    /// 64-bit floating point
    F64,
    /// Boolean value (true/false)
    Bool,
    /// String of characters
    String,
    /// Single character
    Char,
    /// Any value type
    Any,
    /// Pointer to any type
    AnyPtr,
    /// Raw pointer
    RawPtr,
    /// No value
    Void,
}

/// Array/vector type
#[derive(Debug, PartialEq, Eq, Hash)]
pub struct ArrayType {
    /// Element type
    pub element_type: Box<Type>,
    /// Array size (if fixed size)
    pub size: Option<usize>,
    /// Location in source
    pub location: Location,
}

/// Map type
#[derive(Debug, PartialEq, Eq, Hash)]
pub struct MapType {
    /// Key type
    pub key_type: Box<Type>,
    /// Value type
    pub value_type: Box<Type>,
    /// Location in source
    pub location: Location,
}

/// Tuple type
#[derive(Debug, PartialEq, Eq, Hash)]
pub struct TupleType {
    /// Element types
    pub element_types: Vec<Type>,
    /// Location in source
    pub location: Location,
}

/// Struct type
#[derive(Debug, PartialEq, Eq, Hash)]
pub struct StructType {
    /// Struct name
    pub name: String,
    /// Type arguments
    pub type_args: Vec<Type>,
    /// Location in source
    pub location: Location,
}

/// Interface type
#[derive(Debug, PartialEq, Eq, Hash)]
pub struct InterfaceType {
    /// Interface name
    pub name: String,
    /// Type arguments
    pub type_args: Vec<Type>,
    /// Location in source
    pub location: Location,
}

/// Function type
#[derive(Debug, PartialEq, Eq, Hash)]
pub struct FunctionType {
    /// Parameter types
    pub parameter_types: Vec<Type>,
    /// Return type
    pub return_type: Option<Box<Type>>,
    /// Is variadic
    pub variadic: bool,
    /// Location in source
    pub location: Location,
}

/// Pointer type
#[derive(Debug, PartialEq, Eq, Hash)]
pub struct PointerType {
    /// Pointee type
    pub pointee_type: Box<Type>,
    /// Is mutable
    pub mutable: bool,
    /// Is reference-counted (managed by GC)
    pub reference_counted: bool,
    /// Location in source
    pub location: Location,
}

/// Slice type
#[derive(Debug, PartialEq, Eq, Hash)]
pub struct SliceType {
    /// Element type
    pub element_type: Box<Type>,
    /// Location in source
    pub location: Location,
}

/// Channel type
#[derive(Debug, PartialEq, Eq, Hash)]
pub struct ChannelType {
    /// Element type
    pub element_type: Box<Type>,
    /// Channel direction
    pub direction: ChannelDirection,
    /// Buffer size (if buffered)
    pub buffer_size: Option<usize>,
    /// Location in source
    pub location: Location,
}

/// Channel direction
#[derive(Debug, Clone, Copy, PartialEq, Eq, Hash)]
pub enum ChannelDirection {
    /// Send only
    Send,
    /// Receive only
    Receive,
    /// Bidirectional
    Bidirectional,
}

/// Optional type (nullable)
#[derive(Debug, PartialEq, Eq, Hash)]
pub struct OptionalType {
    /// Inner type
    pub inner_type: Box<Type>,
    /// Location in source
    pub location: Location,
}

/// Error type (errable)
#[derive(Debug, PartialEq, Eq, Hash)]
pub struct ErrorType {
    /// Inner type
    pub inner_type: Box<Type>,
    /// Location in source
    pub location: Location,
}

/// Union type
#[derive(Debug, PartialEq, Eq, Hash)]
pub struct UnionType {
    /// Union member types
    pub member_types: Vec<Type>,
    /// Location in source
    pub location: Location,
}

/// Type alias
#[derive(Debug, PartialEq, Eq, Hash)]
pub struct AliasType {
    /// Alias name
    pub name: String,
    /// Type arguments
    pub type_args: Vec<Type>,
    /// Location in source
    pub location: Location,
}

/// Function parameter
#[derive(Debug)]
pub struct Parameter {
    /// Parameter name
    pub name: String,
    /// Parameter type
    pub param_type: Type,
    /// Default value (if any)
    pub default_value: Option<Expression>,
    /// Location in source
    pub location: Location,
}

/// The name `to_string` prints for a basic type.
pub open spec fn basic_name(b: BasicType) -> Seq<char> {
    match b {
        BasicType::Int => "int"@,
        BasicType::I8 => "i8"@,
        BasicType::I16 => "i16"@,
        BasicType::I32 => "i32"@,
        BasicType::I64 => "i64"@,
        BasicType::U8 => "u8"@,
        BasicType::U16 => "u16"@,
        BasicType::U32 => "u32"@,
        BasicType::U64 => "u64"@,
        BasicType::F32 => "f32"@,
        BasicType::F64 => "f64"@,
        BasicType::Bool => "bool"@,
        BasicType::String => "string"@,
        BasicType::Char => "char"@,
        BasicType::Any => "any"@,
        BasicType::AnyPtr => "anyptr"@,
        BasicType::RawPtr => "rawptr"@,
        BasicType::Void => "void"@,
    }
}

/// The printed forms of `ts`, separated by `sep`.
pub open spec fn join_types(ts: Seq<Type>, sep: Seq<char>) -> Seq<char>
    decreases ts,
{
    if ts.len() == 0 {
        Seq::empty()
    } else if ts.len() == 1 {
        ts[0].spec_to_string()
    } else {
        join_types(ts.drop_last(), sep) + sep + ts.last().spec_to_string()
    }
}

/// `name` alone when there are no type arguments, else `name<args>` with the printed arguments.
pub open spec fn with_args(name: Seq<char>, has_args: bool, args_text: Seq<char>) -> Seq<char> {
    if !has_args {
        name
    } else {
        name + "<"@ + args_text + ">"@
    }
}

/// `t1` and `t2` are the same type but for the places they carry and their flags for reference
/// counting and variadic parameters.
pub open spec fn same_shape(t1: Type, t2: Type) -> bool
    decreases t1,
{
    match t1 {
        Type::Basic(a) => t2 matches Type::Basic(b) && a == b,
        Type::Generic(a) => t2 matches Type::Generic(b) && a@ == b@,
        Type::Array(a) => t2 matches Type::Array(b) && a.size == b.size
            && same_shape(*a.element_type, *b.element_type),
        Type::MapOf(a) => t2 matches Type::MapOf(b) && same_shape(*a.key_type, *b.key_type)
            && same_shape(*a.value_type, *b.value_type),
        Type::Tuple(a) => t2 matches Type::Tuple(b) && same_shapes(a.element_types@, b.element_types@),
        Type::Struct(a) => t2 matches Type::Struct(b) && a.name@ == b.name@ && same_shapes(a.type_args@, b.type_args@),
        Type::Interface(a) => t2 matches Type::Interface(b) && a.name@ == b.name@
            && same_shapes(a.type_args@, b.type_args@),
        Type::Function(a) => t2 matches Type::Function(b) && same_shapes(a.parameter_types@, b.parameter_types@)
            && match a.return_type {
                Some(x) => b.return_type matches Some(y) && same_shape(*x, *y),
                None => b.return_type is None,
            },
        Type::Pointer(a) => t2 matches Type::Pointer(b) && a.mutable == b.mutable
            && same_shape(*a.pointee_type, *b.pointee_type),
        Type::Slice(a) => t2 matches Type::Slice(b) && same_shape(*a.element_type, *b.element_type),
        Type::Channel(a) => t2 matches Type::Channel(b) && a.direction == b.direction && a.buffer_size == b.buffer_size
            && same_shape(*a.element_type, *b.element_type),
        Type::Optional(a) => t2 matches Type::Optional(b) && same_shape(*a.inner_type, *b.inner_type),
        Type::Error(a) => t2 matches Type::Error(b) && same_shape(*a.inner_type, *b.inner_type),
        Type::Union(a) => t2 matches Type::Union(b) && same_shapes(a.member_types@, b.member_types@),
        Type::Alias(a) => t2 matches Type::Alias(b) && a.name@ == b.name@ && same_shapes(a.type_args@, b.type_args@),
    }
}

/// Two lists of types of the same length, of the same shape one by one.
pub open spec fn same_shapes(ts1: Seq<Type>, ts2: Seq<Type>) -> bool
    decreases ts1,
{
    ts1.len() == ts2.len() && (ts1.len() == 0 || (same_shapes(ts1.drop_last(), ts2.drop_last())
        && same_shape(ts1.last(), ts2.last())))
}

/// The text of a type does not depend on the places it carries nor on its flags for reference
/// counting and variadic parameters.
pub proof fn lemma_to_string_ignores_places(t1: Type, t2: Type)
    requires
        same_shape(t1, t2),
    ensures
        t1.spec_to_string() == t2.spec_to_string(),
    decreases t1,
{
    match (t1, t2) {
        (Type::Array(a), Type::Array(b)) => {
            lemma_to_string_ignores_places(*a.element_type, *b.element_type);
            assert(t1.spec_to_string() == t2.spec_to_string());
        },
        (Type::MapOf(a), Type::MapOf(b)) => {
            lemma_to_string_ignores_places(*a.key_type, *b.key_type);
            lemma_to_string_ignores_places(*a.value_type, *b.value_type);
            assert(t1.spec_to_string() == t2.spec_to_string());
        },
        (Type::Tuple(a), Type::Tuple(b)) => {
            lemma_join_ignores_places(a.element_types@, b.element_types@, ", "@);
            assert(t1.spec_to_string() == t2.spec_to_string());
        },
        (Type::Struct(a), Type::Struct(b)) => {
            lemma_join_ignores_places(a.type_args@, b.type_args@, ", "@);
            assert(t1.spec_to_string() == t2.spec_to_string());
        },
        (Type::Interface(a), Type::Interface(b)) => {
            lemma_join_ignores_places(a.type_args@, b.type_args@, ", "@);
            assert(t1.spec_to_string() == t2.spec_to_string());
        },
        (Type::Function(a), Type::Function(b)) => {
            lemma_join_ignores_places(a.parameter_types@, b.parameter_types@, ", "@);
            match (a.return_type, b.return_type) {
                (Some(x), Some(y)) => {
                    lemma_to_string_ignores_places(*x, *y);
                    assert(t1.spec_to_string() == t2.spec_to_string());
        },
                _ => {},
            }
            assert(t1.spec_to_string() == t2.spec_to_string());
        },
        (Type::Pointer(a), Type::Pointer(b)) => {
            lemma_to_string_ignores_places(*a.pointee_type, *b.pointee_type);
            assert(t1.spec_to_string() == t2.spec_to_string());
        },
        (Type::Slice(a), Type::Slice(b)) => {
            lemma_to_string_ignores_places(*a.element_type, *b.element_type);
            assert(t1.spec_to_string() == t2.spec_to_string());
        },
        (Type::Channel(a), Type::Channel(b)) => {
            lemma_to_string_ignores_places(*a.element_type, *b.element_type);
            assert(t1.spec_to_string() == t2.spec_to_string());
        },
        (Type::Optional(a), Type::Optional(b)) => {
            lemma_to_string_ignores_places(*a.inner_type, *b.inner_type);
            assert(t1.spec_to_string() == t2.spec_to_string());
        },
        (Type::Error(a), Type::Error(b)) => {
            lemma_to_string_ignores_places(*a.inner_type, *b.inner_type);
            assert(t1.spec_to_string() == t2.spec_to_string());
        },
        (Type::Union(a), Type::Union(b)) => {
            lemma_join_ignores_places(a.member_types@, b.member_types@, " | "@);
            assert(t1.spec_to_string() == t2.spec_to_string());
        },
        (Type::Alias(a), Type::Alias(b)) => {
            lemma_join_ignores_places(a.type_args@, b.type_args@, ", "@);
            assert(t1.spec_to_string() == t2.spec_to_string());
        },
        (Type::Basic(x), Type::Basic(y)) => {},
        (Type::Generic(x), Type::Generic(y)) => {},
        _ => {
            assert(false);
        },
    }
}

/// Lists of types of the same shape print alike.
pub proof fn lemma_join_ignores_places(ts1: Seq<Type>, ts2: Seq<Type>, sep: Seq<char>)
    requires
        same_shapes(ts1, ts2),
    ensures
        join_types(ts1, sep) == join_types(ts2, sep),
    decreases ts1,
{
    if ts1.len() > 0 {
        lemma_join_ignores_places(ts1.drop_last(), ts2.drop_last(), sep);
        lemma_to_string_ignores_places(ts1.last(), ts2.last());
        if ts1.len() == 1 {
            assert(ts1.last() == ts1[0]);
            assert(ts2.last() == ts2[0]);
        }
    }
}

/// A type as a mathematical value: what a `Type` holds, with names as character sequences and
/// lists as sequences.
pub enum TypeModel {
    Basic(BasicType),
    Generic(Seq<char>),
    Array(Box<TypeModel>, Option<usize>, Location),
    MapOf(Box<TypeModel>, Box<TypeModel>, Location),
    Tuple(Seq<TypeModel>, Location),
    Struct(Seq<char>, Seq<TypeModel>, Location),
    Interface(Seq<char>, Seq<TypeModel>, Location),
    Function(Seq<TypeModel>, Option<Box<TypeModel>>, bool, Location),
    Pointer(Box<TypeModel>, bool, bool, Location),
    Slice(Box<TypeModel>, Location),
    Channel(Box<TypeModel>, ChannelDirection, Option<usize>, Location),
    Optional(Box<TypeModel>, Location),
    Error(Box<TypeModel>, Location),
    Union(Seq<TypeModel>, Location),
    Alias(Seq<char>, Seq<TypeModel>, Location),
}

/// The models of a list of types, in order.
pub open spec fn models(ts: Seq<Type>) -> Seq<TypeModel>
    decreases ts,
{
    if ts.len() == 0 {
        Seq::empty()
    } else {
        models(ts.subrange(0, ts.len() - 1)).push(ts[ts.len() - 1].model())
    }
}

/// A list of types has as many models as types.
pub proof fn lemma_models_len(ts: Seq<Type>)
    ensures
        models(ts).len() == ts.len(),
    decreases ts.len(),
{
    if ts.len() > 0 {
        lemma_models_len(ts.subrange(0, ts.len() - 1));
    }
}

/// Adding a type to a list adds its model to the list's models.
pub proof fn lemma_models_push(ts: Seq<Type>, t: Type)
    ensures
        models(ts.push(t)) == models(ts).push(t.model()),
{
    assert(ts.push(t).subrange(0, ts.len() as int) =~= ts);
}

/// A list of one type has the model of that type alone.
pub proof fn lemma_models_single(ts: Seq<Type>)
    requires
        ts.len() == 1,
    ensures
        models(ts) == seq![ts[0].model()],
{
    assert(ts.subrange(0, 0) =~= Seq::<Type>::empty());
    assert(models(ts.subrange(0, 0)) =~= Seq::<TypeModel>::empty());
    assert(models(ts) =~= seq![ts[0].model()]);
}

impl Type {
    /// The text `to_string` gives for this type.
    pub open spec fn spec_to_string(&self) -> Seq<char>
        decreases *self,
    {
        match self {
            Type::Basic(b) => basic_name(*b),
            Type::Generic(name) => name@,
            Type::Array(ty) => match ty.size {
                Some(size) => "["@ + (*ty.element_type).spec_to_string() + ", "@ + decimal(size as nat) + "]"@,
                None => "["@ + (*ty.element_type).spec_to_string() + "]"@,
            },
            Type::MapOf(ty) => "map<"@ + (*ty.key_type).spec_to_string() + ", "@
                + (*ty.value_type).spec_to_string() + ">"@,
            Type::Tuple(ty) => "("@ + join_types(ty.element_types@, ", "@) + ")"@,
            Type::Struct(ty) => with_args(ty.name@, ty.type_args@.len() > 0, join_types(ty.type_args@, ", "@)),
            Type::Interface(ty) => with_args(ty.name@, ty.type_args@.len() > 0, join_types(ty.type_args@, ", "@)),
            Type::Function(ty) => "fn("@ + join_types(ty.parameter_types@, ", "@) + ") -> "@
                + match ty.return_type {
                    Some(rt) => (*rt).spec_to_string(),
                    None => "void"@,
                },
            Type::Pointer(ty) => (if ty.mutable { "mut "@ } else { ""@ }) + "*"@
                + (*ty.pointee_type).spec_to_string(),
            Type::Slice(ty) => "[]"@ + (*ty.element_type).spec_to_string(),
            Type::Channel(ty) => {
                let dir = match ty.direction {
                    ChannelDirection::Send => "chan<-"@,
                    ChannelDirection::Receive => "<-chan"@,
                    ChannelDirection::Bidirectional => "chan"@,
                };
                match ty.buffer_size {
                    Some(size) => dir + " "@ + (*ty.element_type).spec_to_string() + "["@
                        + decimal(size as nat) + "]"@,
                    None => dir + " "@ + (*ty.element_type).spec_to_string(),
                }
            },
            Type::Optional(ty) => (*ty.inner_type).spec_to_string() + "?"@,
            Type::Error(ty) => (*ty.inner_type).spec_to_string() + "!"@,
            Type::Union(ty) => "("@ + join_types(ty.member_types@, " | "@) + ")"@,
            Type::Alias(ty) => with_args(ty.name@, ty.type_args@.len() > 0, join_types(ty.type_args@, ", "@)),
        }
    }

    /// The type as a mathematical value.
    pub open spec fn model(&self) -> TypeModel
        decreases *self,
    {
        match *self {
            Type::Basic(b) => TypeModel::Basic(b),
            Type::Generic(n) => TypeModel::Generic(n@),
            Type::Array(a) => TypeModel::Array(Box::new(a.element_type.model()), a.size, a.location),
            Type::MapOf(m) => TypeModel::MapOf(Box::new(m.key_type.model()), Box::new(m.value_type.model()), m.location),
            Type::Tuple(t) => TypeModel::Tuple(models(t.element_types@), t.location),
            Type::Struct(st) => TypeModel::Struct(st.name@, models(st.type_args@), st.location),
            Type::Interface(i) => TypeModel::Interface(i.name@, models(i.type_args@), i.location),
            Type::Function(f) => TypeModel::Function(
                models(f.parameter_types@),
                match f.return_type {
                    Some(r) => Some(Box::new(r.model())),
                    None => None,
                },
                f.variadic,
                f.location,
            ),
            Type::Pointer(p) => TypeModel::Pointer(Box::new(p.pointee_type.model()), p.mutable, p.reference_counted, p.location),
            Type::Slice(sl) => TypeModel::Slice(Box::new(sl.element_type.model()), sl.location),
            Type::Channel(c) => TypeModel::Channel(Box::new(c.element_type.model()), c.direction, c.buffer_size, c.location),
            Type::Optional(o) => TypeModel::Optional(Box::new(o.inner_type.model()), o.location),
            Type::Error(e) => TypeModel::Error(Box::new(e.inner_type.model()), e.location),
            Type::Union(u) => TypeModel::Union(models(u.member_types@), u.location),
            Type::Alias(a) => TypeModel::Alias(a.name@, models(a.type_args@), a.location),
        }
    }

    /// The location a type carries; basic and generic types carry `0:0`.
    pub open spec fn spec_location(&self) -> Location {
        match self {
            Type::Basic(_) => Location::zero(),
            Type::Generic(_) => Location::zero(),
            Type::Array(ty) => ty.location,
            Type::MapOf(ty) => ty.location,
            Type::Tuple(ty) => ty.location,
            Type::Struct(ty) => ty.location,
            Type::Interface(ty) => ty.location,
            Type::Function(ty) => ty.location,
            Type::Pointer(ty) => ty.location,
            Type::Slice(ty) => ty.location,
            Type::Channel(ty) => ty.location,
            Type::Optional(ty) => ty.location,
            Type::Error(ty) => ty.location,
            Type::Union(ty) => ty.location,
            Type::Alias(ty) => ty.location,
        }
    }

    /// Get the location of this type
    pub fn location(&self) -> (res: Location)
        ensures
            res == self.spec_location(),
    {
        match self {
            Type::Basic(_) => Location::new(0, 0, 0),
            Type::Generic(_) => Location::new(0, 0, 0),
            Type::Array(ty) => ty.location,
            Type::MapOf(ty) => ty.location,
            Type::Tuple(ty) => ty.location,
            Type::Struct(ty) => ty.location,
            Type::Interface(ty) => ty.location,
            Type::Function(ty) => ty.location,
            Type::Pointer(ty) => ty.location,
            Type::Slice(ty) => ty.location,
            Type::Channel(ty) => ty.location,
            Type::Optional(ty) => ty.location,
            Type::Error(ty) => ty.location,
            Type::Union(ty) => ty.location,
            Type::Alias(ty) => ty.location,
        }
    }

    /// Check if this type is a basic type
    pub fn is_basic(&self) -> (res: bool)
        ensures
            res == (self is Basic),
    {
        matches!(self, Type::Basic(_))
    }

    /// Check if this type is a generic type parameter
    pub fn is_generic(&self) -> (res: bool)
        ensures
            res == (self is Generic),
    {
        matches!(self, Type::Generic(_))
    }

    /// Check if this type is a pointer type
    pub fn is_pointer(&self) -> (res: bool)
        ensures
            res == (self is Pointer),
    {
        matches!(self, Type::Pointer(_))
    }

    /// Check if this type is an array type
    pub fn is_array(&self) -> (res: bool)
        ensures
            res == (self is Array),
    {
        matches!(self, Type::Array(_))
    }

    /// Check if this type is a function type
    pub fn is_function(&self) -> (res: bool)
        ensures
            res == (self is Function),
    {
        matches!(self, Type::Function(_))
    }

    /// Check if this type is an optional type
    pub fn is_optional(&self) -> (res: bool)
        ensures
            res == (self is Optional),
    {
        matches!(self, Type::Optional(_))
    }

    /// Check if this type is an error type
    pub fn is_error(&self) -> (res: bool)
        ensures
            res == (self is Error),
    {
        matches!(self, Type::Error(_))
    }

    /// Get the string representation of this type
    pub fn to_string(&self) -> (res: String)
        ensures
            res@ == self.spec_to_string(),
        decreases *self,
    {
        match self {
            Type::Basic(basic) => String::from_str(basic_str(*basic)),
            Type::Generic(name) => name.clone(),
            Type::Array(ty) => {
                let mut s = String::from_str("[");
                let e = ty.element_type.to_string();
                s.append(e.as_str());
                match ty.size {
                    Some(size) => {
                        s.append(", ");
                        let n = usize_to_string(size);
                        s.append(n.as_str());
                    },
                    None => {},
                }
                s.append("]");
                s
            },
            Type::MapOf(ty) => {
                let mut s = String::from_str("map<");
                let k = ty.key_type.to_string();
                s.append(k.as_str());
                s.append(", ");
                let v = ty.value_type.to_string();
                s.append(v.as_str());
                s.append(">");
                s
            },
            Type::Tuple(ty) => {
                let mut s = String::from_str("(");
                let j = join_type_strings(&ty.element_types, ", ");
                s.append(j.as_str());
                s.append(")");
                s
            },
            Type::Struct(ty) => name_with_args(&ty.name, ty.type_args.len() > 0, join_type_strings(&ty.type_args, ", ")),
            Type::Interface(ty) => name_with_args(&ty.name, ty.type_args.len() > 0, join_type_strings(&ty.type_args, ", ")),
            Type::Function(ty) => {
                let mut s = String::from_str("fn(");
                let j = join_type_strings(&ty.parameter_types, ", ");
                s.append(j.as_str());
                s.append(") -> ");
                match &ty.return_type {
                    Some(rt) => {
                        let r = rt.to_string();
                        s.append(r.as_str());
                    },
                    None => {
                        s.append("void");
                    },
                }
                s
            },
            Type::Pointer(ty) => {
                let mut s = if ty.mutable { String::from_str("mut ") } else { String::from_str("") };
                s.append("*");
                let p = ty.pointee_type.to_string();
                s.append(p.as_str());
                s
            },
            Type::Slice(ty) => {
                let mut s = String::from_str("[]");
                let e = ty.element_type.to_string();
                s.append(e.as_str());
                s
            },
            Type::Channel(ty) => {
                let mut s = match ty.direction {
                    ChannelDirection::Send => String::from_str("chan<-"),
                    ChannelDirection::Receive => String::from_str("<-chan"),
                    ChannelDirection::Bidirectional => String::from_str("chan"),
                };
                s.append(" ");
                let e = ty.element_type.to_string();
                s.append(e.as_str());
                match ty.buffer_size {
                    Some(size) => {
                        s.append("[");
                        let n = usize_to_string(size);
                        s.append(n.as_str());
                        s.append("]");
                    },
                    None => {},
                }
                s
            },
            Type::Optional(ty) => {
                let mut s = ty.inner_type.to_string();
                s.append("?");
                s
            },
            Type::Error(ty) => {
                let mut s = ty.inner_type.to_string();
                s.append("!");
                s
            },
            Type::Union(ty) => {
                let mut s = String::from_str("(");
                let j = join_type_strings(&ty.member_types, " | ");
                s.append(j.as_str());
                s.append(")");
                s
            },
            Type::Alias(ty) => name_with_args(&ty.name, ty.type_args.len() > 0, join_type_strings(&ty.type_args, ", ")),
        }
    }
}

fn basic_str(b: BasicType) -> (res: &'static str)
    ensures
        res@ == basic_name(b),
{
    match b {
        BasicType::Int => "int",
        BasicType::I8 => "i8",
        BasicType::I16 => "i16",
        BasicType::I32 => "i32",
        BasicType::I64 => "i64",
        BasicType::U8 => "u8",
        BasicType::U16 => "u16",
        BasicType::U32 => "u32",
        BasicType::U64 => "u64",
        BasicType::F32 => "f32",
        BasicType::F64 => "f64",
        BasicType::Bool => "bool",
        BasicType::String => "string",
        BasicType::Char => "char",
        BasicType::Any => "any",
        BasicType::AnyPtr => "anyptr",
        BasicType::RawPtr => "rawptr",
        BasicType::Void => "void",
    }
}

fn join_type_strings(ts: &Vec<Type>, sep: &str) -> (res: String)
    ensures
        res@ == join_types(ts@, sep@),
    decreases ts@,
{
    let mut s = String::new();
    let mut i: usize = 0;
    while i < ts.len()
        invariant
            i <= ts@.len(),
            s@ == join_types(ts@.take(i as int), sep@),
        decreases ts.len() - i,
    {
        assert(ts@.take(i + 1).drop_last() =~= ts@.take(i as int));
        assert(decreases_to!(ts@ => ts@[i as int]));
        let t = ts[i].to_string();
        if i > 0 {
            s.append(sep);
        }
        s.append(t.as_str());
        i = i + 1;
    }
    assert(ts@.take(ts@.len() as int) =~= ts@);
    s
}

fn name_with_args(name: &String, has_args: bool, args_text: String) -> (res: String)
    ensures
        res@ == with_args(name@, has_args, args_text@),
{
    if !has_args {
        name.clone()
    } else {
        let mut s = name.clone();
        s.append("<");
        s.append(args_text.as_str());
        s.append(">");
        s
    }
}

/// Type context for type checking
#[derive(Debug)]
pub struct TypeContext {
    /// Type bindings, newest value per name, each name once
    pub bindings: Vec<(String, Type)>,
    /// Generic type parameters
    pub generics: Vec<String>,
}

/// The names bound in `bs`, in order.
pub open spec fn binding_names(bs: Seq<(String, Type)>) -> Seq<Seq<char>> {
    bs.map_values(|b: (String, Type)| b.0@)
}

impl TypeContext {
    /// Each name is bound at most once.
    pub open spec fn wf(&self) -> bool {
        forall|i: int, j: int|
            0 <= i < j < self.bindings@.len() ==> #[trigger] self.bindings@[i].0@ != #[trigger] self.bindings@[j].0@
    }

    /// The bindings as a map from names to types.
    pub open spec fn binding_map(&self) -> Map<Seq<char>, Type> {
        Map::new(
            |k: Seq<char>| exists|i: int| 0 <= i < self.bindings@.len() && #[trigger] self.bindings@[i].0@ == k,
            |k: Seq<char>| self.bindings@[choose|i: int| 0 <= i < self.bindings@.len() && #[trigger] self.bindings@[i].0@ == k].1,
        )
    }

    /// The generic parameter names, in order of addition.
    pub open spec fn generic_names(&self) -> Seq<Seq<char>> {
        self.generics@.map_values(|g: String| g@)
    }

    /// Create a new type context
    pub fn new() -> (res: Self)
        ensures
            res.wf(),
            res.binding_map() == Map::<Seq<char>, Type>::empty(),
            res.generic_names() == Seq::<Seq<char>>::empty(),
    {
        let res = TypeContext { bindings: Vec::new(), generics: Vec::new() };
        assert(res.binding_map() =~= Map::<Seq<char>, Type>::empty());
        assert(res.generic_names() =~= Seq::<Seq<char>>::empty());
        res
    }

    fn find_binding(&self, name: &str) -> (res: Option<usize>)
        requires
            self.wf(),
        ensures
            res matches Some(i) ==> i < self.bindings@.len() && self.bindings@[i as int].0@ == name@,
            res is None ==> forall|i: int| 0 <= i < self.bindings@.len() ==> self.bindings@[i].0@ != name@,
    {
        let mut i: usize = 0;
        while i < self.bindings.len()
            invariant
                i <= self.bindings@.len(),
                forall|k: int| 0 <= k < i ==> self.bindings@[k].0@ != name@,
            decreases self.bindings.len() - i,
        {
            if text_eq(self.bindings[i].0.as_str(), name) {
                return Some(i);
            }
            i = i + 1;
        }
        None
    }

    /// Add a type binding
    pub fn bind(&mut self, name: String, ty: Type)
        requires
            old(self).wf(),
        ensures
            final(self).wf(),
            final(self).binding_map() == old(self).binding_map().insert(name@, ty),
            final(self).generics == old(self).generics,
    {
        let ghost old_map = self.binding_map();
        match self.find_binding(name.as_str()) {
            Some(i) => {
                self.bindings.set(i, (name, ty));
            },
            None => {
                self.bindings.push((name, ty));
            },
        }
        let ghost new_map = self.binding_map();
        assert forall|k: Seq<char>| #![auto] new_map.dom().contains(k) == old_map.insert(name@, ty).dom().contains(k) by {
            if old_map.dom().contains(k) {
                let i = choose|i: int| 0 <= i < old(self).bindings@.len() && #[trigger] old(self).bindings@[i].0@ == k;
                assert(self.bindings@[i].0@ == k);
            }
            if new_map.dom().contains(k) && k != name@ {
                let i = choose|i: int| 0 <= i < self.bindings@.len() && #[trigger] self.bindings@[i].0@ == k;
                assert(old(self).bindings@[i].0@ == k);
            }
            if k == name@ {
                let j = if self.bindings@.len() > old(self).bindings@.len() { old(self).bindings@.len() as int } else {
                    choose|i: int| 0 <= i < self.bindings@.len() && #[trigger] self.bindings@[i].0@ == name@
                };
                assert(self.bindings@[j].0@ == k);
            }
        }
        assert forall|k: Seq<char>| #![auto] new_map.dom().contains(k) implies new_map[k] == old_map.insert(name@, ty)[k] by {
            let i = choose|i: int| 0 <= i < self.bindings@.len() && #[trigger] self.bindings@[i].0@ == k;
            if k == name@ {
            } else {
                assert(old(self).bindings@[i].0@ == k);
                let i0 = choose|i: int| 0 <= i < old(self).bindings@.len() && #[trigger] old(self).bindings@[i].0@ == k;
                assert(i0 == i);
            }
        }
        assert(new_map =~= old_map.insert(name@, ty));
    }

    /// Get a type binding
    pub fn get(&self, name: &str) -> (res: Option<&Type>)
        requires
            self.wf(),
        ensures
            res is Some <==> self.binding_map().dom().contains(name@),
            res matches Some(t) ==> *t == self.binding_map()[name@],
    {
        match self.find_binding(name) {
            Some(i) => {
                proof {
                    let j = choose|j: int| 0 <= j < self.bindings@.len() && #[trigger] self.bindings@[j].0@ == name@;
                    assert(j == i);
                }
                Some(&self.bindings[i].1)
            },
            None => None,
        }
    }

    /// Add a generic type parameter
    pub fn add_generic(&mut self, name: String)
        ensures
            final(self).generic_names() == old(self).generic_names().push(name@),
            final(self).bindings == old(self).bindings,
    {
        self.generics.push(name);
        assert(self.generic_names() =~= old(self).generic_names().push(name@));
    }

    /// Check if a name is a generic type parameter
    pub fn is_generic(&self, name: &str) -> (res: bool)
        ensures
            res == self.generic_names().contains(name@),
    {
        let mut i: usize = 0;
        while i < self.generics.len()
            invariant
                i <= self.generics@.len(),
                forall|k: int| 0 <= k < i ==> self.generics@[k]@ != name@,
            decreases self.generics.len() - i,
        {
            if text_eq(self.generics[i].as_str(), name) {
                assert(self.generic_names()[i as int] == name@);
                return true;
            }
            i = i + 1;
        }
        false
    }
}

impl Default for TypeContext {
    fn default() -> (res: Self)
        ensures
            res.wf(),
            res.binding_map() == Map::<Seq<char>, Type>::empty(),
            res.generic_names() == Seq::<Seq<char>>::empty(),
    {
        Self::new()
    }
}

/// A type bound in a context is what a later lookup of that name gives back, and binding one
/// name leaves every other name's binding as it was.
pub proof fn lemma_bind_then_get(ctx: TypeContext, after: TypeContext, name: Seq<char>, ty: Type, other: Seq<char>)
    requires
        ctx.wf(),
        after.binding_map() == ctx.binding_map().insert(name, ty),
    ensures
        after.binding_map().dom().contains(name),
        after.binding_map()[name] == ty,
        other != name ==> (after.binding_map().dom().contains(other) == ctx.binding_map().dom().contains(other)),
        other != name && ctx.binding_map().dom().contains(other) ==> after.binding_map()[other] == ctx.binding_map()[other],
{
}


} // verus!
