//! The choices code generation makes before it builds instructions: which instruction a binary
//! operator becomes for the kinds of its operands, and which function a method call targets
use vstd::prelude::*;
use crate::ast::BinaryOp;
use crate::error::{CompilerError, Result};
use crate::text::{text_eq, concat3};

verus! {

/// The kind of a value that generated code computes.
#[derive(Debug, Clone, Copy, PartialEq, Eq)]
pub enum ValueKind {
    /// An integer
    Int,
    /// A floating-point number
    Float,
    /// A pointer
    Pointer,
    /// Any other value: an aggregate, an array or a vector
    Other,
}

/// An arithmetic operation.
#[derive(Debug, Clone, Copy, PartialEq, Eq)]
pub enum Arith {
    Add,
    Sub,
    Mul,
    Div,
}

/// A comparison; its result is widened from one bit to a 32-bit integer.
#[derive(Debug, Clone, Copy, PartialEq, Eq)]
pub enum Comparison {
    Less,
    LessEqual,
    Greater,
    GreaterEqual,
    Equal,
    NotEqual,
}

/// The instruction a binary operator becomes.
#[derive(Debug, Clone, Copy, PartialEq, Eq)]
pub enum BinaryInstr {
    /// A store of the right operand into the place the left operand names
    Store,
    /// Integer arithmetic (division is signed)
    IntArith(Arith),
    /// Floating-point arithmetic
    FloatArith(Arith),
    /// A signed integer comparison
    IntCompare(Comparison),
    /// An ordered floating-point comparison
    FloatCompare(Comparison),
}

/// The arithmetic operation an operator stands for, with the words of its type-mismatch error.
pub open spec fn arith_of(op: BinaryOp) -> Option<(Arith, Seq<char>)> {
    match op {
        BinaryOp::Add => Some((Arith::Add, "addition"@)),
        BinaryOp::Sub => Some((Arith::Sub, "subtraction"@)),
        BinaryOp::Mul => Some((Arith::Mul, "multiplication"@)),
        BinaryOp::Div => Some((Arith::Div, "division"@)),
        _ => None,
    }
}

/// The comparison an operator stands for.
pub open spec fn comparison_of(op: BinaryOp) -> Option<Comparison> {
    match op {
        BinaryOp::Less => Some(Comparison::Less),
        BinaryOp::LessEqual => Some(Comparison::LessEqual),
        BinaryOp::Greater => Some(Comparison::Greater),
        BinaryOp::GreaterEqual => Some(Comparison::GreaterEqual),
        BinaryOp::Equal => Some(Comparison::Equal),
        BinaryOp::NotEqual => Some(Comparison::NotEqual),
        _ => None,
    }
}

/// Whether the comparison `c` holds between `a` and `b`: the predicate the signed integer
/// compare (`icmp slt`, `sle`, `sgt`, `sge`, `eq`, `ne`) or the ordered floating-point compare
/// (`fcmp olt` and so on) computes.
pub open spec fn compare_holds(c: Comparison, a: int, b: int) -> bool {
    match c {
        Comparison::Less => a < b,
        Comparison::LessEqual => a <= b,
        Comparison::Greater => a > b,
        Comparison::GreaterEqual => a >= b,
        Comparison::Equal => a == b,
        Comparison::NotEqual => a != b,
    }
}

/// The value the arithmetic instruction `a` computes from `x` and `y` (`add`, `sub`, `mul`;
/// `sdiv` and `fdiv` on a nonzero divisor).
pub open spec fn arith_value(a: Arith, x: int, y: int) -> Option<int> {
    match a {
        Arith::Add => Some(x + y),
        Arith::Sub => Some(x - y),
        Arith::Mul => Some(x * y),
        Arith::Div => if y != 0 { Some(x / y) } else { None },
    }
}

/// The value of `x op y` in Nature source for an arithmetic operator `op`; none for the other
/// operators and for a division by zero.
pub open spec fn operator_value(op: BinaryOp, x: int, y: int) -> Option<int> {
    match op {
        BinaryOp::Add => Some(y + x),
        BinaryOp::Sub => Some(x + (-y)),
        BinaryOp::Mul => Some(x * y),
        BinaryOp::Div => if y == 0 { None } else { Some(x / y) },
        _ => None,
    }
}

/// The truth value of `a op b` in Nature source for a comparison operator `op`; none for the
/// other operators.
pub open spec fn operator_truth(op: BinaryOp, a: int, b: int) -> Option<bool> {
    match op {
        BinaryOp::Less => Some(a < b),
        BinaryOp::LessEqual => Some(!(b < a)),
        BinaryOp::Greater => Some(b < a),
        BinaryOp::GreaterEqual => Some(!(a < b)),
        BinaryOp::Equal => Some(a == b),
        BinaryOp::NotEqual => Some(!(a == b)),
        _ => None,
    }
}

/// The instruction for `op` on operands of kinds `left` and `right`, or the message of the
/// internal error when there is none: arithmetic and comparisons need two integers or two
/// floating-point numbers; assignment stores whatever it is given; other operators are not
/// generated.
pub open spec fn spec_binary_instruction(op: BinaryOp, left: ValueKind, right: ValueKind) -> std::result::Result<BinaryInstr, Seq<char>> {
    if op == BinaryOp::Assign {
        Ok(BinaryInstr::Store)
    } else if let Some((a, name)) = arith_of(op) {
        if left == ValueKind::Int && right == ValueKind::Int {
            Ok(BinaryInstr::IntArith(a))
        } else if left == ValueKind::Float && right == ValueKind::Float {
            Ok(BinaryInstr::FloatArith(a))
        } else {
            Err("Type mismatch in "@ + name)
        }
    } else if let Some(c) = comparison_of(op) {
        if left == ValueKind::Int && right == ValueKind::Int {
            Ok(BinaryInstr::IntCompare(c))
        } else if left == ValueKind::Float && right == ValueKind::Float {
            Ok(BinaryInstr::FloatCompare(c))
        } else {
            Err("Type mismatch in comparison"@)
        }
    } else {
        Err("Unsupported binary operator"@)
    }
}

/// The instruction a binary operator becomes for operands of the given kinds.
pub fn binary_instruction(op: BinaryOp, left: ValueKind, right: ValueKind) -> (res: Result<BinaryInstr>)
    ensures
        res matches Ok(BinaryInstr::IntArith(a)) ==> forall|x: int, y: int|
            operator_value(op, x, y) == #[trigger] arith_value(a, x, y),
        res matches Ok(BinaryInstr::FloatArith(a)) ==> forall|x: int, y: int|
            operator_value(op, x, y) == #[trigger] arith_value(a, x, y),
        res matches Ok(BinaryInstr::IntCompare(c)) ==> forall|a: int, b: int|
            operator_truth(op, a, b) == Some(#[trigger] compare_holds(c, a, b)),
        res matches Ok(BinaryInstr::FloatCompare(c)) ==> forall|a: int, b: int|
            operator_truth(op, a, b) == Some(#[trigger] compare_holds(c, a, b)),
        match spec_binary_instruction(op, left, right) {
            Ok(i) => res == Ok::<BinaryInstr, CompilerError>(i),
            Err(m) => res matches Err(CompilerError::Internal { message }) && message@ == m,
        },
{
    let (arith, mismatch): (Option<Arith>, &str) = match op {
        BinaryOp::Assign => {
            return Ok(BinaryInstr::Store);
        },
        BinaryOp::Add => (Some(Arith::Add), "Type mismatch in addition"),
        BinaryOp::Sub => (Some(Arith::Sub), "Type mismatch in subtraction"),
        BinaryOp::Mul => (Some(Arith::Mul), "Type mismatch in multiplication"),
        BinaryOp::Div => (Some(Arith::Div), "Type mismatch in division"),
        _ => (None, "Type mismatch in comparison"),
    };
    let both_int = matches!(left, ValueKind::Int) && matches!(right, ValueKind::Int);
    let both_float = matches!(left, ValueKind::Float) && matches!(right, ValueKind::Float);
    match arith {
        Some(a) => {
            if both_int {
                Ok(BinaryInstr::IntArith(a))
            } else if both_float {
                Ok(BinaryInstr::FloatArith(a))
            } else {
                proof {
                    reveal_strlit("Type mismatch in ");
                    reveal_strlit("addition");
                    reveal_strlit("subtraction");
                    reveal_strlit("multiplication");
                    reveal_strlit("division");
                    reveal_strlit("Type mismatch in addition");
                    reveal_strlit("Type mismatch in subtraction");
                    reveal_strlit("Type mismatch in multiplication");
                    reveal_strlit("Type mismatch in division");
                }
                Err(CompilerError::internal(mismatch))
            }
        },
        None => {
            let c = match op {
                BinaryOp::Less => Comparison::Less,
                BinaryOp::LessEqual => Comparison::LessEqual,
                BinaryOp::Greater => Comparison::Greater,
                BinaryOp::GreaterEqual => Comparison::GreaterEqual,
                BinaryOp::Equal => Comparison::Equal,
                BinaryOp::NotEqual => Comparison::NotEqual,
                _ => {
                    return Err(CompilerError::internal("Unsupported binary operator"));
                },
            };
            if both_int {
                Ok(BinaryInstr::IntCompare(c))
            } else if both_float {
                Ok(BinaryInstr::FloatCompare(c))
            } else {
                Err(CompilerError::internal(mismatch))
            }
        },
    }
}

/// A comparison operator lowers to a comparison that computes what the operator means: on
/// any two numbers, the instruction chosen for `op` holds exactly when `a op b` is true; and a
/// comparison operator on two integers or two floating-point numbers always gets one.
pub proof fn lemma_comparison_keeps_meaning(op: BinaryOp, left: ValueKind, right: ValueKind, a: int, b: int)
    ensures
        spec_binary_instruction(op, left, right) matches Ok(BinaryInstr::IntCompare(c))
            ==> operator_truth(op, a, b) == Some(compare_holds(c, a, b)),
        spec_binary_instruction(op, left, right) matches Ok(BinaryInstr::FloatCompare(c))
            ==> operator_truth(op, a, b) == Some(compare_holds(c, a, b)),
        operator_truth(op, a, b) is Some && left == ValueKind::Int && right == ValueKind::Int
            ==> spec_binary_instruction(op, left, right) is Ok,
        operator_truth(op, a, b) is Some && left == ValueKind::Float && right == ValueKind::Float
            ==> spec_binary_instruction(op, left, right) is Ok,
{
}

/// An arithmetic operator lowers to the instruction that computes it: on any two numbers the
/// instruction chosen for `op` gives the value of `x op y`; and an arithmetic operator on two
/// integers or two floating-point numbers always gets one.
pub proof fn lemma_arithmetic_keeps_meaning(op: BinaryOp, left: ValueKind, right: ValueKind, x: int, y: int)
    ensures
        spec_binary_instruction(op, left, right) matches Ok(BinaryInstr::IntArith(a))
            ==> operator_value(op, x, y) == arith_value(a, x, y),
        spec_binary_instruction(op, left, right) matches Ok(BinaryInstr::FloatArith(a))
            ==> operator_value(op, x, y) == arith_value(a, x, y),
        (op == BinaryOp::Add || op == BinaryOp::Sub || op == BinaryOp::Mul || op == BinaryOp::Div)
            && ((left == ValueKind::Int && right == ValueKind::Int) || (left == ValueKind::Float && right == ValueKind::Float))
            ==> spec_binary_instruction(op, left, right) is Ok,
{
}

/// The types whose methods a method call looks for, in order.
pub open spec fn method_owner_names() -> Seq<Seq<char>> {
    seq!["Person"@, "Point"@, "String"@, "Int"@]
}

/// The function a method call targets.
#[derive(Debug)]
pub enum MethodTarget {
    /// A method generated as `Type.method`
    Method { function: String, is_static: bool },
    /// A function of the method's own name
    Function { is_static: bool },
}

/// The names in `generated` among those `Type.method` for the first `n` owner types.
pub open spec fn first_owner(method: Seq<char>, generated: Seq<Seq<char>>, n: int) -> Option<Seq<char>>
    decreases n,
{
    if n <= 0 {
        None
    } else {
        match first_owner(method, generated, n - 1) {
            Some(f) => Some(f),
            None => {
                let name = method_owner_names()[n - 1] + "."@ + method;
                if generated.contains(name) { Some(name) } else { None }
            },
        }
    }
}

/// The target of a call of `method`: the first generated `Type.method` over the owner types, or
/// else the function named `method`; the call is static when the method is `new` called on a
/// name.
pub open spec fn spec_method_call_target(method: Seq<char>, object_is_variable: bool, generated: Seq<Seq<char>>) -> (Option<Seq<char>>, bool) {
    (first_owner(method, generated, 4), object_is_variable && method == "new"@)
}

/// Once an owner type is found, looking at more owner types finds the same one.
proof fn lemma_first_owner_stays(method: Seq<char>, generated: Seq<Seq<char>>, m: int, n: int)
    requires
        m <= n,
        first_owner(method, generated, m) is Some,
    ensures
        first_owner(method, generated, n) == first_owner(method, generated, m),
    decreases n - m,
{
    if m < n {
        lemma_first_owner_stays(method, generated, m, n - 1);
    }
}

/// Whether `generated` holds `name`.
fn holds_name(generated: &Vec<String>, name: &str) -> (res: bool)
    ensures
        res == generated@.map_values(|g: String| g@).contains(name@),
{
    let ghost names = generated@.map_values(|g: String| g@);
    let mut i: usize = 0;
    while i < generated.len()
        invariant
            i <= generated@.len(),
            names == generated@.map_values(|g: String| g@),
            forall|k: int| 0 <= k < i ==> generated@[k]@ != name@,
        decreases generated@.len() - i,
    {
        if text_eq(generated[i].as_str(), name) {
            proof {
                assert(names[i as int] == name@);
            }
            return true;
        }
        i = i + 1;
    }
    proof {
        if names.contains(name@) {
            let k = choose|k: int| 0 <= k < names.len() && names[k] == name@;
            assert(generated@[k]@ == name@);
        }
    }
    false
}

/// Which function a call of `method` targets, given the names of the functions generated so
/// far.
pub fn method_call_target(method: &str, object_is_variable: bool, generated: &Vec<String>) -> (res: MethodTarget)
    ensures
        ({
            let (f, st) = spec_method_call_target(method@, object_is_variable, generated@.map_values(|g: String| g@));
            match res {
                MethodTarget::Method { function, is_static } => f == Some(function@) && is_static == st,
                MethodTarget::Function { is_static } => f is None && is_static == st,
            }
        }),
{
    let is_static = object_is_variable && text_eq(method, "new");
    let owners = ["Person", "Point", "String", "Int"];
    let ghost names = generated@.map_values(|g: String| g@);
    proof {
        reveal_strlit("Person");
        reveal_strlit("Point");
        reveal_strlit("String");
        reveal_strlit("Int");
        assert(owners@.map_values(|o: &str| o@) =~= method_owner_names());
    }
    let mut i: usize = 0;
    while i < 4
        invariant
            i <= 4,
            owners@.len() == 4,
            names == generated@.map_values(|g: String| g@),
            owners@.map_values(|o: &str| o@) == method_owner_names(),
            first_owner(method@, names, i as int) is None,
            is_static == (object_is_variable && method@ == "new"@),
        decreases 4 - i,
    {
        let candidate = concat3(owners[i], ".", method);
        proof {
            assert(owners@.map_values(|o: &str| o@)[i as int] == owners@[i as int]@);
        }
        if holds_name(generated, candidate.as_str()) {
            proof {
                assert(method_owner_names()[i as int] == owners@[i as int]@);
                assert(first_owner(method@, names, i + 1) == Some(candidate@));
                lemma_first_owner_stays(method@, names, i + 1, 4);
            }
            return MethodTarget::Method { function: candidate, is_static };
        }
        i = i + 1;
    }
    MethodTarget::Function { is_static }
}

} // verus!
