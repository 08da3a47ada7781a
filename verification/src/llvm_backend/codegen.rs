//! Code generation utilities for LLVM backend
use vstd::prelude::*;
use crate::error::{decimal, digit_char, usize_to_string};
use crate::text::concat3;

verus! {

/// The name made from `prefix` and the counter value `n`: the prefix, a dot, and `n` in decimal.
pub open spec fn var_name(prefix: Seq<char>, n: nat) -> Seq<char> {
    prefix + "."@ + decimal(n)
}

/// Code generation utilities
pub struct CodeGen {
    /// Current function being generated
    current_function: Option<String>,
    /// Current basic block
    current_block: Option<String>,
    /// Variable counter for unique names
    var_counter: usize,
}

impl CodeGen {
    /// The function being generated, if any.
    pub closed spec fn function(&self) -> Option<String> {
        self.current_function
    }

    /// The basic block being generated, if any.
    pub closed spec fn block(&self) -> Option<String> {
        self.current_block
    }

    /// How many names have been generated.
    pub closed spec fn counter(&self) -> nat {
        self.var_counter as nat
    }

    /// Create a new code generator
    pub fn new() -> (res: Self)
        ensures
            res.function() is None,
            res.block() is None,
            res.counter() == 0,
    {
        CodeGen { current_function: None, current_block: None, var_counter: 0 }
    }

    /// Generate a unique variable name: the prefix, a dot and the number of names generated
    /// before
    pub fn generate_var_name(&mut self, prefix: &str) -> (res: String)
        requires
            old(self).counter() < usize::MAX,
        ensures
            res@ == var_name(prefix@, old(self).counter()),
            final(self).counter() == old(self).counter() + 1,
            final(self).function() == old(self).function(),
            final(self).block() == old(self).block(),
    {
        let number = usize_to_string(self.var_counter);
        let name = concat3(prefix, ".", number.as_str());
        proof {
            reveal_strlit(".");
        }
        self.var_counter = self.var_counter + 1;
        name
    }

    /// Set the current function
    pub fn set_current_function(&mut self, name: String)
        ensures
            final(self).function() == Some(name),
            final(self).block() == old(self).block(),
            final(self).counter() == old(self).counter(),
    {
        self.current_function = Some(name);
    }

    /// Clear the current function
    pub fn clear_current_function(&mut self)
        ensures
            final(self).function() is None,
            final(self).block() == old(self).block(),
            final(self).counter() == old(self).counter(),
    {
        self.current_function = None;
    }

    /// Set the current basic block
    pub fn set_current_block(&mut self, name: String)
        ensures
            final(self).block() == Some(name),
            final(self).function() == old(self).function(),
            final(self).counter() == old(self).counter(),
    {
        self.current_block = Some(name);
    }

    /// Clear the current basic block
    pub fn clear_current_block(&mut self)
        ensures
            final(self).block() is None,
            final(self).function() == old(self).function(),
            final(self).counter() == old(self).counter(),
    {
        self.current_block = None;
    }

    /// Get the current function name
    pub fn current_function(&self) -> (res: Option<&String>)
        ensures
            res is Some == self.function() is Some,
            res matches Some(s) ==> Some(*s) == self.function(),
    {
        self.current_function.as_ref()
    }

    /// Get the current basic block name
    pub fn current_block(&self) -> (res: Option<&String>)
        ensures
            res is Some == self.block() is Some,
            res matches Some(s) ==> Some(*s) == self.block(),
    {
        self.current_block.as_ref()
    }
}

/// A decimal numeral holds no dot.
proof fn lemma_decimal_no_dot(n: nat)
    ensures
        !decimal(n).contains('.'),
        decimal(n).len() >= 1,
    decreases n,
{
    if n >= 10 {
        lemma_decimal_no_dot(n / 10);
        assert forall|i: int| 0 <= i < decimal(n).len() implies decimal(n)[i] != '.' by {
            if i < decimal(n / 10).len() {
                assert(decimal(n)[i] == decimal(n / 10)[i]);
            }
        }
    }
}

/// Different numbers have different decimal numerals.
proof fn lemma_decimal_injective(a: nat, b: nat)
    requires
        decimal(a) == decimal(b),
    ensures
        a == b,
    decreases a + b,
{
    if a >= 10 && b >= 10 {
        let da = decimal(a / 10);
        let db = decimal(b / 10);
        assert(decimal(a).last() == digit_char(a % 10));
        assert(decimal(b).last() == digit_char(b % 10));
        assert(da == decimal(a).drop_last());
        assert(db == decimal(b).drop_last());
        lemma_decimal_injective(a / 10, b / 10);
        assert(a % 10 == b % 10);
        assert(a == 10 * (a / 10) + a % 10);
        assert(b == 10 * (b / 10) + b % 10);
    } else if a >= 10 {
        lemma_decimal_no_dot(a / 10);
        assert(decimal(a).len() == decimal(a / 10).len() + 1);
        assert(decimal(b).len() == 1);
    } else if b >= 10 {
        lemma_decimal_no_dot(b / 10);
        assert(decimal(b).len() == decimal(b / 10).len() + 1);
        assert(decimal(a).len() == 1);
    } else {
        assert(decimal(a)[0] == digit_char(a));
        assert(decimal(b)[0] == digit_char(b));
    }
}

/// Names generated from different counter values differ, whatever their prefixes: every name
/// the generator hands out is new.
pub proof fn lemma_var_names_unique(p1: Seq<char>, n1: nat, p2: Seq<char>, n2: nat)
    requires
        n1 != n2,
    ensures
        var_name(p1, n1) != var_name(p2, n2),
{
    let s1 = var_name(p1, n1);
    let s2 = var_name(p2, n2);
    let d1 = decimal(n1);
    let d2 = decimal(n2);
    lemma_decimal_no_dot(n1);
    lemma_decimal_no_dot(n2);
    reveal_strlit(".");
    if s1 == s2 {
        let l = s1.len();
        if d1.len() < d2.len() {
            let k = l - d1.len() - 1;
            assert(s1[k] == '.');
            assert(s2[k] == d2[k - (p2.len() + 1)]);
            assert(d2.contains(d2[k - (p2.len() + 1)]));
        } else if d2.len() < d1.len() {
            let k = l - d2.len() - 1;
            assert(s2[k] == '.');
            assert(s1[k] == d1[k - (p1.len() + 1)]);
            assert(d1.contains(d1[k - (p1.len() + 1)]));
        } else {
            assert(d1 =~= s1.subrange(l - d1.len(), l as int));
            assert(d2 =~= s2.subrange(l - d2.len(), l as int));
            lemma_decimal_injective(n1, n2);
        }
    }
}

} // verus!
