//! The expression engine: user-authored formulas compiled and evaluated by
//! the `evalexpr` crate behind trusted wrappers.
//!
//! A formula is compiled once at startup into an operator tree; per tracking
//! frame it is evaluated against a variable context that maps blend-shape
//! and head-pose names to doubles. The library never looks inside the tree
//! or the context: the tree is keyed by its source text, the context by the
//! map of variable names to value bit patterns (`ctx_vars`), and the
//! evaluation outcome by both (`eval_result`).
//!
//! The formula language this bridge supports is arithmetic and comparisons
//! over named scalar variables, so the contexts built here have `evalexpr`'s
//! builtin functions disabled. That also keeps evaluation total and pure:
//! with builtins off, every evaluation path in `evalexpr` either returns a
//! value or returns an error (integer arithmetic is checked, a function
//! call is `FunctionIdentifierNotFound`), never panics — some builtins
//! would (`str::substring` slices a string by byte index) — and the
//! remaining operators are IEEE 754 arithmetic, a function of the tree and
//! the variables alone.

use vstd::prelude::*;

use evalexpr::Context;
use evalexpr::ContextWithMutableVariables;
use evalexpr::HashMapContext;

verus! {

#[verifier::external_type_specification]
#[verifier::external_body]
pub struct ExNode(evalexpr::Node);

#[verifier::external_type_specification]
#[verifier::external_body]
pub struct ExHashMapContext(HashMapContext);

/// The empty variable map.
pub open spec fn no_vars() -> Map<Seq<char>, u64> {
    Map::empty()
}

/// Whether `evalexpr::build_operator_tree` accepts the formula.
pub uninterp spec fn compiles(formula: Seq<char>) -> bool;

/// The variables a context holds, as a map from name to the bit pattern of
/// the double stored under it.
pub uninterp spec fn ctx_vars(c: HashMapContext) -> Map<Seq<char>, u64>;

/// Whether the context is one this module built: every variable holds a
/// double, no custom functions were registered, and builtin functions are
/// disabled. `evalexpr::HashMapContext::set_value` rejects a value whose
/// type differs from the one already stored under the name, so the wrappers
/// keep to contexts where every store is a double and therefore always
/// succeeds; and with builtins off, evaluation against such a context never
/// panics.
pub uninterp spec fn ctx_wf(c: HashMapContext) -> bool;

/// What evaluating the tree compiled from `formula` against the variables
/// `vars` returns: the bit pattern of the resulting double, or `None` when
/// evaluation fails (a variable missing from `vars`, a type error) or the
/// result is not a double.
pub uninterp spec fn eval_result(formula: Seq<char>, vars: Map<Seq<char>, u64>) -> Option<u64>;

/// A formula compiled once at startup. `node` always holds the tree that
/// `evalexpr::build_operator_tree` returned for `source`: the fields are
/// private and `compile_formula` is the only constructor, so the outcome of
/// evaluating `node` is a function of `source` and the variables.
pub struct CompiledExpr {
    source: String,
    node: evalexpr::Node,
}

impl CompiledExpr {
    /// The source text the expression was compiled from.
    pub closed spec fn spec_source(&self) -> Seq<char> {
        self.source@
    }

    pub fn source(&self) -> (r: &str)
        ensures
            r@ == self.spec_source(),
    {
        self.source.as_str()
    }
}

/// Relies on `evalexpr::build_operator_tree`: a pure function of the formula
/// text, returning the operator tree or a parse error.
#[verifier::external_body]
pub(crate) fn compile_formula(formula: &str) -> (r: Option<CompiledExpr>)
    ensures
        r is Some <==> compiles(formula@),
        r is Some ==> r->0.spec_source() == formula@,
{
    match evalexpr::build_operator_tree(formula) {
        Ok(node) => Some(CompiledExpr { source: formula.to_string(), node }),
        Err(_) => None,
    }
}

/// Relies on `evalexpr::HashMapContext::new` and
/// `set_builtin_functions_disabled`: the new context holds no variables and
/// no functions, and switching builtins off only sets a flag and always
/// succeeds on this type.
#[verifier::external_body]
pub(crate) fn ctx_new() -> (c: HashMapContext)
    ensures
        ctx_wf(c) && ctx_vars(c) == no_vars(),
{
    let mut c = HashMapContext::new();
    let _ = c.set_builtin_functions_disabled(true);
    c
}

/// Relies on `evalexpr::HashMapContext::set_value`: storing a double under a
/// name inserts or replaces that variable and succeeds on a context whose
/// variables all hold doubles.
#[verifier::external_body]
pub(crate) fn ctx_set(c: &mut HashMapContext, name: &str, bits: u64)
    requires
        ctx_wf(*old(c)),
    ensures
        ctx_wf(*final(c)),
        ctx_vars(*final(c)) == ctx_vars(*old(c)).insert(name@, bits),
{
    let _ = c.set_value(String::from(name), evalexpr::Value::Float(evalexpr::FloatType::from_bits(bits)));
}

/// Relies on `evalexpr::Node::eval_with_context` and
/// `evalexpr::Value::as_float`: on a context built by this module — builtin
/// functions disabled, all variables doubles — evaluation returns a value
/// or an error, never panics, and the outcome depends on the compiled
/// formula and the stored variables alone.
#[verifier::external_body]
pub(crate) fn eval_compiled(e: &CompiledExpr, c: &HashMapContext) -> (r: Option<u64>)
    requires
        ctx_wf(*c),
    ensures
        r == eval_result(e.spec_source(), ctx_vars(*c)),
{
    match e.node.eval_with_context(c) {
        Ok(v) => match v.as_float() {
            Ok(f) => Some(f.to_bits()),
            Err(_) => None,
        },
        Err(_) => None,
    }
}

} // verus!
