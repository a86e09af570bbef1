//! The syntax-tree model the visitor walks.
//!
//! The tree holds, as plain values, exactly what the traversal reads from a
//! parsed file: which declarations are marked as trust regions, which
//! functions and modules are test code, the rendered source text of each
//! region (used only for diagnostic lines), and the child nodes. An outside
//! parser produces the real syntax tree; the caller converts it to this model
//! before handing it to the visitor.
use vstd::prelude::*;

verus! {

/// The test-inclusion policy: whether constructs inside test functions and
/// test modules are counted or skipped entirely.
#[derive(Clone, Copy, PartialEq, Eq, Structural, Debug)]
pub enum IncludeTests {
    Yes,
    No,
}

/// A free-standing function declaration.
pub struct FnNode {
    /// Declared as a trust region directly in its signature.
    pub direct_unsafe: bool,
    /// Carries an attribute that marks it unsafe by convention.
    pub attr_unsafe: bool,
    /// Marked as a test function (by name or attribute).
    pub test_attr: bool,
    /// Rendered source text, used only for the diagnostic line.
    pub rendered: String,
    /// One node per direct statement of the body.
    pub body: Vec<Node>,
}

/// A method declaration inside an implementation block.
pub struct MethodNode {
    /// Declared as a trust region directly in its signature.
    pub direct_unsafe: bool,
    /// Rendered source text, used only for the diagnostic line.
    pub rendered: String,
    /// One node per direct statement of the body.
    pub body: Vec<Node>,
}

/// A trait declaration.
pub struct TraitNode {
    /// Declared unsafe at the trait itself.
    pub declared_unsafe: bool,
    /// The trait's items (method default bodies and the like).
    pub items: Vec<Node>,
}

/// An implementation block.
pub struct ImplNode {
    /// Declared unsafe at the block itself.
    pub declared_unsafe: bool,
    /// The block's items; methods among them are `Node::ImplItemMethod`.
    pub items: Vec<Node>,
}

/// A module declaration.
pub struct ModNode {
    /// Classified as a test module.
    pub test_mod: bool,
    /// The module's items (empty for an out-of-line module).
    pub items: Vec<Node>,
}

/// An inline trust-region block expression.
pub struct UnsafeBlockNode {
    /// Rendered source text, used only for the diagnostic line.
    pub rendered: String,
    /// One node per direct statement of the block.
    pub stmts: Vec<Node>,
}

/// A unary-operator expression.
pub struct UnaryNode {
    /// The operator is a raw-pointer dereference.
    pub deref: bool,
    /// The operand and any attribute payloads.
    pub children: Vec<Node>,
}

/// An expression, classified as far as the traversal cares.
pub enum ExprNode {
    /// An inline trust-region block.
    Unsafe(UnsafeBlockNode),
    /// A bare name reference: deliberately not counted.
    Path,
    /// A literal constant: deliberately not counted.
    Lit,
    /// A unary-operator expression (counted, and checked for dereference).
    Unary(UnaryNode),
    /// Any other expression, with its immediate child nodes.
    Other(Vec<Node>),
}

/// One node of the modeled syntax tree.
pub enum Node {
    /// A free-standing function declaration.
    ItemFn(FnNode),
    /// A method inside an implementation block.
    ImplItemMethod(MethodNode),
    /// A trait declaration.
    ItemTrait(TraitNode),
    /// An implementation block.
    ItemImpl(ImplNode),
    /// A module declaration.
    ItemMod(ModNode),
    /// An expression.
    Expr(ExprNode),
    /// Any other node shape: recursed into without counting.
    Other(Vec<Node>),
}

/// A whole parsed source file.
pub struct SourceFile {
    /// The file carries a file-level attribute forbidding trust regions.
    pub forbids_unsafe: bool,
    /// The file's top-level items.
    pub items: Vec<Node>,
}

/// Number of nodes in a tree, the measure for every traversal bound.
pub open spec fn node_size(n: Node) -> nat
    decreases n,
{
    match n {
        Node::ItemFn(f) => 1 + seq_size(f.body@),
        Node::ImplItemMethod(m) => 1 + seq_size(m.body@),
        Node::ItemTrait(t) => 1 + seq_size(t.items@),
        Node::ItemImpl(i) => 1 + seq_size(i.items@),
        Node::ItemMod(m) => 1 + seq_size(m.items@),
        Node::Expr(e) => 1 + expr_size(e),
        Node::Other(children) => 1 + seq_size(children@),
    }
}

/// Number of nodes under an expression, not counting the expression itself.
pub open spec fn expr_size(e: ExprNode) -> nat
    decreases e,
{
    match e {
        ExprNode::Unsafe(u) => seq_size(u.stmts@),
        ExprNode::Path => 0,
        ExprNode::Lit => 0,
        ExprNode::Unary(u) => seq_size(u.children@),
        ExprNode::Other(children) => seq_size(children@),
    }
}

/// Total number of nodes in a sequence of trees.
pub open spec fn seq_size(ns: Seq<Node>) -> nat
    decreases ns,
{
    if ns.len() == 0 {
        0
    } else {
        node_size(ns[0]) + seq_size(ns.subrange(1, ns.len() as int))
    }
}

} // verus!
