//! The mathematical model of one file scan.
//!
//! [`VisitorModel`] is the visitor's whole abstract state; the `scan_*`
//! functions say, node shape by node shape, what one pre-order traversal
//! does to that state. The executable visitor's contracts state that it
//! computes exactly these functions.
use crate::counters::{block_total, bump, CounterBlockModel, RsFileMetricsModel};
use crate::stats::{line_of, BlockType, StatModel};
use crate::tree::{
    expr_size, node_size, seq_size, ExprNode, FnNode, ImplNode, IncludeTests, MethodNode, ModNode,
    Node, SourceFile, TraitNode, UnaryNode, UnsafeBlockNode,
};
use vstd::prelude::*;

verus! {

/// The visitor's whole abstract state: the policy it was built with, the
/// ledger, the region-depth counter, the active-region statistics slot, and
/// the diagnostic lines collected so far, oldest first.
#[verifier::ext_equal]
pub ghost struct VisitorModel {
    pub include_tests: IncludeTests,
    pub metrics: RsFileMetricsModel,
    pub unsafe_scopes: nat,
    pub stat: StatModel,
    pub diagnostics: Seq<Seq<char>>,
}

/// The baseline recorded by the statistics slot never exceeds the running
/// inside-bucket expression count it was taken from. Counters only grow, so
/// every transition preserves this; it is what makes each region's reported
/// expression delta non-negative.
pub open spec fn prev_within(m: VisitorModel) -> bool {
    m.stat.expr_prev <= m.metrics.counters.exprs.unsafe_
}

/// Room left before any counter or the depth counter could overflow after
/// `extra` more traversal steps.
pub open spec fn room_for(m: VisitorModel, extra: nat) -> bool {
    &&& block_total(m.metrics.counters) + extra <= u64::MAX
    &&& m.unsafe_scopes + extra <= u32::MAX
}

/// Replace the counter block.
pub open spec fn with_counters(m: VisitorModel, c: CounterBlockModel) -> VisitorModel {
    VisitorModel { metrics: RsFileMetricsModel { counters: c, ..m.metrics }, ..m }
}

/// Count a function declaration.
pub open spec fn count_functions(m: VisitorModel, in_unsafe: bool) -> VisitorModel {
    with_counters(
        m,
        CounterBlockModel {
            functions: bump(m.metrics.counters.functions, in_unsafe),
            ..m.metrics.counters
        },
    )
}

/// Count a generic expression.
pub open spec fn count_exprs(m: VisitorModel, in_unsafe: bool) -> VisitorModel {
    with_counters(
        m,
        CounterBlockModel { exprs: bump(m.metrics.counters.exprs, in_unsafe), ..m.metrics.counters },
    )
}

/// Count an implementation block.
pub open spec fn count_item_impls(m: VisitorModel, in_unsafe: bool) -> VisitorModel {
    with_counters(
        m,
        CounterBlockModel {
            item_impls: bump(m.metrics.counters.item_impls, in_unsafe),
            ..m.metrics.counters
        },
    )
}

/// Count a trait declaration.
pub open spec fn count_item_traits(m: VisitorModel, in_unsafe: bool) -> VisitorModel {
    with_counters(
        m,
        CounterBlockModel {
            item_traits: bump(m.metrics.counters.item_traits, in_unsafe),
            ..m.metrics.counters
        },
    )
}

/// Count a method declaration.
pub open spec fn count_methods(m: VisitorModel, in_unsafe: bool) -> VisitorModel {
    with_counters(
        m,
        CounterBlockModel {
            methods: bump(m.metrics.counters.methods, in_unsafe),
            ..m.metrics.counters
        },
    )
}

/// Enter a trust region: one more open region.
pub open spec fn enter_scope(m: VisitorModel) -> VisitorModel {
    VisitorModel { unsafe_scopes: m.unsafe_scopes + 1, ..m }
}

/// Reset the active-region statistics slot for a region just being entered:
/// its shape, its rendered source, its direct-statement count, the current
/// inside-bucket expression count as the baseline, and a clear dereference
/// flag.
pub open spec fn init_stat(
    m: VisitorModel,
    block_type: BlockType,
    block: Seq<char>,
    stmt: nat,
) -> VisitorModel {
    VisitorModel {
        stat: StatModel {
            block_type,
            block,
            expr_prev: m.metrics.counters.exprs.unsafe_,
            stmt,
            has_deref: false,
            expr_curr: m.stat.expr_curr,
        },
        ..m
    }
}

/// Leave a trust region: one less open region, the final expression count
/// recorded, the diagnostic line for the closing region appended, and the
/// dereference flag cleared for the next region.
pub open spec fn exit_scope(m: VisitorModel) -> VisitorModel {
    let st = StatModel { expr_curr: m.metrics.counters.exprs.unsafe_, ..m.stat };
    VisitorModel {
        unsafe_scopes: (m.unsafe_scopes - 1) as nat,
        stat: StatModel { has_deref: false, ..st },
        diagnostics: m.diagnostics.push(line_of(st)),
        ..m
    }
}

/// Record that a raw-pointer dereference was seen while a region is open.
pub open spec fn observe_deref(m: VisitorModel) -> VisitorModel {
    VisitorModel { stat: StatModel { has_deref: true, ..m.stat }, ..m }
}

/// One free-standing function declaration.
///
/// A test function is skipped whole under the exclusion policy. A function
/// that is a trust region — declared so directly, or marked unsafe by
/// attribute convention — resets the statistics slot and opens a region
/// before its body. The declaration itself is counted with the depth the
/// traversal had before that entry: a function is never inside itself. Only
/// the directly-declared kind closes its region afterwards; the
/// attribute-marked kind leaves it open, an asymmetry kept on purpose.
pub open spec fn scan_item_fn(m: VisitorModel, f: FnNode) -> VisitorModel
    decreases f,
{
    if m.include_tests == IncludeTests::No && f.test_attr {
        m
    } else {
        let unsafe_fn = f.direct_unsafe || f.attr_unsafe;
        let in_region = m.unsafe_scopes > 0;
        let m1 = if unsafe_fn {
            enter_scope(init_stat(m, BlockType::Function, f.rendered@, f.body@.len()))
        } else {
            m
        };
        let m2 = count_functions(m1, in_region);
        let m3 = scan_seq(m2, f.body@);
        if f.direct_unsafe {
            exit_scope(m3)
        } else {
            m3
        }
    }
}

/// One method declaration: as a function, but the open/close pair is always
/// driven by the direct marker alone.
pub open spec fn scan_impl_item_method(m: VisitorModel, mm: MethodNode) -> VisitorModel
    decreases mm,
{
    let in_region = m.unsafe_scopes > 0;
    let m1 = if mm.direct_unsafe {
        enter_scope(init_stat(m, BlockType::Method, mm.rendered@, mm.body@.len()))
    } else {
        m
    };
    let m2 = count_methods(m1, in_region);
    let m3 = scan_seq(m2, mm.body@);
    if mm.direct_unsafe {
        exit_scope(m3)
    } else {
        m3
    }
}

/// One trait declaration: counted by its own declaration-level marker,
/// independent of nesting; never a region itself.
pub open spec fn scan_item_trait(m: VisitorModel, t: TraitNode) -> VisitorModel
    decreases t,
{
    scan_seq(count_item_traits(m, t.declared_unsafe), t.items@)
}

/// One implementation block: counted by its own declaration-level marker,
/// independent of nesting; never a region itself.
pub open spec fn scan_item_impl(m: VisitorModel, i: ImplNode) -> VisitorModel
    decreases i,
{
    scan_seq(count_item_impls(m, i.declared_unsafe), i.items@)
}

/// One module declaration: a test module is skipped whole under the
/// exclusion policy; otherwise its items are visited and nothing is counted
/// for the module itself.
pub open spec fn scan_item_mod(m: VisitorModel, md: ModNode) -> VisitorModel
    decreases md,
{
    if m.include_tests == IncludeTests::No && md.test_mod {
        m
    } else {
        scan_seq(m, md.items@)
    }
}

/// An inline trust-region block's interior: reset the statistics slot with
/// shape `Inner`, then visit the direct statements. Entering and leaving the
/// region happen around this, in [`scan_expr`].
pub open spec fn scan_expr_unsafe(m: VisitorModel, u: UnsafeBlockNode) -> VisitorModel
    decreases u,
{
    scan_seq(init_stat(m, BlockType::Inner, u.rendered@, u.stmts@.len()), u.stmts@)
}

/// A unary-operator expression's interior: a raw-pointer dereference seen
/// while a region is open sets the dereference flag, a pure observation;
/// then the operands are visited.
pub open spec fn scan_expr_unary(m: VisitorModel, u: UnaryNode) -> VisitorModel
    decreases u,
{
    let m1 = if m.unsafe_scopes > 0 && u.deref {
        observe_deref(m)
    } else {
        m
    };
    scan_seq(m1, u.children@)
}

/// One expression. An inline trust-region block opens a region, visits its
/// statements, and closes it again. A bare name reference or a literal
/// constant is deliberately not counted at all. Every other expression is
/// counted once under "generic expressions", inside or outside by the
/// current depth, and recursed into.
pub open spec fn scan_expr(m: VisitorModel, e: ExprNode) -> VisitorModel
    decreases e,
{
    match e {
        ExprNode::Unsafe(u) => exit_scope(scan_expr_unsafe(enter_scope(m), u)),
        ExprNode::Path => m,
        ExprNode::Lit => m,
        ExprNode::Unary(u) => scan_expr_unary(count_exprs(m, m.unsafe_scopes > 0), u),
        ExprNode::Other(children) => scan_seq(
            count_exprs(m, m.unsafe_scopes > 0),
            children@,
        ),
    }
}

/// One node of any shape. Shapes without a handler of their own are
/// recursed into without counting.
pub open spec fn scan_node(m: VisitorModel, n: Node) -> VisitorModel
    decreases n,
{
    match n {
        Node::ItemFn(f) => scan_item_fn(m, f),
        Node::ImplItemMethod(mm) => scan_impl_item_method(m, mm),
        Node::ItemTrait(t) => scan_item_trait(m, t),
        Node::ItemImpl(i) => scan_item_impl(m, i),
        Node::ItemMod(md) => scan_item_mod(m, md),
        Node::Expr(e) => scan_expr(m, e),
        Node::Other(children) => scan_seq(m, children@),
    }
}

/// A sequence of sibling nodes, left to right.
pub open spec fn scan_seq(m: VisitorModel, ns: Seq<Node>) -> VisitorModel
    decreases ns,
{
    if ns.len() == 0 {
        m
    } else {
        scan_seq(scan_node(m, ns[0]), ns.subrange(1, ns.len() as int))
    }
}

/// A whole file: the file-level "forbids trust regions" flag is computed
/// once and stored, then every top-level item is visited.
pub open spec fn scan_file(m: VisitorModel, f: SourceFile) -> VisitorModel {
    scan_seq(
        VisitorModel {
            metrics: RsFileMetricsModel { forbids_unsafe: f.forbids_unsafe, ..m.metrics },
            ..m
        },
        f.items@,
    )
}

/// Scanning one more node on the right is scanning the sequence, then that
/// node.
pub proof fn lemma_scan_seq_push(m: VisitorModel, ns: Seq<Node>, n: Node)
    ensures
        scan_seq(m, ns.push(n)) == scan_node(scan_seq(m, ns), n),
    decreases ns.len(),
{
    reveal_with_fuel(scan_seq, 2);
    if ns.len() == 0 {
        assert(ns.push(n)[0] == n);
        assert(ns.push(n).subrange(1, ns.push(n).len() as int) =~= Seq::<Node>::empty());
    } else {
        assert(ns.push(n)[0] == ns[0]);
        assert(ns.push(n).subrange(1, ns.push(n).len() as int) =~= ns.subrange(
            1,
            ns.len() as int,
        ).push(n));
        lemma_scan_seq_push(scan_node(m, ns[0]), ns.subrange(1, ns.len() as int), n);
    }
}

/// The size of a concatenation is the sum of the sizes.
pub proof fn lemma_seq_size_concat(a: Seq<Node>, b: Seq<Node>)
    ensures
        seq_size(a + b) == seq_size(a) + seq_size(b),
    decreases a.len(),
{
    if a.len() == 0 {
        assert(a + b =~= b);
    } else {
        assert((a + b)[0] == a[0]);
        assert((a + b).subrange(1, (a + b).len() as int) =~= a.subrange(1, a.len() as int) + b);
        lemma_seq_size_concat(a.subrange(1, a.len() as int), b);
    }
}

/// The facts every scan preserves: the depth counter never drops below its
/// starting value and climbs at most by the subtree's size; the ledger's
/// total load grows at most by the subtree's size; the inside-bucket
/// expression count is monotone; and the statistics baseline stays within
/// that count.
pub proof fn lemma_scan_node_facts(m: VisitorModel, n: Node)
    ensures
        scan_node(m, n).unsafe_scopes >= m.unsafe_scopes,
        scan_node(m, n).unsafe_scopes <= m.unsafe_scopes + node_size(n),
        block_total(scan_node(m, n).metrics.counters) <= block_total(m.metrics.counters)
            + node_size(n),
        scan_node(m, n).metrics.counters.exprs.unsafe_ >= m.metrics.counters.exprs.unsafe_,
        prev_within(m) ==> prev_within(scan_node(m, n)),
    decreases n,
{
    match n {
        Node::ItemFn(f) => {
            if m.include_tests == IncludeTests::No && f.test_attr {
            } else {
                let unsafe_fn = f.direct_unsafe || f.attr_unsafe;
                let in_region = m.unsafe_scopes > 0;
                let m1 = if unsafe_fn {
                    enter_scope(init_stat(m, BlockType::Function, f.rendered@, f.body@.len()))
                } else {
                    m
                };
                let m2 = count_functions(m1, in_region);
                lemma_scan_seq_facts(m2, f.body@);
            }
        },
        Node::ImplItemMethod(mm) => {
            let in_region = m.unsafe_scopes > 0;
            let m1 = if mm.direct_unsafe {
                enter_scope(init_stat(m, BlockType::Method, mm.rendered@, mm.body@.len()))
            } else {
                m
            };
            let m2 = count_methods(m1, in_region);
            lemma_scan_seq_facts(m2, mm.body@);
        },
        Node::ItemTrait(t) => {
            lemma_scan_seq_facts(count_item_traits(m, t.declared_unsafe), t.items@);
        },
        Node::ItemImpl(i) => {
            lemma_scan_seq_facts(count_item_impls(m, i.declared_unsafe), i.items@);
        },
        Node::ItemMod(md) => {
            if m.include_tests == IncludeTests::No && md.test_mod {
            } else {
                lemma_scan_seq_facts(m, md.items@);
            }
        },
        Node::Expr(e) => {
            lemma_scan_expr_facts(m, e);
        },
        Node::Other(children) => {
            lemma_scan_seq_facts(m, children@);
        },
    }
}

/// As [`lemma_scan_node_facts`], for one expression.
pub proof fn lemma_scan_expr_facts(m: VisitorModel, e: ExprNode)
    ensures
        scan_expr(m, e).unsafe_scopes >= m.unsafe_scopes,
        scan_expr(m, e).unsafe_scopes <= m.unsafe_scopes + 1 + expr_size(e),
        block_total(scan_expr(m, e).metrics.counters) <= block_total(m.metrics.counters) + 1
            + expr_size(e),
        scan_expr(m, e).metrics.counters.exprs.unsafe_ >= m.metrics.counters.exprs.unsafe_,
        prev_within(m) ==> prev_within(scan_expr(m, e)),
    decreases e,
{
    match e {
        ExprNode::Unsafe(u) => {
            let m1 = init_stat(enter_scope(m), BlockType::Inner, u.rendered@, u.stmts@.len());
            lemma_scan_seq_facts(m1, u.stmts@);
        },
        ExprNode::Path => {},
        ExprNode::Lit => {},
        ExprNode::Unary(u) => {
            let m0 = count_exprs(m, m.unsafe_scopes > 0);
            let m1 = if m0.unsafe_scopes > 0 && u.deref {
                observe_deref(m0)
            } else {
                m0
            };
            lemma_scan_seq_facts(m1, u.children@);
        },
        ExprNode::Other(children) => {
            lemma_scan_seq_facts(count_exprs(m, m.unsafe_scopes > 0), children@);
        },
    }
}

/// As [`lemma_scan_node_facts`], for a sequence of sibling nodes.
pub proof fn lemma_scan_seq_facts(m: VisitorModel, ns: Seq<Node>)
    ensures
        scan_seq(m, ns).unsafe_scopes >= m.unsafe_scopes,
        scan_seq(m, ns).unsafe_scopes <= m.unsafe_scopes + seq_size(ns),
        block_total(scan_seq(m, ns).metrics.counters) <= block_total(m.metrics.counters)
            + seq_size(ns),
        scan_seq(m, ns).metrics.counters.exprs.unsafe_ >= m.metrics.counters.exprs.unsafe_,
        prev_within(m) ==> prev_within(scan_seq(m, ns)),
    decreases ns,
{
    if ns.len() == 0 {
    } else {
        lemma_scan_node_facts(m, ns[0]);
        lemma_scan_seq_facts(scan_node(m, ns[0]), ns.subrange(1, ns.len() as int));
    }
}

} // verus!
