//! Properties of a whole scan, proved once and for all over the model of
//! [`crate::scan`]: what a file without trust regions yields, that region
//! entries and exits balance, which expressions are and are not counted,
//! that excluded test code contributes nothing, and how a raw-pointer
//! dereference reaches a region's diagnostic line.
use crate::scan::{
    count_exprs, enter_scope, exit_scope, init_stat, observe_deref, scan_expr, scan_file,
    scan_item_fn, scan_item_mod, scan_node, scan_seq, VisitorModel,
};
use crate::stats::{line_of, BlockType, StatModel};
use crate::tree::{ExprNode, FnNode, IncludeTests, ModNode, Node, SourceFile, UnaryNode};
use crate::visitor::fresh;
use vstd::prelude::*;

verus! {

/// No trust region — and no unsafe-marked trait or implementation block —
/// anywhere in the subtree.
pub open spec fn region_free_node(n: Node) -> bool
    decreases n,
{
    match n {
        Node::ItemFn(f) => !f.direct_unsafe && !f.attr_unsafe && region_free_seq(f.body@),
        Node::ImplItemMethod(mm) => !mm.direct_unsafe && region_free_seq(mm.body@),
        Node::ItemTrait(t) => !t.declared_unsafe && region_free_seq(t.items@),
        Node::ItemImpl(i) => !i.declared_unsafe && region_free_seq(i.items@),
        Node::ItemMod(md) => region_free_seq(md.items@),
        Node::Expr(e) => region_free_expr(e),
        Node::Other(children) => region_free_seq(children@),
    }
}

/// As [`region_free_node`], for one expression.
pub open spec fn region_free_expr(e: ExprNode) -> bool
    decreases e,
{
    match e {
        ExprNode::Unsafe(_) => false,
        ExprNode::Path => true,
        ExprNode::Lit => true,
        ExprNode::Unary(u) => region_free_seq(u.children@),
        ExprNode::Other(children) => region_free_seq(children@),
    }
}

/// As [`region_free_node`], for a sequence of sibling nodes.
pub open spec fn region_free_seq(ns: Seq<Node>) -> bool
    decreases ns,
{
    ns.len() == 0 || (region_free_node(ns[0]) && region_free_seq(ns.subrange(1, ns.len() as int)))
}

/// The five inside-buckets of the ledger are unchanged between two states,
/// as are the depth counter, the statistics slot and the diagnostics.
pub open spec fn inside_untouched(m: VisitorModel, r: VisitorModel) -> bool {
    &&& r.metrics.counters.functions.unsafe_ == m.metrics.counters.functions.unsafe_
    &&& r.metrics.counters.exprs.unsafe_ == m.metrics.counters.exprs.unsafe_
    &&& r.metrics.counters.item_impls.unsafe_ == m.metrics.counters.item_impls.unsafe_
    &&& r.metrics.counters.item_traits.unsafe_ == m.metrics.counters.item_traits.unsafe_
    &&& r.metrics.counters.methods.unsafe_ == m.metrics.counters.methods.unsafe_
    &&& r.unsafe_scopes == m.unsafe_scopes
    &&& r.stat == m.stat
    &&& r.diagnostics == m.diagnostics
}

/// Scanning a region-free subtree from outside every trust region touches
/// no inside-bucket, does not move the depth counter, and leaves the
/// statistics slot and the diagnostics alone.
pub proof fn lemma_region_free_node(m: VisitorModel, n: Node)
    requires
        region_free_node(n),
        m.unsafe_scopes == 0,
    ensures
        inside_untouched(m, scan_node(m, n)),
    decreases n,
{
    match n {
        Node::ItemFn(f) => {
            if m.include_tests == IncludeTests::No && f.test_attr {
            } else {
                lemma_region_free_seq(crate::scan::count_functions(m, false), f.body@);
            }
        },
        Node::ImplItemMethod(mm) => {
            lemma_region_free_seq(
                crate::scan::count_methods(m, false),
                mm.body@,
            );
        },
        Node::ItemTrait(t) => {
            lemma_region_free_seq(crate::scan::count_item_traits(m, false), t.items@);
        },
        Node::ItemImpl(i) => {
            lemma_region_free_seq(crate::scan::count_item_impls(m, false), i.items@);
        },
        Node::ItemMod(md) => {
            if m.include_tests == IncludeTests::No && md.test_mod {
            } else {
                lemma_region_free_seq(m, md.items@);
            }
        },
        Node::Expr(e) => {
            lemma_region_free_expr(m, e);
        },
        Node::Other(children) => {
            lemma_region_free_seq(m, children@);
        },
    }
}

/// As [`lemma_region_free_node`], for one expression.
pub proof fn lemma_region_free_expr(m: VisitorModel, e: ExprNode)
    requires
        region_free_expr(e),
        m.unsafe_scopes == 0,
    ensures
        inside_untouched(m, scan_expr(m, e)),
    decreases e,
{
    match e {
        ExprNode::Unsafe(_) => {},
        ExprNode::Path => {},
        ExprNode::Lit => {},
        ExprNode::Unary(u) => {
            lemma_region_free_seq(count_exprs(m, false), u.children@);
        },
        ExprNode::Other(children) => {
            lemma_region_free_seq(count_exprs(m, false), children@);
        },
    }
}

/// As [`lemma_region_free_node`], for a sequence of sibling nodes.
pub proof fn lemma_region_free_seq(m: VisitorModel, ns: Seq<Node>)
    requires
        region_free_seq(ns),
        m.unsafe_scopes == 0,
    ensures
        inside_untouched(m, scan_seq(m, ns)),
    decreases ns,
{
    if ns.len() == 0 {
    } else {
        lemma_region_free_node(m, ns[0]);
        lemma_region_free_seq(scan_node(m, ns[0]), ns.subrange(1, ns.len() as int));
    }
}

/// A file with zero trust regions, scanned by a fresh visitor: every
/// category's inside-bucket is zero, the depth counter ends at zero, and no
/// diagnostic line is emitted.
pub proof fn lemma_region_free_file(policy: IncludeTests, f: SourceFile)
    requires
        region_free_seq(f.items@),
    ensures
        ({
            let r = scan_file(fresh(policy), f);
            &&& r.metrics.counters.functions.unsafe_ == 0
            &&& r.metrics.counters.exprs.unsafe_ == 0
            &&& r.metrics.counters.item_impls.unsafe_ == 0
            &&& r.metrics.counters.item_traits.unsafe_ == 0
            &&& r.metrics.counters.methods.unsafe_ == 0
            &&& r.unsafe_scopes == 0
            &&& r.diagnostics.len() == 0
        }),
{
    let m0 = VisitorModel {
        metrics: crate::counters::RsFileMetricsModel {
            forbids_unsafe: f.forbids_unsafe,
            ..fresh(policy).metrics
        },
        ..fresh(policy)
    };
    lemma_region_free_seq(m0, f.items@);
}

/// The number of trust-region entries the traversal of a subtree performs
/// without a matching exit: one per traversed function that is a region by
/// attribute convention only, which opens a region for its body but is not
/// closed on the way out — the one deliberate asymmetry of the design.
pub open spec fn leak_count_node(n: Node, inc: IncludeTests) -> nat
    decreases n,
{
    match n {
        Node::ItemFn(f) => if inc == IncludeTests::No && f.test_attr {
            0
        } else {
            (if f.attr_unsafe && !f.direct_unsafe {
                1nat
            } else {
                0nat
            }) + leak_count_seq(f.body@, inc)
        },
        Node::ImplItemMethod(mm) => leak_count_seq(mm.body@, inc),
        Node::ItemTrait(t) => leak_count_seq(t.items@, inc),
        Node::ItemImpl(i) => leak_count_seq(i.items@, inc),
        Node::ItemMod(md) => if inc == IncludeTests::No && md.test_mod {
            0
        } else {
            leak_count_seq(md.items@, inc)
        },
        Node::Expr(e) => leak_count_expr(e, inc),
        Node::Other(children) => leak_count_seq(children@, inc),
    }
}

/// As [`leak_count_node`], for one expression.
pub open spec fn leak_count_expr(e: ExprNode, inc: IncludeTests) -> nat
    decreases e,
{
    match e {
        ExprNode::Unsafe(u) => leak_count_seq(u.stmts@, inc),
        ExprNode::Path => 0,
        ExprNode::Lit => 0,
        ExprNode::Unary(u) => leak_count_seq(u.children@, inc),
        ExprNode::Other(children) => leak_count_seq(children@, inc),
    }
}

/// As [`leak_count_node`], for a sequence of sibling nodes.
pub open spec fn leak_count_seq(ns: Seq<Node>, inc: IncludeTests) -> nat
    decreases ns,
{
    if ns.len() == 0 {
        0
    } else {
        leak_count_node(ns[0], inc) + leak_count_seq(ns.subrange(1, ns.len() as int), inc)
    }
}

/// Region entries and exits balance exactly: after a subtree is scanned the
/// depth counter stands where it started plus one per unclosed
/// attribute-convention region; in particular it never ends below its
/// starting value, and with no such region it returns to it exactly.
pub proof fn lemma_depth_balance_node(m: VisitorModel, n: Node)
    ensures
        scan_node(m, n).unsafe_scopes == m.unsafe_scopes + leak_count_node(n, m.include_tests),
        scan_node(m, n).include_tests == m.include_tests,
    decreases n,
{
    match n {
        Node::ItemFn(f) => {
            if m.include_tests == IncludeTests::No && f.test_attr {
            } else {
                let unsafe_fn = f.direct_unsafe || f.attr_unsafe;
                let m1 = if unsafe_fn {
                    enter_scope(init_stat(m, BlockType::Function, f.rendered@, f.body@.len()))
                } else {
                    m
                };
                let m2 = crate::scan::count_functions(m1, m.unsafe_scopes > 0);
                lemma_depth_balance_seq(m2, f.body@);
            }
        },
        Node::ImplItemMethod(mm) => {
            let m1 = if mm.direct_unsafe {
                enter_scope(init_stat(m, BlockType::Method, mm.rendered@, mm.body@.len()))
            } else {
                m
            };
            let m2 = crate::scan::count_methods(m1, m.unsafe_scopes > 0);
            lemma_depth_balance_seq(m2, mm.body@);
        },
        Node::ItemTrait(t) => {
            lemma_depth_balance_seq(crate::scan::count_item_traits(m, t.declared_unsafe), t.items@);
        },
        Node::ItemImpl(i) => {
            lemma_depth_balance_seq(crate::scan::count_item_impls(m, i.declared_unsafe), i.items@);
        },
        Node::ItemMod(md) => {
            if m.include_tests == IncludeTests::No && md.test_mod {
            } else {
                lemma_depth_balance_seq(m, md.items@);
            }
        },
        Node::Expr(e) => {
            lemma_depth_balance_expr(m, e);
        },
        Node::Other(children) => {
            lemma_depth_balance_seq(m, children@);
        },
    }
}

/// As [`lemma_depth_balance_node`], for one expression.
pub proof fn lemma_depth_balance_expr(m: VisitorModel, e: ExprNode)
    ensures
        scan_expr(m, e).unsafe_scopes == m.unsafe_scopes + leak_count_expr(e, m.include_tests),
        scan_expr(m, e).include_tests == m.include_tests,
    decreases e,
{
    match e {
        ExprNode::Unsafe(u) => {
            lemma_depth_balance_seq(
                init_stat(enter_scope(m), BlockType::Inner, u.rendered@, u.stmts@.len()),
                u.stmts@,
            );
        },
        ExprNode::Path => {},
        ExprNode::Lit => {},
        ExprNode::Unary(u) => {
            let m0 = count_exprs(m, m.unsafe_scopes > 0);
            let m1 = if m0.unsafe_scopes > 0 && u.deref {
                observe_deref(m0)
            } else {
                m0
            };
            lemma_depth_balance_seq(m1, u.children@);
        },
        ExprNode::Other(children) => {
            lemma_depth_balance_seq(count_exprs(m, m.unsafe_scopes > 0), children@);
        },
    }
}

/// As [`lemma_depth_balance_node`], for a sequence of sibling nodes.
pub proof fn lemma_depth_balance_seq(m: VisitorModel, ns: Seq<Node>)
    ensures
        scan_seq(m, ns).unsafe_scopes == m.unsafe_scopes + leak_count_seq(ns, m.include_tests),
        scan_seq(m, ns).include_tests == m.include_tests,
    decreases ns,
{
    if ns.len() == 0 {
    } else {
        lemma_depth_balance_node(m, ns[0]);
        lemma_depth_balance_seq(scan_node(m, ns[0]), ns.subrange(1, ns.len() as int));
    }
}

/// Over a full fresh scan of a file, the depth counter ends exactly at the
/// number of unclosed attribute-convention regions: zero exactly when every
/// region entry had a matching exit, and any leak is detectable as a
/// non-zero final depth.
pub proof fn lemma_depth_balance_file(policy: IncludeTests, f: SourceFile)
    ensures
        scan_file(fresh(policy), f).unsafe_scopes == leak_count_seq(f.items@, policy),
{
    let m0 = VisitorModel {
        metrics: crate::counters::RsFileMetricsModel {
            forbids_unsafe: f.forbids_unsafe,
            ..fresh(policy).metrics
        },
        ..fresh(policy)
    };
    lemma_depth_balance_seq(m0, f.items@);
}

/// A bare name reference and a literal constant are not counted at all —
/// the whole visitor state is untouched — whether inside or outside a trust
/// region.
pub proof fn lemma_trivial_exprs_uncounted(m: VisitorModel)
    ensures
        scan_node(m, Node::Expr(ExprNode::Path)) == m,
        scan_node(m, Node::Expr(ExprNode::Lit)) == m,
{
}

/// All nodes of the sequence are bare name references or literal constants.
pub open spec fn all_trivial(ns: Seq<Node>) -> bool {
    forall|i: int|
        0 <= i < ns.len() ==> (ns[i] == Node::Expr(ExprNode::Path) || ns[i] == Node::Expr(
            ExprNode::Lit,
        ))
}

/// A call expression whose arguments are bare name references — `f(x)` —
/// raises "generic expressions" by exactly one, for the call itself, and
/// changes nothing else.
pub proof fn lemma_call_counts_once(m: VisitorModel, children: Vec<Node>)
    requires
        all_trivial(children@),
    ensures
        scan_node(m, Node::Expr(ExprNode::Other(children))) == count_exprs(
            m,
            m.unsafe_scopes > 0,
        ),
{
    lemma_trivial_seq_identity(count_exprs(m, m.unsafe_scopes > 0), children@);
}

/// Scanning a sequence of trivial expressions changes nothing.
pub proof fn lemma_trivial_seq_identity(m: VisitorModel, ns: Seq<Node>)
    requires
        all_trivial(ns),
    ensures
        scan_seq(m, ns) == m,
    decreases ns,
{
    if ns.len() == 0 {
    } else {
        assert(scan_node(m, ns[0]) == m);
        assert(all_trivial(ns.subrange(1, ns.len() as int)));
        lemma_trivial_seq_identity(m, ns.subrange(1, ns.len() as int));
    }
}

/// Under the exclusion policy, a test-marked function contributes nothing:
/// no counts, no traversal, no region, no diagnostics.
pub proof fn lemma_test_fn_skipped(m: VisitorModel, f: FnNode)
    requires
        m.include_tests == IncludeTests::No,
        f.test_attr,
    ensures
        scan_item_fn(m, f) == m,
{
}

/// Under the exclusion policy, a test module contributes nothing.
pub proof fn lemma_test_mod_skipped(m: VisitorModel, md: ModNode)
    requires
        m.include_tests == IncludeTests::No,
        md.test_mod,
    ensures
        scan_item_mod(m, md) == m,
{
}

/// A raw-pointer dereference outside every trust region never sets the
/// dereference flag: the unary expression is counted and recursed into with
/// the statistics slot untouched.
pub proof fn lemma_deref_outside_never_sets(m: VisitorModel, u: UnaryNode)
    requires
        m.unsafe_scopes == 0,
        region_free_seq(u.children@),
    ensures
        scan_expr(m, ExprNode::Unary(u)).stat == m.stat,
{
    lemma_region_free_seq(count_exprs(m, false), u.children@);
}

/// Scanning a region-free subtree never clears the dereference flag: only
/// a region entry or exit does.
pub proof fn lemma_region_free_keeps_flag_node(m: VisitorModel, n: Node)
    requires
        region_free_node(n),
        m.stat.has_deref,
    ensures
        scan_node(m, n).stat.has_deref,
    decreases n,
{
    match n {
        Node::ItemFn(f) => {
            if m.include_tests == IncludeTests::No && f.test_attr {
            } else {
                // A region-free function never opens a region, so only the
                // count happens before its body.
                lemma_region_free_keeps_flag_seq(
                    crate::scan::count_functions(m, m.unsafe_scopes > 0),
                    f.body@,
                );
            }
        },
        Node::ImplItemMethod(mm) => {
            lemma_region_free_keeps_flag_seq(
                crate::scan::count_methods(m, m.unsafe_scopes > 0),
                mm.body@,
            );
        },
        Node::ItemTrait(t) => {
            lemma_region_free_keeps_flag_seq(
                crate::scan::count_item_traits(m, t.declared_unsafe),
                t.items@,
            );
        },
        Node::ItemImpl(i) => {
            lemma_region_free_keeps_flag_seq(
                crate::scan::count_item_impls(m, i.declared_unsafe),
                i.items@,
            );
        },
        Node::ItemMod(md) => {
            if m.include_tests == IncludeTests::No && md.test_mod {
            } else {
                lemma_region_free_keeps_flag_seq(m, md.items@);
            }
        },
        Node::Expr(e) => {
            lemma_region_free_keeps_flag_expr(m, e);
        },
        Node::Other(children) => {
            lemma_region_free_keeps_flag_seq(m, children@);
        },
    }
}

/// As [`lemma_region_free_keeps_flag_node`], for one expression.
pub proof fn lemma_region_free_keeps_flag_expr(m: VisitorModel, e: ExprNode)
    requires
        region_free_expr(e),
        m.stat.has_deref,
    ensures
        scan_expr(m, e).stat.has_deref,
    decreases e,
{
    match e {
        ExprNode::Unsafe(_) => {},
        ExprNode::Path => {},
        ExprNode::Lit => {},
        ExprNode::Unary(u) => {
            let m0 = count_exprs(m, m.unsafe_scopes > 0);
            let m1 = if m0.unsafe_scopes > 0 && u.deref {
                observe_deref(m0)
            } else {
                m0
            };
            lemma_region_free_keeps_flag_seq(m1, u.children@);
        },
        ExprNode::Other(children) => {
            lemma_region_free_keeps_flag_seq(count_exprs(m, m.unsafe_scopes > 0), children@);
        },
    }
}

/// As [`lemma_region_free_keeps_flag_node`], for a sequence.
pub proof fn lemma_region_free_keeps_flag_seq(m: VisitorModel, ns: Seq<Node>)
    requires
        region_free_seq(ns),
        m.stat.has_deref,
    ensures
        scan_seq(m, ns).stat.has_deref,
    decreases ns,
{
    if ns.len() == 0 {
    } else {
        lemma_region_free_keeps_flag_node(m, ns[0]);
        lemma_region_free_keeps_flag_seq(scan_node(m, ns[0]), ns.subrange(1, ns.len() as int));
    }
}

/// A raw-pointer dereference strictly inside an open trust region sets the
/// dereference flag, and it stays set through the rest of a region-free
/// span.
pub proof fn lemma_deref_inside_sets(m: VisitorModel, u: UnaryNode)
    requires
        m.unsafe_scopes > 0,
        u.deref,
        region_free_seq(u.children@),
    ensures
        scan_expr(m, ExprNode::Unary(u)).stat.has_deref,
{
    let m1 = observe_deref(count_exprs(m, true));
    lemma_region_free_keeps_flag_seq(m1, u.children@);
}

/// Closing a region appends exactly one diagnostic line, and when the
/// dereference flag stood set the line ends with the dereference marker.
pub proof fn lemma_exit_reports_deref(m: VisitorModel)
    requires
        m.unsafe_scopes > 0,
    ensures
        exit_scope(m).diagnostics.len() == m.diagnostics.len() + 1,
        exit_scope(m).diagnostics.last() == line_of(
            StatModel { expr_curr: m.metrics.counters.exprs.unsafe_, ..m.stat },
        ),
        m.stat.has_deref ==> ({
            let line = exit_scope(m).diagnostics.last();
            let marker = " ~ Dereference Operation"@;
            line.len() >= marker.len() && line.subrange(
                line.len() - marker.len(),
                line.len() as int,
            ) == marker
        }),
{
    let st = StatModel { expr_curr: m.metrics.counters.exprs.unsafe_, ..m.stat };
    let line = line_of(st);
    if m.stat.has_deref {
        let marker = " ~ Dereference Operation"@;
        assert(line.subrange(line.len() - marker.len(), line.len() as int) =~= marker);
    }
}

} // verus!
