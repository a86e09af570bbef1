//! The region visitor: a single-pass, pre-order walk over the modeled
//! syntax tree that maintains the ledger, the region-depth counter, and the
//! active-region statistics slot, and collects one diagnostic line per
//! closed trust region.
//!
//! Every method's contract states that it computes exactly the matching
//! `scan_*` function of [`crate::scan`] on the visitor's abstract state.
use crate::counters::RsFileMetrics;
use crate::scan::{
    count_exprs, count_functions, count_item_impls, count_item_traits, count_methods, enter_scope,
    exit_scope, init_stat, lemma_scan_seq_facts, lemma_scan_seq_push, lemma_seq_size_concat,
    observe_deref, prev_within, room_for, scan_expr, scan_expr_unary, scan_expr_unsafe, scan_file,
    scan_impl_item_method, scan_item_fn, scan_item_impl, scan_item_mod, scan_item_trait, scan_node,
    scan_seq, VisitorModel,
};
use crate::stats::{BlockType, StatModel, UnsafeStat};
use crate::tree::{
    expr_size, node_size, seq_size, ExprNode, FnNode, ImplNode, IncludeTests, MethodNode, ModNode,
    Node, SourceFile, TraitNode, UnaryNode, UnsafeBlockNode,
};
use vstd::prelude::*;

verus! {

/// The state a freshly constructed visitor starts from: empty ledger, depth
/// zero, a blank statistics slot, and no diagnostic lines.
pub open spec fn fresh(include_tests: IncludeTests) -> VisitorModel {
    VisitorModel {
        include_tests,
        metrics: crate::counters::RsFileMetricsModel {
            counters: crate::counters::empty_block(),
            forbids_unsafe: false,
        },
        unsafe_scopes: 0,
        stat: StatModel {
            expr_prev: 0,
            expr_curr: 0,
            stmt: 0,
            block_type: BlockType::Inner,
            block: Seq::empty(),
            has_deref: false,
        },
        diagnostics: Seq::empty(),
    }
}

/// The region visitor for one file scan.
pub struct GeigerSynVisitor {
    /// Count constructs inside tests, or skip them whole.
    include_tests: IncludeTests,
    /// The resulting data from a single file scan.
    pub metrics: RsFileMetrics,
    /// The number of nested trust regions the visitor is currently in: for
    /// example 2 inside a trust-region block inside a trust-region
    /// function, 0 outside every trust region. A counter rather than a
    /// flag, because regions nest and only leaving the outermost one
    /// returns the walk to safe ground.
    unsafe_scopes: u32,
    /// The single live statistics slot for the region being traversed.
    unsafe_stat: UnsafeStat,
    /// One diagnostic line per closed region, in closing order; the caller
    /// prints or stores them.
    pub diagnostics: Vec<String>,
}

impl View for GeigerSynVisitor {
    type V = VisitorModel;

    closed spec fn view(&self) -> VisitorModel {
        VisitorModel {
            include_tests: self.include_tests,
            metrics: self.metrics@,
            unsafe_scopes: self.unsafe_scopes as nat,
            stat: self.unsafe_stat@,
            diagnostics: self.diagnostics.deep_view(),
        }
    }
}

impl GeigerSynVisitor {
    /// A visitor bound to the given test-inclusion policy, with everything
    /// else empty.
    pub fn new(include_tests: IncludeTests) -> (v: GeigerSynVisitor)
        ensures
            v@ == fresh(include_tests),
    {
        let v = GeigerSynVisitor {
            include_tests,
            metrics: Default::default(),
            unsafe_scopes: 0,
            unsafe_stat: UnsafeStat {
                expr_prev: 0,
                expr_curr: 0,
                stmt: 0,
                block_type: BlockType::Inner,
                block: String::new(),
                has_deref: false,
            },
            diagnostics: Vec::new(),
        };
        proof {
            assert(v.diagnostics.deep_view() =~= Seq::<Seq<char>>::empty());
            assert(v@ =~= fresh(include_tests));
        }
        v
    }

    /// One more open trust region.
    pub fn enter_unsafe_scope(&mut self)
        requires
            old(self)@.unsafe_scopes < u32::MAX,
        ensures
            final(self)@ == enter_scope(old(self)@),
    {
        self.unsafe_scopes = self.unsafe_scopes + 1;
        proof {
            assert(final(self)@ =~= enter_scope(old(self)@));
        }
    }

    /// Overwrite the statistics slot for a region just being entered: its
    /// shape, rendered source, direct-statement count, the current
    /// inside-bucket expression count as the baseline, and a cleared
    /// dereference flag.
    pub fn init_unsafe_stat(&mut self, block_type: BlockType, block: String, stmt: usize)
        ensures
            final(self)@ == init_stat(old(self)@, block_type, block@, stmt as nat),
    {
        self.unsafe_stat.block_type = block_type;
        self.unsafe_stat.block = block;
        self.unsafe_stat.expr_prev = self.metrics.counters.exprs.unsafe_;
        self.unsafe_stat.stmt = stmt;
        self.unsafe_stat.has_deref = false;
        proof {
            assert(final(self)@ =~= init_stat(old(self)@, block_type, block@, stmt as nat));
        }
    }

    /// Close the innermost open trust region: decrement the depth counter,
    /// record the final expression count, and append the region's
    /// diagnostic line. Closing with no region open is a contract
    /// violation, not a recoverable state.
    pub fn exit_unsafe_scope(&mut self)
        requires
            old(self)@.unsafe_scopes > 0,
            prev_within(old(self)@),
        ensures
            final(self)@ == exit_scope(old(self)@),
    {
        self.unsafe_scopes = self.unsafe_scopes - 1;
        self.unsafe_stat.expr_curr = self.metrics.counters.exprs.unsafe_;
        let line = self.unsafe_stat.stat();
        self.diagnostics.push(line);
        proof {
            assert(final(self)@.diagnostics =~= exit_scope(old(self)@).diagnostics);
            assert(final(self)@ =~= exit_scope(old(self)@));
        }
    }

    /// Walk a whole file: compute and store the file-level "forbids trust
    /// regions" flag, then visit every top-level item.
    pub fn visit_file(&mut self, file: &SourceFile)
        requires
            room_for(old(self)@, seq_size(file.items@)),
        ensures
            final(self)@ == scan_file(old(self)@, *file),
    {
        self.metrics.forbids_unsafe = file.forbids_unsafe;
        self.visit_nodes(&file.items);
        proof {
            assert(final(self)@ =~= scan_file(old(self)@, *file));
        }
    }

    /// A free-standing function declaration; see [`scan_item_fn`] for the
    /// policy it implements.
    pub fn visit_item_fn(&mut self, item_fn: &FnNode)
        requires
            room_for(old(self)@, 1 + seq_size(item_fn.body@)),
        ensures
            final(self)@ == scan_item_fn(old(self)@, *item_fn),
        decreases item_fn,
    {
        let ghost m = self@;
        if self.include_tests == IncludeTests::No && item_fn.test_attr {
            return ;
        }
        let unsafe_fn = item_fn.direct_unsafe || item_fn.attr_unsafe;
        let in_region = self.unsafe_scopes > 0;
        if unsafe_fn {
            self.init_unsafe_stat(
                BlockType::Function,
                item_fn.rendered.clone(),
                item_fn.body.len(),
            );
            self.enter_unsafe_scope();
        }
        let ghost m1 = self@;
        self.metrics.counters.functions.count(in_region);
        let ghost m2 = self@;
        proof {
            assert(m2 =~= count_functions(m1, in_region));
        }
        self.visit_nodes(&item_fn.body);
        proof {
            lemma_scan_seq_facts(m2, item_fn.body@);
        }
        if item_fn.direct_unsafe {
            self.exit_unsafe_scope();
        }
        proof {
            assert(final(self)@ =~= scan_item_fn(m, *item_fn));
        }
    }

    /// A method declaration: as a function, but the open/close pair is
    /// always driven by the direct marker alone.
    pub fn visit_impl_item_method(&mut self, method: &MethodNode)
        requires
            room_for(old(self)@, 1 + seq_size(method.body@)),
        ensures
            final(self)@ == scan_impl_item_method(old(self)@, *method),
        decreases method,
    {
        let ghost m = self@;
        let in_region = self.unsafe_scopes > 0;
        if method.direct_unsafe {
            self.init_unsafe_stat(BlockType::Method, method.rendered.clone(), method.body.len());
            self.enter_unsafe_scope();
        }
        let ghost m1 = self@;
        self.metrics.counters.methods.count(in_region);
        let ghost m2 = self@;
        proof {
            assert(m2 =~= count_methods(m1, in_region));
        }
        self.visit_nodes(&method.body);
        proof {
            lemma_scan_seq_facts(m2, method.body@);
        }
        if method.direct_unsafe {
            self.exit_unsafe_scope();
        }
        proof {
            assert(final(self)@ =~= scan_impl_item_method(m, *method));
        }
    }

    /// A trait declaration: counted once from its own declaration-level
    /// marker, then recursed into.
    pub fn visit_item_trait(&mut self, item_trait: &TraitNode)
        requires
            room_for(old(self)@, 1 + seq_size(item_trait.items@)),
        ensures
            final(self)@ == scan_item_trait(old(self)@, *item_trait),
        decreases item_trait,
    {
        let ghost m = self@;
        self.metrics.counters.item_traits.count(item_trait.declared_unsafe);
        let ghost m1 = self@;
        proof {
            assert(m1 =~= count_item_traits(m, item_trait.declared_unsafe));
        }
        self.visit_nodes(&item_trait.items);
        proof {
            assert(final(self)@ =~= scan_item_trait(m, *item_trait));
        }
    }

    /// An implementation block: counted once from its own declaration-level
    /// marker, then recursed into.
    pub fn visit_item_impl(&mut self, item_impl: &ImplNode)
        requires
            room_for(old(self)@, 1 + seq_size(item_impl.items@)),
        ensures
            final(self)@ == scan_item_impl(old(self)@, *item_impl),
        decreases item_impl,
    {
        let ghost m = self@;
        self.metrics.counters.item_impls.count(item_impl.declared_unsafe);
        let ghost m1 = self@;
        proof {
            assert(m1 =~= count_item_impls(m, item_impl.declared_unsafe));
        }
        self.visit_nodes(&item_impl.items);
        proof {
            assert(final(self)@ =~= scan_item_impl(m, *item_impl));
        }
    }

    /// A module declaration: a test module is skipped whole under the
    /// exclusion policy; otherwise its items are visited.
    pub fn visit_item_mod(&mut self, item_mod: &ModNode)
        requires
            room_for(old(self)@, 1 + seq_size(item_mod.items@)),
        ensures
            final(self)@ == scan_item_mod(old(self)@, *item_mod),
        decreases item_mod,
    {
        if self.include_tests == IncludeTests::No && item_mod.test_mod {
            return ;
        }
        self.visit_nodes(&item_mod.items);
    }

    /// One expression; see [`scan_expr`] for the three-way classification.
    pub fn visit_expr(&mut self, expr: &ExprNode)
        requires
            room_for(old(self)@, 1 + expr_size(*expr)),
        ensures
            final(self)@ == scan_expr(old(self)@, *expr),
        decreases expr,
    {
        let ghost m = self@;
        match expr {
            ExprNode::Unsafe(u) => {
                self.enter_unsafe_scope();
                let ghost m1 = self@;
                self.visit_expr_unsafe(u);
                proof {
                    lemma_scan_seq_facts(
                        init_stat(m1, BlockType::Inner, u.rendered@, u.stmts@.len()),
                        u.stmts@,
                    );
                }
                self.exit_unsafe_scope();
            },
            ExprNode::Path => {},
            ExprNode::Lit => {},
            ExprNode::Unary(u) => {
                self.metrics.counters.exprs.count(self.unsafe_scopes > 0);
                let ghost m1 = self@;
                proof {
                    assert(m1 =~= count_exprs(m, m.unsafe_scopes > 0));
                }
                self.visit_expr_unary(u);
            },
            ExprNode::Other(children) => {
                self.metrics.counters.exprs.count(self.unsafe_scopes > 0);
                let ghost m1 = self@;
                proof {
                    assert(m1 =~= count_exprs(m, m.unsafe_scopes > 0));
                }
                self.visit_nodes(children);
            },
        }
        proof {
            assert(final(self)@ =~= scan_expr(m, *expr));
        }
    }

    /// The interior of an inline trust-region block: reset the statistics
    /// slot, then visit the direct statements.
    pub fn visit_expr_unsafe(&mut self, expr_unsafe: &UnsafeBlockNode)
        requires
            room_for(old(self)@, seq_size(expr_unsafe.stmts@)),
        ensures
            final(self)@ == scan_expr_unsafe(old(self)@, *expr_unsafe),
        decreases expr_unsafe,
    {
        self.init_unsafe_stat(
            BlockType::Inner,
            expr_unsafe.rendered.clone(),
            expr_unsafe.stmts.len(),
        );
        self.visit_nodes(&expr_unsafe.stmts);
        proof {
            assert(final(self)@ =~= scan_expr_unsafe(old(self)@, *expr_unsafe));
        }
    }

    /// A unary-operator expression's interior: a raw-pointer dereference
    /// seen while a region is open sets the dereference flag; then the
    /// operands are visited.
    pub fn visit_expr_unary(&mut self, expr_unary: &UnaryNode)
        requires
            room_for(old(self)@, seq_size(expr_unary.children@)),
        ensures
            final(self)@ == scan_expr_unary(old(self)@, *expr_unary),
        decreases expr_unary,
    {
        let ghost m = self@;
        if self.unsafe_scopes > 0 && expr_unary.deref {
            self.unsafe_stat.has_deref = true;
            proof {
                assert(self@ =~= observe_deref(m));
            }
        }
        self.visit_nodes(&expr_unary.children);
        proof {
            assert(final(self)@ =~= scan_expr_unary(m, *expr_unary));
        }
    }

    /// Dispatch one node to the handler for its shape; shapes without one
    /// are recursed into without counting.
    pub fn visit_node(&mut self, node: &Node)
        requires
            room_for(old(self)@, node_size(*node)),
        ensures
            final(self)@ == scan_node(old(self)@, *node),
        decreases node,
    {
        match node {
            Node::ItemFn(f) => self.visit_item_fn(f),
            Node::ImplItemMethod(mm) => self.visit_impl_item_method(mm),
            Node::ItemTrait(t) => self.visit_item_trait(t),
            Node::ItemImpl(i) => self.visit_item_impl(i),
            Node::ItemMod(md) => self.visit_item_mod(md),
            Node::Expr(e) => self.visit_expr(e),
            Node::Other(children) => self.visit_nodes(children),
        }
    }

    /// The shared recursion helper: visit a sequence of sibling nodes, left
    /// to right.
    pub fn visit_nodes(&mut self, nodes: &Vec<Node>)
        requires
            room_for(old(self)@, seq_size(nodes@)),
        ensures
            final(self)@ == scan_seq(old(self)@, nodes@),
        decreases nodes@,
    {
        let ghost m0 = self@;
        let n = nodes.len();
        for i in 0..n
            invariant
                n == nodes@.len(),
                self@ == scan_seq(m0, nodes@.subrange(0, i as int)),
                room_for(m0, seq_size(nodes@)),
        {
            proof {
                let pre = nodes@.subrange(0, i as int);
                let post = nodes@.subrange(i as int, n as int);
                assert(nodes@ =~= pre + post);
                lemma_seq_size_concat(pre, post);
                assert(post[0] == nodes@[i as int]);
                assert(post.subrange(1, post.len() as int) =~= nodes@.subrange(
                    i as int + 1,
                    n as int,
                ));
                lemma_seq_size_concat(
                    Seq::empty().push(nodes@[i as int]),
                    nodes@.subrange(i as int + 1, n as int),
                );
                assert(Seq::empty().push(nodes@[i as int]) + nodes@.subrange(
                    i as int + 1,
                    n as int,
                ) =~= post);
                assert(seq_size(Seq::empty().push(nodes@[i as int])) == node_size(
                    nodes@[i as int],
                ));
                lemma_scan_seq_facts(m0, pre);
            }
            self.visit_node(&nodes[i]);
            proof {
                lemma_scan_seq_push(m0, nodes@.subrange(0, i as int), nodes@[i as int]);
                assert(nodes@.subrange(0, i as int + 1) =~= nodes@.subrange(0, i as int).push(
                    nodes@[i as int],
                ));
            }
        }
        proof {
            assert(nodes@.subrange(0, n as int) =~= nodes@);
        }
    }
}

} // verus!
