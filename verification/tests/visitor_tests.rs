use geiger::stats::u64_to_dec;
use geiger::tree::{
    ExprNode, FnNode, ImplNode, IncludeTests, MethodNode, ModNode, Node, SourceFile, TraitNode,
    UnaryNode, UnsafeBlockNode,
};
use geiger::visitor::GeigerSynVisitor;

fn path_expr() -> Node {
    Node::Expr(ExprNode::Path)
}

fn lit_expr() -> Node {
    Node::Expr(ExprNode::Lit)
}

fn call_expr(args: Vec<Node>) -> Node {
    Node::Expr(ExprNode::Other(args))
}

fn deref_expr(operand: Node) -> Node {
    Node::Expr(ExprNode::Unary(UnaryNode { deref: true, children: vec![operand] }))
}

fn unsafe_block(text: &str, stmts: Vec<Node>) -> Node {
    Node::Expr(ExprNode::Unsafe(UnsafeBlockNode {
        rendered: text.to_string(),
        stmts,
    }))
}

fn safe_fn(text: &str, body: Vec<Node>) -> Node {
    Node::ItemFn(FnNode {
        direct_unsafe: false,
        attr_unsafe: false,
        test_attr: false,
        rendered: text.to_string(),
        body,
    })
}

fn file_of(items: Vec<Node>) -> SourceFile {
    SourceFile { forbids_unsafe: false, items }
}

fn scan(policy: IncludeTests, file: &SourceFile) -> GeigerSynVisitor {
    let mut v = GeigerSynVisitor::new(policy);
    v.visit_file(file);
    v
}

#[test]
fn decimal_rendering() {
    assert_eq!(u64_to_dec(0).as_str(), "0");
    assert_eq!(u64_to_dec(7).as_str(), "7");
    assert_eq!(u64_to_dec(10).as_str(), "10");
    assert_eq!(u64_to_dec(1234).as_str(), "1234");
    assert_eq!(u64_to_dec(u64::MAX).as_str(), "18446744073709551615");
}

#[test]
fn fresh_visitor_is_empty() {
    let v = GeigerSynVisitor::new(IncludeTests::Yes);
    assert_eq!(v.metrics.counters.functions.safe, 0);
    assert_eq!(v.metrics.counters.functions.unsafe_, 0);
    assert_eq!(v.metrics.counters.exprs.safe, 0);
    assert_eq!(v.metrics.counters.exprs.unsafe_, 0);
    assert_eq!(v.metrics.counters.item_impls.safe, 0);
    assert_eq!(v.metrics.counters.item_impls.unsafe_, 0);
    assert_eq!(v.metrics.counters.item_traits.safe, 0);
    assert_eq!(v.metrics.counters.item_traits.unsafe_, 0);
    assert_eq!(v.metrics.counters.methods.safe, 0);
    assert_eq!(v.metrics.counters.methods.unsafe_, 0);
    assert!(!v.metrics.forbids_unsafe);
    assert!(v.diagnostics.is_empty());
}

#[test]
fn forbid_flag_is_stored() {
    let file = SourceFile { forbids_unsafe: true, items: vec![] };
    let v = scan(IncludeTests::Yes, &file);
    assert!(v.metrics.forbids_unsafe);
    assert!(v.diagnostics.is_empty());
}

#[test]
fn region_free_file_has_empty_inside_buckets() {
    // A safe function whose body works through a call and some names:
    // nothing lands in an inside bucket and no region ever closes.
    let file = file_of(vec![
        safe_fn("fn a () { f (x) ; }", vec![call_expr(vec![path_expr(), path_expr()])]),
        safe_fn("fn b () { }", vec![]),
    ]);
    let v = scan(IncludeTests::Yes, &file);
    assert_eq!(v.metrics.counters.functions.safe, 2);
    assert_eq!(v.metrics.counters.functions.unsafe_, 0);
    assert_eq!(v.metrics.counters.exprs.safe, 1);
    assert_eq!(v.metrics.counters.exprs.unsafe_, 0);
    assert!(v.diagnostics.is_empty());
}

#[test]
fn trivial_expressions_are_not_counted() {
    let file = file_of(vec![path_expr(), lit_expr()]);
    let v = scan(IncludeTests::Yes, &file);
    assert_eq!(v.metrics.counters.exprs.safe, 0);
    assert_eq!(v.metrics.counters.exprs.unsafe_, 0);
}

#[test]
fn trivial_expressions_inside_region_are_not_counted() {
    let file = file_of(vec![unsafe_block("unsafe { x ; 1 ; }", vec![path_expr(), lit_expr()])]);
    let v = scan(IncludeTests::Yes, &file);
    assert_eq!(v.metrics.counters.exprs.safe, 0);
    assert_eq!(v.metrics.counters.exprs.unsafe_, 0);
    // The region still closes and reports its two direct statements.
    assert_eq!(v.diagnostics.len(), 1);
    assert_eq!(v.diagnostics[0].as_str(), "unsafe { x ; 1 ; } ~ Inner ~ 0 ~ 2");
}

#[test]
fn call_with_identifier_arguments_counts_once() {
    // `f(x)`: one call expression, not three.
    let file = file_of(vec![call_expr(vec![path_expr(), path_expr()])]);
    let v = scan(IncludeTests::Yes, &file);
    assert_eq!(v.metrics.counters.exprs.safe, 1);
    assert_eq!(v.metrics.counters.exprs.unsafe_, 0);
}

#[test]
fn excluded_test_function_contributes_nothing() {
    let test_fn = Node::ItemFn(FnNode {
        direct_unsafe: true,
        attr_unsafe: false,
        test_attr: true,
        rendered: "unsafe fn t () { g (y) ; }".to_string(),
        body: vec![call_expr(vec![path_expr()])],
    });
    let file = file_of(vec![test_fn]);
    let v = scan(IncludeTests::No, &file);
    assert_eq!(v.metrics.counters.functions.safe, 0);
    assert_eq!(v.metrics.counters.functions.unsafe_, 0);
    assert_eq!(v.metrics.counters.exprs.safe, 0);
    assert_eq!(v.metrics.counters.exprs.unsafe_, 0);
    assert!(v.diagnostics.is_empty());
}

#[test]
fn included_test_function_is_counted() {
    let test_fn = Node::ItemFn(FnNode {
        direct_unsafe: false,
        attr_unsafe: false,
        test_attr: true,
        rendered: "fn t () { g (y) ; }".to_string(),
        body: vec![call_expr(vec![path_expr()])],
    });
    let file = file_of(vec![test_fn]);
    let v = scan(IncludeTests::Yes, &file);
    assert_eq!(v.metrics.counters.functions.safe, 1);
    assert_eq!(v.metrics.counters.exprs.safe, 1);
}

#[test]
fn excluded_test_module_is_skipped() {
    let module = Node::ItemMod(ModNode {
        test_mod: true,
        items: vec![safe_fn("fn t () { }", vec![]), unsafe_block("unsafe { h () ; }", vec![
            call_expr(vec![]),
        ])],
    });
    let file = file_of(vec![module]);
    let v = scan(IncludeTests::No, &file);
    assert_eq!(v.metrics.counters.functions.safe, 0);
    assert_eq!(v.metrics.counters.exprs.safe, 0);
    assert_eq!(v.metrics.counters.exprs.unsafe_, 0);
    assert!(v.diagnostics.is_empty());
}

#[test]
fn non_test_module_is_traversed() {
    let module = Node::ItemMod(ModNode {
        test_mod: false,
        items: vec![safe_fn("fn t () { }", vec![])],
    });
    let file = file_of(vec![module]);
    let v = scan(IncludeTests::No, &file);
    assert_eq!(v.metrics.counters.functions.safe, 1);
}

#[test]
fn traits_and_impls_are_classified_by_their_own_marker() {
    let file = file_of(vec![
        Node::ItemTrait(TraitNode { declared_unsafe: true, items: vec![] }),
        Node::ItemTrait(TraitNode { declared_unsafe: false, items: vec![] }),
        Node::ItemImpl(ImplNode { declared_unsafe: true, items: vec![] }),
        Node::ItemImpl(ImplNode { declared_unsafe: false, items: vec![call_expr(vec![])] }),
    ]);
    let v = scan(IncludeTests::Yes, &file);
    assert_eq!(v.metrics.counters.item_traits.safe, 1);
    assert_eq!(v.metrics.counters.item_traits.unsafe_, 1);
    assert_eq!(v.metrics.counters.item_impls.safe, 1);
    assert_eq!(v.metrics.counters.item_impls.unsafe_, 1);
    assert_eq!(v.metrics.counters.exprs.safe, 1);
}

#[test]
fn unsafe_function_body_is_inside_a_region() {
    // The declaration itself is counted with the pre-entry depth (a
    // function is never inside itself); its body is inside the region it
    // opens, and the directly-declared region closes with a diagnostic.
    let f = Node::ItemFn(FnNode {
        direct_unsafe: true,
        attr_unsafe: false,
        test_attr: false,
        rendered: "unsafe fn u () { g () ; }".to_string(),
        body: vec![call_expr(vec![])],
    });
    let file = file_of(vec![f, call_expr(vec![])]);
    let v = scan(IncludeTests::Yes, &file);
    assert_eq!(v.metrics.counters.functions.safe, 1);
    assert_eq!(v.metrics.counters.functions.unsafe_, 0);
    assert_eq!(v.metrics.counters.exprs.unsafe_, 1);
    // The call after the function body is outside again: the region closed.
    assert_eq!(v.metrics.counters.exprs.safe, 1);
    assert_eq!(v.diagnostics.len(), 1);
    assert_eq!(v.diagnostics[0].as_str(), "unsafe fn u () { g () ; } ~ Function ~ 1 ~ 1");
}

#[test]
fn attribute_marked_function_leaks_its_region() {
    // A function that is a region by attribute convention only opens a
    // region for its body but is never closed on this path: no diagnostic
    // line appears, and what follows it still counts as inside.
    let f = Node::ItemFn(FnNode {
        direct_unsafe: false,
        attr_unsafe: true,
        test_attr: false,
        rendered: "fn n () { }".to_string(),
        body: vec![],
    });
    let file = file_of(vec![f, call_expr(vec![])]);
    let v = scan(IncludeTests::Yes, &file);
    assert!(v.diagnostics.is_empty());
    assert_eq!(v.metrics.counters.exprs.unsafe_, 1);
    assert_eq!(v.metrics.counters.exprs.safe, 0);
}

#[test]
fn unsafe_method_opens_and_closes_its_region() {
    let method = Node::ImplItemMethod(MethodNode {
        direct_unsafe: true,
        rendered: "unsafe fn m (& self) { h () ; }".to_string(),
        body: vec![call_expr(vec![])],
    });
    let file = file_of(vec![Node::ItemImpl(ImplNode { declared_unsafe: false, items: vec![
        method,
    ] })]);
    let v = scan(IncludeTests::Yes, &file);
    assert_eq!(v.metrics.counters.methods.safe, 1);
    assert_eq!(v.metrics.counters.methods.unsafe_, 0);
    assert_eq!(v.metrics.counters.exprs.unsafe_, 1);
    assert_eq!(v.diagnostics.len(), 1);
    assert_eq!(v.diagnostics[0].as_str(), "unsafe fn m (& self) { h () ; } ~ Method ~ 1 ~ 1");
}

#[test]
fn deref_outside_region_is_not_marked() {
    // A dereference outside every trust region never sets the flag: a
    // region closing later shows no dereference marker.
    let file = file_of(vec![
        deref_expr(path_expr()),
        unsafe_block("unsafe { k () ; }", vec![call_expr(vec![])]),
    ]);
    let v = scan(IncludeTests::Yes, &file);
    assert_eq!(v.metrics.counters.exprs.safe, 1);
    assert_eq!(v.diagnostics.len(), 1);
    assert_eq!(v.diagnostics[0].as_str(), "unsafe { k () ; } ~ Inner ~ 1 ~ 1");
}

#[test]
fn deref_inside_region_marks_the_line() {
    let file = file_of(vec![unsafe_block("unsafe { * p ; }", vec![deref_expr(path_expr())])]);
    let v = scan(IncludeTests::Yes, &file);
    assert_eq!(v.diagnostics.len(), 1);
    assert_eq!(
        v.diagnostics[0].as_str(),
        "unsafe { * p ; } ~ Inner ~ 1 ~ 1 ~ Dereference Operation"
    );
}

#[test]
fn safe_fn_with_unsafe_block_scenario() {
    // One safe function holding one directly-marked trust-region block
    // with one dereference expression and one call, two statements in all.
    let block = unsafe_block(
        "unsafe { * p ; q () ; }",
        vec![deref_expr(path_expr()), call_expr(vec![])],
    );
    let file = file_of(vec![safe_fn("fn s () { unsafe { * p ; q () ; } }", vec![block])]);
    let v = scan(IncludeTests::Yes, &file);
    assert_eq!(v.metrics.counters.functions.safe, 1);
    assert_eq!(v.metrics.counters.functions.unsafe_, 0);
    assert!(v.metrics.counters.exprs.unsafe_ >= 1);
    assert_eq!(v.diagnostics.len(), 1);
    assert_eq!(
        v.diagnostics[0].as_str(),
        "unsafe { * p ; q () ; } ~ Inner ~ 2 ~ 2 ~ Dereference Operation"
    );
}

#[test]
fn nested_regions_reuse_the_statistics_slot() {
    // One statistics slot is shared by all regions: the inner region's
    // entry overwrites the outer one's record, so the outer region's line
    // carries the inner region's text, shape and statement count, and an
    // expression delta measured from the inner region's entry.
    let inner = unsafe_block("unsafe { b ( ) ; }", vec![call_expr(vec![])]);
    let outer = unsafe_block(
        "unsafe { a ( ) ; unsafe { b ( ) ; } c ( ) ; }",
        vec![call_expr(vec![]), inner, call_expr(vec![])],
    );
    let file = file_of(vec![outer]);
    let v = scan(IncludeTests::Yes, &file);
    assert_eq!(v.metrics.counters.exprs.unsafe_, 3);
    assert_eq!(v.diagnostics.len(), 2);
    // Innermost first, as regions close.
    assert_eq!(v.diagnostics[0].as_str(), "unsafe { b ( ) ; } ~ Inner ~ 1 ~ 1");
    assert_eq!(v.diagnostics[1].as_str(), "unsafe { b ( ) ; } ~ Inner ~ 2 ~ 1");
}

#[test]
fn ledger_count_operation() {
    let mut c = geiger::counters::Count::default();
    c.count(false);
    c.count(true);
    c.count(true);
    assert_eq!(c.safe, 1);
    assert_eq!(c.unsafe_, 2);
}

#[test]
fn manual_scope_bookkeeping() {
    // The public entry/exit pair drives the depth and the diagnostics
    // directly: one exit after one entry emits one line for the slot as it
    // stands.
    let mut v = GeigerSynVisitor::new(IncludeTests::Yes);
    v.enter_unsafe_scope();
    v.init_unsafe_stat(geiger::stats::BlockType::Inner, "unsafe { }".to_string(), 0);
    v.exit_unsafe_scope();
    assert_eq!(v.diagnostics.len(), 1);
    assert_eq!(v.diagnostics[0].as_str(), "unsafe { } ~ Inner ~ 0 ~ 0");
}
