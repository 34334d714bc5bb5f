use databend_query::error::ErrorCode;
use databend_query::infer_filter::{
    collect_column_predicates, BoundColumnRef, ColumnPredicate, ComparisonOp, ConstantExpr, Filter,
    FunctionCall, PatternPlan, PredicateSet, RelOp, RelOperator, RuleID, RuleInferFilter, SExpr,
    ScalarExpr, TransformResult,
};

fn col(index: usize) -> ScalarExpr {
    ScalarExpr::BoundColumnRef(BoundColumnRef { index })
}

fn lit(value: i64) -> ScalarExpr {
    ScalarExpr::ConstantExpr(ConstantExpr { value })
}

fn call(name: &str, a: ScalarExpr, b: ScalarExpr) -> ScalarExpr {
    ScalarExpr::FunctionCall(FunctionCall { func_name: name.to_string(), arguments: vec![a, b] })
}

fn pred(op: ComparisonOp, value: i64) -> ColumnPredicate {
    ColumnPredicate { op, scalar: ConstantExpr { value } }
}

#[test]
fn comparison_names() {
    assert_eq!(ComparisonOp::try_from_func_name(&"eq".to_string()), Some(ComparisonOp::Equal));
    assert_eq!(ComparisonOp::try_from_func_name(&"noteq".to_string()), Some(ComparisonOp::NotEqual));
    assert_eq!(ComparisonOp::try_from_func_name(&"lt".to_string()), Some(ComparisonOp::LT));
    assert_eq!(ComparisonOp::try_from_func_name(&"lte".to_string()), Some(ComparisonOp::LTE));
    assert_eq!(ComparisonOp::try_from_func_name(&"gt".to_string()), Some(ComparisonOp::GT));
    assert_eq!(ComparisonOp::try_from_func_name(&"gte".to_string()), Some(ComparisonOp::GTE));
    assert_eq!(ComparisonOp::try_from_func_name(&"plus".to_string()), None);
}

#[test]
fn new_rule_matches_filter_over_anything() {
    let rule = RuleInferFilter::new();
    assert_eq!(rule.id(), RuleID::InferFilter);
    let patterns = rule.patterns();
    assert_eq!(patterns.len(), 1);
    match &patterns[0].plan {
        RelOperator::Pattern(p) => assert_eq!(p.plan_type, RelOp::Filter),
        _ => panic!("pattern root"),
    }
    assert_eq!(patterns[0].children.len(), 1);
    match &patterns[0].children[0].plan {
        RelOperator::Pattern(p) => assert_eq!(p.plan_type, RelOp::Pattern),
        _ => panic!("pattern leaf"),
    }
    assert!(patterns[0].children[0].children.is_empty());
}

#[test]
fn prune_compares_only_lt_gt_and_gt_gt() {
    assert_eq!(PredicateSet::prune(&pred(ComparisonOp::LT, 1), &pred(ComparisonOp::GT, 5)), Some(true));
    assert_eq!(PredicateSet::prune(&pred(ComparisonOp::GT, 9), &pred(ComparisonOp::GT, 5)), Some(false));
    assert_eq!(PredicateSet::prune(&pred(ComparisonOp::GT, 5), &pred(ComparisonOp::GT, 5)), Some(false));
    assert_eq!(PredicateSet::prune(&pred(ComparisonOp::Equal, 1), &pred(ComparisonOp::GT, 5)), None);
    assert_eq!(PredicateSet::prune(&pred(ComparisonOp::LT, 1), &pred(ComparisonOp::LT, 5)), None);
    assert_eq!(PredicateSet::prune(&pred(ComparisonOp::GTE, 1), &pred(ComparisonOp::GT, 5)), None);
}

#[test]
fn merge_predicate_appends_per_column() {
    let mut set = PredicateSet::new();
    set.merge_predicate(3, pred(ComparisonOp::GT, 1));
    set.merge_predicate(4, pred(ComparisonOp::Equal, 2));
    set.merge_predicate(3, pred(ComparisonOp::LT, 9));
    assert_eq!(set.predicates_on(3), vec![pred(ComparisonOp::GT, 1), pred(ComparisonOp::LT, 9)]);
    assert_eq!(set.predicates_on(4), vec![pred(ComparisonOp::Equal, 2)]);
    assert_eq!(set.predicates_on(5), vec![]);
}

#[test]
fn collect_groups_column_constant_comparisons() {
    let predicates = vec![
        call("gt", col(1), lit(10)),
        call("lt", lit(20), col(1)),
        call("eq", col(1), col(2)),
        call("plus", col(2), lit(3)),
        call("noteq", col(2), lit(7)),
        lit(1),
    ];
    let set = collect_column_predicates(&predicates);
    assert_eq!(set.predicates_on(1), vec![pred(ComparisonOp::GT, 10), pred(ComparisonOp::LT, 20)]);
    assert_eq!(set.predicates_on(2), vec![pred(ComparisonOp::NotEqual, 7)]);
}

#[test]
fn apply_on_filter_produces_nothing() {
    let rule = RuleInferFilter::new();
    let filter = SExpr::create_unary(
        RelOperator::Filter(Filter {
            predicates: vec![call("gt", col(0), lit(1)), call("gt", col(0), lit(2))],
            is_having: false,
        }),
        SExpr::create_leaf(RelOperator::Pattern(PatternPlan { plan_type: RelOp::Scan })),
    );
    let mut state = TransformResult { results: vec![] };
    assert_eq!(rule.apply(&filter, &mut state), Ok(()));
    assert!(state.results.is_empty());
}

#[test]
fn apply_on_other_operator_fails() {
    let rule = RuleInferFilter::new();
    let scan = SExpr::create_leaf(RelOperator::Pattern(PatternPlan { plan_type: RelOp::Scan }));
    let mut state = TransformResult { results: vec![] };
    assert_eq!(
        rule.apply(&scan, &mut state),
        Err(ErrorCode::Internal("Cannot downcast RelOperator to Filter".to_string()))
    );
}

#[test]
fn column_index_and_constant() {
    assert_eq!(col(3).column_index(), Some(3));
    assert_eq!(lit(3).column_index(), None);
    assert_eq!(lit(3).constant(), Some(ConstantExpr { value: 3 }));
    assert_eq!(col(3).constant(), None);
}

#[test]
fn merge_on_a_new_column_adds_a_column() {
    let mut set = PredicateSet::new();
    set.merge_predicate(1, pred(ComparisonOp::GT, 1));
    set.merge_predicate(2, pred(ComparisonOp::LT, 2));
    set.merge_predicate(2, pred(ComparisonOp::GTE, 3));
    let total = set.predicates_on(1).len() + set.predicates_on(2).len();
    assert_eq!(total, 3);
    assert_eq!(set.predicates_on(2), vec![pred(ComparisonOp::LT, 2), pred(ComparisonOp::GTE, 3)]);
}
