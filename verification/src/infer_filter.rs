use vstd::prelude::*;

use std::collections::HashMap;

use crate::error::ErrorCode;

verus! {

broadcast use vstd::std_specs::hash::group_hash_axioms;

/// The identifier of an optimizer rule.
#[derive(Debug, Clone, Copy, PartialEq, Eq, Structural)]
pub enum RuleID {
    InferFilter,
}

/// The kind of a relational operator.
#[derive(Debug, Clone, Copy, PartialEq, Eq, Structural)]
pub enum RelOp {
    Scan,
    Join,
    EvalScalar,
    Filter,
    Aggregate,
    Sort,
    Limit,
    Pattern,
}

/// A placeholder operator of a rule's pattern, matching operators of a kind.
#[derive(Debug, Clone, Copy, PartialEq, Eq, Structural)]
pub struct PatternPlan {
    pub plan_type: RelOp,
}

/// A constant operand, by the integer that orders it among constants.
#[derive(Debug, Clone, Copy, PartialEq, Eq, Structural)]
pub struct ConstantExpr {
    pub value: i64,
}

/// A reference to a bound column, by the column's index.
#[derive(Debug, Clone, Copy, PartialEq, Eq, Structural)]
pub struct BoundColumnRef {
    pub index: usize,
}

/// A call of a named scalar function.
#[derive(Debug)]
pub struct FunctionCall {
    pub func_name: String,
    pub arguments: Vec<ScalarExpr>,
}

/// A scalar expression.
#[derive(Debug)]
pub enum ScalarExpr {
    BoundColumnRef(BoundColumnRef),
    ConstantExpr(ConstantExpr),
    FunctionCall(FunctionCall),
}

impl ScalarExpr {
    /// The column the expression refers to, when it is a column reference.
    pub open spec fn spec_column_index(&self) -> Option<usize> {
        match *self {
            ScalarExpr::BoundColumnRef(c) => Some(c.index),
            _ => None,
        }
    }

    /// The constant the expression is, when it is one.
    pub open spec fn spec_constant(&self) -> Option<ConstantExpr> {
        match *self {
            ScalarExpr::ConstantExpr(c) => Some(c),
            _ => None,
        }
    }

    /// The column the expression refers to, when it is a column reference.
    pub fn column_index(&self) -> (r: Option<usize>)
        ensures
            r == self.spec_column_index(),
    {
        match self {
            ScalarExpr::BoundColumnRef(c) => Some(c.index),
            _ => None,
        }
    }

    /// The constant the expression is, when it is one.
    pub fn constant(&self) -> (r: Option<ConstantExpr>)
        ensures
            r == self.spec_constant(),
    {
        match self {
            ScalarExpr::ConstantExpr(c) => Some(*c),
            _ => None,
        }
    }
}

/// A comparison operator.
#[derive(Debug, Clone, Copy, PartialEq, Eq, Structural)]
pub enum ComparisonOp {
    Equal,
    NotEqual,
    LT,
    LTE,
    GT,
    GTE,
}

/// The comparison a scalar function name stands for.
pub open spec fn spec_comparison_op(name: Seq<char>) -> Option<ComparisonOp> {
    if name == "eq"@ {
        Some(ComparisonOp::Equal)
    } else if name == "noteq"@ {
        Some(ComparisonOp::NotEqual)
    } else if name == "gt"@ {
        Some(ComparisonOp::GT)
    } else if name == "lt"@ {
        Some(ComparisonOp::LT)
    } else if name == "gte"@ {
        Some(ComparisonOp::GTE)
    } else if name == "lte"@ {
        Some(ComparisonOp::LTE)
    } else {
        None
    }
}

/// Whether `s` holds the same characters as the literal `lit`.
fn same_text(s: &String, lit: &str) -> (r: bool)
    ensures
        r == (s@ == lit@),
{
    let t = String::from_str(lit);
    *s == t
}

impl ComparisonOp {
    /// The comparison a scalar function name stands for.
    pub fn try_from_func_name(name: &String) -> (r: Option<ComparisonOp>)
        ensures
            r == spec_comparison_op(name@),
    {
        if same_text(name, "eq") {
            Some(ComparisonOp::Equal)
        } else if same_text(name, "noteq") {
            Some(ComparisonOp::NotEqual)
        } else if same_text(name, "gt") {
            Some(ComparisonOp::GT)
        } else if same_text(name, "lt") {
            Some(ComparisonOp::LT)
        } else if same_text(name, "gte") {
            Some(ComparisonOp::GTE)
        } else if same_text(name, "lte") {
            Some(ComparisonOp::LTE)
        } else {
            None
        }
    }
}


/// A comparison of a column with a constant: the column `op` the constant.
#[derive(Debug, Clone, Copy, PartialEq, Eq, Structural)]
pub struct ColumnPredicate {
    pub op: ComparisonOp,
    pub scalar: ConstantExpr,
}

/// What comparing two predicates on one column finds: whether the constant
/// of `left` is below that of `right`, for the pairs of operators that are
/// compared (`<` or `>` on the left, `>` on the right); `None` for the others.
pub open spec fn spec_prune(left: ColumnPredicate, right: ColumnPredicate) -> Option<bool> {
    match (left.op, right.op) {
        (ComparisonOp::LT, ComparisonOp::GT) | (ComparisonOp::GT, ComparisonOp::GT) => Some(
            left.scalar.value < right.scalar.value,
        ),
        _ => None,
    }
}

/// The predicates on one column after `right` joins those already there.
pub open spec fn spec_merged(
    m: Map<usize, Seq<ColumnPredicate>>,
    index: usize,
    right: ColumnPredicate,
) -> Map<usize, Seq<ColumnPredicate>> {
    if m.contains_key(index) {
        m.insert(index, m[index].push(right))
    } else {
        m.insert(index, seq![right])
    }
}

/// The comparisons of columns with constants, grouped by column.
pub struct PredicateSet {
    column_predicates: HashMap<usize, Vec<ColumnPredicate>>,
}

impl View for PredicateSet {
    type V = Map<usize, Seq<ColumnPredicate>>;

    /// The predicates on each column, in the order they joined.
    closed spec fn view(&self) -> Map<usize, Seq<ColumnPredicate>> {
        self.column_predicates@.map_values(|v: Vec<ColumnPredicate>| v@)
    }
}

impl PredicateSet {
    /// The set holds predicates on finitely many columns.
    pub proof fn lemma_finite_columns(&self)
        ensures
            self@.dom().finite(),
    {
        assert(self.column_predicates@.dom().finite());
        assert(self@.dom() =~= self.column_predicates@.dom());
    }

    /// The set with no predicate.
    pub fn new() -> (r: Self)
        ensures
            r@ == Map::<usize, Seq<ColumnPredicate>>::empty(),
            r@.dom().finite(),
    {
        let r = PredicateSet { column_predicates: HashMap::new() };
        assert(r@ =~= Map::<usize, Seq<ColumnPredicate>>::empty());
        proof {
            r.lemma_finite_columns();
        }
        r
    }

    /// The predicates on column `index`, in the order they joined.
    pub fn predicates_on(&self, index: usize) -> (r: Vec<ColumnPredicate>)
        ensures
            self@.contains_key(index) ==> r@ == self@[index],
            !self@.contains_key(index) ==> r@ == Seq::<ColumnPredicate>::empty(),
    {
        match self.column_predicates.get(&index) {
            Some(v) => {
                let mut out: Vec<ColumnPredicate> = Vec::new();
                let mut i: usize = 0;
                while i < v.len()
                    invariant
                        i <= v@.len(),
                        out@ == v@.subrange(0, i as int),
                    decreases v@.len() - i,
                {
                    out.push(v[i]);
                    i = i + 1;
                }
                assert(v@.subrange(0, v@.len() as int) =~= v@);
                out
            },
            None => Vec::new(),
        }
    }

    /// Adds `right` to the predicates on column `index`, after comparing it
    /// with each predicate already there.
    pub fn merge_predicate(&mut self, index: usize, right: ColumnPredicate)
        ensures
            final(self)@ == spec_merged(old(self)@, index, right),
            final(self)@.dom().finite(),
    {
        match self.column_predicates.remove(&index) {
            Some(predicates) => {
                let mut i: usize = 0;
                while i < predicates.len()
                    invariant
                        i <= predicates@.len(),
                    decreases predicates@.len() - i,
                {
                    let _ = Self::prune(&predicates[i], &right);
                    i = i + 1;
                }
                let mut predicates = predicates;
                predicates.push(right);
                self.column_predicates.insert(index, predicates);
                assert(self@ =~= spec_merged(old(self)@, index, right));
            },
            None => {
                let mut predicates: Vec<ColumnPredicate> = Vec::new();
                predicates.push(right);
                self.column_predicates.insert(index, predicates);
                assert(self@ =~= spec_merged(old(self)@, index, right));
            },
        }
        proof {
            self.lemma_finite_columns();
        }
    }

    /// Compares two predicates on one column: whether the constant of `left`
    /// is below that of `right`, for the pairs of operators that are compared.
    pub fn prune(left: &ColumnPredicate, right: &ColumnPredicate) -> (r: Option<bool>)
        ensures
            r == spec_prune(*left, *right),
    {
        match left.op {
            ComparisonOp::Equal => match right.op {
                ComparisonOp::Equal => None,
                ComparisonOp::NotEqual => None,
                ComparisonOp::LT => None,
                ComparisonOp::LTE => None,
                ComparisonOp::GT => None,
                ComparisonOp::GTE => None,
            },
            ComparisonOp::NotEqual => match right.op {
                ComparisonOp::Equal => None,
                ComparisonOp::NotEqual => None,
                ComparisonOp::LT => None,
                ComparisonOp::LTE => None,
                ComparisonOp::GT => None,
                ComparisonOp::GTE => None,
            },
            ComparisonOp::LT => match right.op {
                ComparisonOp::Equal => None,
                ComparisonOp::NotEqual => None,
                ComparisonOp::LT => None,
                ComparisonOp::LTE => None,
                ComparisonOp::GT => Some(left.scalar.value < right.scalar.value),
                ComparisonOp::GTE => None,
            },
            ComparisonOp::GT => match right.op {
                ComparisonOp::Equal => None,
                ComparisonOp::NotEqual => None,
                ComparisonOp::LT => None,
                ComparisonOp::LTE => None,
                ComparisonOp::GT => Some(left.scalar.value < right.scalar.value),
                ComparisonOp::GTE => None,
            },
            _ => None,
        }
    }
}


/// Whether the calls of comparison functions among `predicates` have two
/// operands each and, where exactly one operand is a column, a constant as
/// the other.
pub open spec fn comparisons_well_formed(predicates: Seq<ScalarExpr>) -> bool {
    forall|i: int|
        0 <= i < predicates.len() ==> #[trigger] comparison_well_formed(predicates[i])
}

/// Whether a call of a comparison function has two operands and, where
/// exactly one operand is a column, a constant as the other.
pub open spec fn comparison_well_formed(p: ScalarExpr) -> bool {
    match p {
        ScalarExpr::FunctionCall(f) => spec_comparison_op(f.func_name@) is Some ==> {
            &&& f.arguments@.len() >= 2
            &&& (f.arguments@[0].spec_column_index() is Some
                && f.arguments@[1].spec_column_index() is None)
                ==> f.arguments@[1].spec_constant() is Some
            &&& (f.arguments@[0].spec_column_index() is None
                && f.arguments@[1].spec_column_index() is Some)
                ==> f.arguments@[0].spec_constant() is Some
        },
        _ => true,
    }
}

/// The column and the comparison with a constant that a predicate makes, when
/// it compares exactly one column with a constant.
pub open spec fn spec_column_predicate(p: ScalarExpr) -> Option<(usize, ColumnPredicate)> {
    match p {
        ScalarExpr::FunctionCall(f) => match spec_comparison_op(f.func_name@) {
            Some(op) => match (
                f.arguments@[0].spec_column_index(),
                f.arguments@[1].spec_column_index(),
            ) {
                (Some(i), None) => Some(
                    (i, ColumnPredicate { op, scalar: f.arguments@[1].spec_constant().unwrap() }),
                ),
                (None, Some(i)) => Some(
                    (i, ColumnPredicate { op, scalar: f.arguments@[0].spec_constant().unwrap() }),
                ),
                _ => None,
            },
            None => None,
        },
        _ => None,
    }
}

/// The comparisons with constants that `predicates` make, grouped by column
/// in the order of the predicates.
pub open spec fn spec_collect(predicates: Seq<ScalarExpr>) -> Map<usize, Seq<ColumnPredicate>>
    decreases predicates.len(),
{
    if predicates.len() == 0 {
        Map::empty()
    } else {
        let m = spec_collect(predicates.drop_last());
        match spec_column_predicate(predicates.last()) {
            Some((i, c)) => spec_merged(m, i, c),
            None => m,
        }
    }
}

/// Groups the comparisons of one column with a constant among `predicates`
/// by column.
pub fn collect_column_predicates(predicates: &Vec<ScalarExpr>) -> (r: PredicateSet)
    requires
        comparisons_well_formed(predicates@),
    ensures
        r@ == spec_collect(predicates@),
{
    let mut set = PredicateSet::new();
    let mut i: usize = 0;
    while i < predicates.len()
        invariant
            i <= predicates@.len(),
            comparisons_well_formed(predicates@),
            set@ == spec_collect(predicates@.subrange(0, i as int)),
        decreases predicates@.len() - i,
    {
        let predicate = &predicates[i];
        assert(comparison_well_formed(predicates@[i as int]));
        assert(predicates@.subrange(0, i + 1).drop_last() =~= predicates@.subrange(0, i as int));
        match predicate {
            ScalarExpr::FunctionCall(func) => {
                match ComparisonOp::try_from_func_name(&func.func_name) {
                    Some(op) => {
                        let left_index = func.arguments[0].column_index();
                        let right_index = func.arguments[1].column_index();
                        match (left_index, right_index) {
                            (Some(index), None) => {
                                let scalar = func.arguments[1].constant().unwrap();
                                set.merge_predicate(index, ColumnPredicate { op, scalar });
                            },
                            (None, Some(index)) => {
                                let scalar = func.arguments[0].constant().unwrap();
                                set.merge_predicate(index, ColumnPredicate { op, scalar });
                            },
                            _ => {},
                        }
                    },
                    None => {},
                }
            },
            _ => {},
        }
        i = i + 1;
    }
    assert(predicates@.subrange(0, predicates@.len() as int) =~= predicates@);
    set
}


/// A filter: the rows for which all predicates hold pass.
#[derive(Debug)]
pub struct Filter {
    pub predicates: Vec<ScalarExpr>,
    pub is_having: bool,
}

/// A relational operator of a plan.
#[derive(Debug)]
pub enum RelOperator {
    Filter(Filter),
    Pattern(PatternPlan),
}

/// A plan expression: an operator over its child expressions.
#[derive(Debug)]
pub struct SExpr {
    pub plan: RelOperator,
    pub children: Vec<SExpr>,
}

impl SExpr {
    /// An expression of `plan` over the one child `child`.
    pub fn create_unary(plan: RelOperator, child: SExpr) -> (r: SExpr)
        ensures
            r.plan == plan,
            r.children@ == seq![child],
    {
        let mut children: Vec<SExpr> = Vec::new();
        children.push(child);
        SExpr { plan, children }
    }

    /// An expression of `plan` with no child.
    pub fn create_leaf(plan: RelOperator) -> (r: SExpr)
        ensures
            r.plan == plan,
            r.children@ == Seq::<SExpr>::empty(),
    {
        SExpr { plan, children: Vec::new() }
    }

    /// The operator at the root.
    pub fn plan(&self) -> (r: &RelOperator)
        ensures
            *r == self.plan,
    {
        &self.plan
    }
}

/// The expressions that a rule produces from the one it was applied to.
#[derive(Debug)]
pub struct TransformResult {
    pub results: Vec<SExpr>,
}

/// Whether `s` is the pattern a filter over any operator.
pub open spec fn is_filter_over_any_pattern(s: SExpr) -> bool {
    &&& s.plan == RelOperator::Pattern(PatternPlan { plan_type: RelOp::Filter })
    &&& s.children@.len() == 1
    &&& s.children@[0].plan == RelOperator::Pattern(PatternPlan { plan_type: RelOp::Pattern })
    &&& s.children@[0].children@.len() == 0
}

/// The rule that infers filters from the comparisons a filter makes.
pub struct RuleInferFilter {
    id: RuleID,
    patterns: Vec<SExpr>,
}

impl RuleInferFilter {
    /// The rule's identifier.
    pub closed spec fn spec_id(&self) -> RuleID {
        self.id
    }

    /// The patterns of expressions the rule applies to.
    pub closed spec fn spec_patterns(&self) -> Seq<SExpr> {
        self.patterns@
    }

    /// The rule, applying to a filter over any operator.
    pub fn new() -> (r: Self)
        ensures
            r.spec_id() == RuleID::InferFilter,
            r.spec_patterns().len() == 1,
            is_filter_over_any_pattern(r.spec_patterns()[0]),
    {
        let leaf = SExpr::create_leaf(RelOperator::Pattern(PatternPlan { plan_type: RelOp::Pattern }));
        let pattern = SExpr::create_unary(
            RelOperator::Pattern(PatternPlan { plan_type: RelOp::Filter }),
            leaf,
        );
        let mut patterns: Vec<SExpr> = Vec::new();
        patterns.push(pattern);
        RuleInferFilter { id: RuleID::InferFilter, patterns }
    }

    /// The rule's identifier.
    pub fn id(&self) -> (r: RuleID)
        ensures
            r == self.spec_id(),
    {
        self.id
    }

    /// The patterns of expressions the rule applies to.
    pub fn patterns(&self) -> (r: &Vec<SExpr>)
        ensures
            r@ == self.spec_patterns(),
    {
        &self.patterns
    }

    /// Applies the rule to a filter: groups the filter's comparisons of a
    /// column with a constant by column, and produces no new expression.
    pub fn apply(&self, s_expr: &SExpr, state: &mut TransformResult) -> (r: Result<(), ErrorCode>)
        requires
            s_expr.plan matches RelOperator::Filter(f) ==> comparisons_well_formed(f.predicates@),
        ensures
            r is Ok <==> s_expr.plan is Filter,
            r matches Err(e) ==> e is Internal && e.spec_message()
                == "Cannot downcast RelOperator to Filter"@,
            final(state).results@ == old(state).results@,
    {
        match s_expr.plan() {
            RelOperator::Filter(filter) => {
                let _predicate_set = collect_column_predicates(&filter.predicates);
                Ok(())
            },
            _ => Err(ErrorCode::Internal(String::from_str("Cannot downcast RelOperator to Filter"))),
        }
    }
}

/// Merging a predicate into the predicates of a column puts it last among
/// them, after those already there in their order, and leaves every other
/// column's predicates as they were.
pub proof fn law_merge_appends(
    m: Map<usize, Seq<ColumnPredicate>>,
    index: usize,
    right: ColumnPredicate,
    other: usize,
)
    ensures
        spec_merged(m, index, right).contains_key(index),
        spec_merged(m, index, right)[index].last() == right,
        spec_merged(m, index, right)[index].drop_last() == (if m.contains_key(index) {
            m[index]
        } else {
            Seq::<ColumnPredicate>::empty()
        }),
        other != index ==> spec_merged(m, index, right).contains_key(other) == m.contains_key(other),
        other != index && m.contains_key(other) ==> spec_merged(m, index, right)[other] == m[other],
{
    if m.contains_key(index) {
        assert(m[index].push(right).drop_last() =~= m[index]);
    } else {
        assert(seq![right].drop_last() =~= Seq::<ColumnPredicate>::empty());
    }
}

/// The step that adds the number of predicates on column `k` to a count.
pub open spec fn count_step(m: Map<usize, Seq<ColumnPredicate>>) -> spec_fn(nat, usize) -> nat {
    |acc: nat, k: usize| acc + m[k].len()
}

/// The number of predicates on all columns together.
pub open spec fn total_predicates(m: Map<usize, Seq<ColumnPredicate>>) -> nat {
    m.dom().fold(0nat, count_step(m))
}

/// Adding up counts does not depend on the order of the columns.
proof fn lemma_count_step_commutative(m: Map<usize, Seq<ColumnPredicate>>)
    ensures
        vstd::set::fold::is_fun_commutative(count_step(m)),
{
    assert forall|a1: usize, a2: usize, b: nat|
        #[trigger] count_step(m)(count_step(m)(b, a1), a2) == count_step(m)(count_step(m)(b, a2), a1) by {}
}

/// Counting over the same columns of two maps that agree on them gives the
/// same number.
proof fn lemma_count_agrees(
    s: Set<usize>,
    m1: Map<usize, Seq<ColumnPredicate>>,
    m2: Map<usize, Seq<ColumnPredicate>>,
)
    requires
        s.finite(),
        forall|k: usize| s.contains(k) ==> m1[k].len() == m2[k].len(),
    ensures
        s.fold(0nat, count_step(m1)) == s.fold(0nat, count_step(m2)),
    decreases s.len(),
{
    lemma_count_step_commutative(m1);
    lemma_count_step_commutative(m2);
    if s.len() == 0 {
        assert(s =~= Set::<usize>::empty());
        vstd::set::fold::lemma_fold_empty(0nat, count_step(m1));
        vstd::set::fold::lemma_fold_empty(0nat, count_step(m2));
    } else {
        let a = s.choose();
        let rest = s.remove(a);
        lemma_count_agrees(rest, m1, m2);
        assert(rest.insert(a) =~= s);
        vstd::set::fold::lemma_fold_insert(rest, 0nat, count_step(m1), a);
        vstd::set::fold::lemma_fold_insert(rest, 0nat, count_step(m2), a);
    }
}

/// Merging a predicate adds a column exactly when the column had none, and
/// adds exactly one predicate to the total.
pub proof fn law_merge_counts(m: Map<usize, Seq<ColumnPredicate>>, index: usize, right: ColumnPredicate)
    requires
        m.dom().finite(),
    ensures
        spec_merged(m, index, right).dom().finite(),
        spec_merged(m, index, right).dom().len() == m.dom().len() + (if m.contains_key(index) {
            0int
        } else {
            1int
        }),
        total_predicates(spec_merged(m, index, right)) == total_predicates(m) + 1,
{
    let n = spec_merged(m, index, right);
    lemma_count_step_commutative(m);
    lemma_count_step_commutative(n);
    let rest = m.dom().remove(index);
    lemma_count_agrees(rest, m, n);
    if m.contains_key(index) {
        assert(n.dom() =~= m.dom());
        assert(rest.insert(index) =~= m.dom());
        vstd::set::fold::lemma_fold_insert(rest, 0nat, count_step(m), index);
        vstd::set::fold::lemma_fold_insert(rest, 0nat, count_step(n), index);
    } else {
        assert(rest =~= m.dom());
        assert(n.dom() =~= m.dom().insert(index));
        vstd::set::fold::lemma_fold_insert(rest, 0nat, count_step(n), index);
    }
}

/// The six comparison names stand for their comparisons, and no other name
/// stands for one.
pub proof fn law_comparison_names(name: Seq<char>)
    ensures
        spec_comparison_op("eq"@) == Some(ComparisonOp::Equal),
        spec_comparison_op("noteq"@) == Some(ComparisonOp::NotEqual),
        spec_comparison_op("lt"@) == Some(ComparisonOp::LT),
        spec_comparison_op("lte"@) == Some(ComparisonOp::LTE),
        spec_comparison_op("gt"@) == Some(ComparisonOp::GT),
        spec_comparison_op("gte"@) == Some(ComparisonOp::GTE),
        spec_comparison_op(name) is Some ==> (name == "eq"@ || name == "noteq"@ || name == "lt"@
            || name == "lte"@ || name == "gt"@ || name == "gte"@),
{
    reveal_strlit("eq");
    reveal_strlit("noteq");
    reveal_strlit("lt");
    reveal_strlit("lte");
    reveal_strlit("gt");
    reveal_strlit("gte");
    assert("noteq"@ != "eq"@) by {
        assert("noteq"@.len() != "eq"@.len());
    }
    assert("lt"@ != "eq"@ && "lt"@ != "noteq"@) by {
        assert("lt"@[0] != "eq"@[0]);
        assert("lt"@.len() != "noteq"@.len());
    }
    assert("gt"@ != "eq"@ && "gt"@ != "noteq"@ && "gt"@ != "lt"@) by {
        assert("gt"@[0] != "eq"@[0]);
        assert("gt"@.len() != "noteq"@.len());
        assert("gt"@[0] != "lt"@[0]);
    }
    assert("gte"@ != "eq"@ && "gte"@ != "noteq"@ && "gte"@ != "lt"@ && "gte"@ != "gt"@) by {
        assert("gte"@.len() != "eq"@.len());
        assert("gte"@.len() != "noteq"@.len());
        assert("gte"@.len() != "lt"@.len());
        assert("gte"@.len() != "gt"@.len());
    }
    assert("lte"@ != "eq"@ && "lte"@ != "noteq"@ && "lte"@ != "lt"@ && "lte"@ != "gt"@
        && "lte"@ != "gte"@) by {
        assert("lte"@.len() != "eq"@.len());
        assert("lte"@.len() != "noteq"@.len());
        assert("lte"@.len() != "lt"@.len());
        assert("lte"@.len() != "gt"@.len());
        assert("lte"@[0] != "gte"@[0]);
    }
}

/// Every comparison of a column with a constant, equality included, is
/// grouped under that column with its operator and constant, whichever side
/// the column stands on; and a filter made of that one comparison groups
/// exactly it.
pub proof fn law_column_comparisons_are_grouped(p: ScalarExpr, op: ComparisonOp, index: usize, c: ConstantExpr)
    requires
        p matches ScalarExpr::FunctionCall(f) && spec_comparison_op(f.func_name@) == Some(op)
            && f.arguments@.len() >= 2 && ((f.arguments@[0] == ScalarExpr::BoundColumnRef(
            BoundColumnRef { index },
        ) && f.arguments@[1] == ScalarExpr::ConstantExpr(c)) || (f.arguments@[0]
            == ScalarExpr::ConstantExpr(c) && f.arguments@[1] == ScalarExpr::BoundColumnRef(
            BoundColumnRef { index },
        ))),
    ensures
        spec_column_predicate(p) == Some((index, ColumnPredicate { op, scalar: c })),
        spec_collect(seq![p]) == Map::<usize, Seq<ColumnPredicate>>::empty().insert(
            index,
            seq![ColumnPredicate { op, scalar: c }],
        ),
{
    assert(seq![p].drop_last() =~= Seq::<ScalarExpr>::empty());
    assert(spec_collect(Seq::<ScalarExpr>::empty()) == Map::<usize, Seq<ColumnPredicate>>::empty());
}

} // verus!
