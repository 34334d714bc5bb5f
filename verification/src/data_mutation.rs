use vstd::prelude::*;

use crate::error::ErrorCode;

verus! {

/// The statement a data mutation comes from.
#[derive(Debug, Clone, Copy, PartialEq, Eq, Structural)]
pub enum DataMutationInputType {
    Update,
    Delete,
    Merge,
}

/// The statement's keyword, as it is displayed.
pub open spec fn spec_input_type_name(t: DataMutationInputType) -> Seq<char> {
    match t {
        DataMutationInputType::Update => "UPDATE"@,
        DataMutationInputType::Delete => "DELETE"@,
        DataMutationInputType::Merge => "MERGE"@,
    }
}

impl DataMutationInputType {
    /// The statement's keyword, as it is displayed.
    pub fn to_string(&self) -> (r: String)
        ensures
            r@ == spec_input_type_name(*self),
    {
        match self {
            DataMutationInputType::Update => String::from_str("UPDATE"),
            DataMutationInputType::Delete => String::from_str("DELETE"),
            DataMutationInputType::Merge => String::from_str("MERGE"),
        }
    }
}

/// The kind of change a mutation makes to a table.
#[derive(Debug, Clone, Copy, PartialEq, Eq, Structural)]
pub enum MutationKind {
    Delete,
    Update,
    Replace,
    Recluster,
    Insert,
    Compact,
    MergeInto,
}

/// How the hooks that follow a mutation lock the table.
#[derive(Debug, Clone, Copy, PartialEq, Eq, Structural)]
pub enum LockTableOption {
    NoLock,
    LockNoRetry,
    LockWithRetry,
}

/// Which hooks follow a mutation.
#[derive(Debug, Clone, Copy, PartialEq, Eq, Structural)]
pub enum HookAction {
    /// Refresh the table's derived data only.
    Refresh,
    /// Run all hooks.
    Execute,
}

/// The table a mutation changes, by its catalog, database and table names.
#[derive(Debug, Clone, PartialEq, Eq)]
pub struct TableTarget {
    pub catalog_name: String,
    pub database_name: String,
    pub table_name: String,
}

/// Whether two table targets name the same table.
pub open spec fn same_target(a: TableTarget, b: TableTarget) -> bool {
    &&& a.catalog_name@ == b.catalog_name@
    &&& a.database_name@ == b.database_name@
    &&& a.table_name@ == b.table_name@
}

/// How the hooks that follow a mutation run: on which table, under which
/// lock, for which kind of change, and which hooks.
#[derive(Debug, Clone, PartialEq, Eq)]
pub struct HookPlan {
    pub target: TableTarget,
    pub lock: LockTableOption,
    pub kind: MutationKind,
    pub action: HookAction,
}

/// The lock the hooks take: none where the mutation already holds one, else
/// one taken without retry.
pub open spec fn spec_hook_lock(holds_lock: bool) -> LockTableOption {
    if holds_lock {
        LockTableOption::NoLock
    } else {
        LockTableOption::LockNoRetry
    }
}

/// The kind of change a mutation of `input_type` makes.
pub open spec fn spec_mutation_kind(input_type: DataMutationInputType) -> MutationKind {
    match input_type {
        DataMutationInputType::Update => MutationKind::Update,
        DataMutationInputType::Delete => MutationKind::Delete,
        DataMutationInputType::Merge => MutationKind::MergeInto,
    }
}

/// The hooks that follow a mutation of `input_type`: a refresh after an
/// update or a delete, all hooks after a merge.
pub open spec fn spec_hook_action(input_type: DataMutationInputType) -> HookAction {
    match input_type {
        DataMutationInputType::Merge => HookAction::Execute,
        _ => HookAction::Refresh,
    }
}

/// Whether `plan` is the plan of the hooks that follow a mutation of
/// `input_type` of the table `target`.
pub open spec fn is_hook_plan(
    plan: HookPlan,
    input_type: DataMutationInputType,
    holds_lock: bool,
    target: TableTarget,
) -> bool {
    &&& same_target(plan.target, target)
    &&& plan.lock == spec_hook_lock(holds_lock)
    &&& plan.kind == spec_mutation_kind(input_type)
    &&& plan.action == spec_hook_action(input_type)
}

/// A copy of a table target.
fn copy_target(target: &TableTarget) -> (r: TableTarget)
    ensures
        same_target(r, *target),
{
    TableTarget {
        catalog_name: target.catalog_name.clone(),
        database_name: target.database_name.clone(),
        table_name: target.table_name.clone(),
    }
}

/// The hooks that follow a mutation of `input_type` of the table `target`;
/// the mutation may already hold the table's lock.
pub fn execute_hook_plan(input_type: DataMutationInputType, holds_lock: bool, target: &TableTarget) -> (r: HookPlan)
    ensures
        is_hook_plan(r, input_type, holds_lock, *target),
{
    let lock = if holds_lock {
        LockTableOption::NoLock
    } else {
        LockTableOption::LockNoRetry
    };
    let kind = match input_type {
        DataMutationInputType::Update => MutationKind::Update,
        DataMutationInputType::Delete => MutationKind::Delete,
        DataMutationInputType::Merge => MutationKind::MergeInto,
    };
    let action = match input_type {
        DataMutationInputType::Update | DataMutationInputType::Delete => HookAction::Refresh,
        DataMutationInputType::Merge => HookAction::Execute,
    };
    HookPlan { target: copy_target(target), lock, kind, action }
}

/// The size of a table snapshot.
#[derive(Debug, Clone, Copy, PartialEq, Eq, Structural)]
pub struct TableSummary {
    pub row_count: u64,
    pub uncompressed_byte_size: u64,
}

/// An amount of progress: rows and bytes.
#[derive(Debug, Clone, Copy, PartialEq, Eq, Structural)]
pub struct ProgressValues {
    pub rows: usize,
    pub bytes: usize,
}

/// How a mutation can be done without reading the table.
#[derive(Debug, Clone, Copy, PartialEq, Eq, Structural)]
pub enum FastMutation {
    /// The mutation must read the table.
    NotApplicable,
    /// The table is empty: nothing to do.
    NoOp,
    /// The whole table is deleted: truncate it, counting this progress.
    Truncate(ProgressValues),
}

/// Whether a mutation can be done without reading the table: `snapshot` is
/// the size of the table's current snapshot, if it has one, and
/// `truncate_table` says that a delete removes every row. A merge always
/// reads; an empty table needs nothing; a delete of every row truncates.
pub open spec fn spec_fast_mutation(
    input_type: DataMutationInputType,
    snapshot: Option<TableSummary>,
    truncate_table: bool,
) -> FastMutation {
    if input_type == DataMutationInputType::Merge {
        FastMutation::NotApplicable
    } else {
        match snapshot {
            None => FastMutation::NoOp,
            Some(s) => if s.row_count == 0 {
                FastMutation::NoOp
            } else if input_type == DataMutationInputType::Delete && truncate_table {
                FastMutation::Truncate(
                    ProgressValues {
                        rows: s.row_count as usize,
                        bytes: s.uncompressed_byte_size as usize,
                    },
                )
            } else {
                FastMutation::NotApplicable
            },
        }
    }
}

/// Whether a mutation can be done without reading the table.
pub fn fast_mutation(
    input_type: DataMutationInputType,
    snapshot: Option<TableSummary>,
    truncate_table: bool,
) -> (r: FastMutation)
    ensures
        r == spec_fast_mutation(input_type, snapshot, truncate_table),
{
    if input_type == DataMutationInputType::Merge {
        return FastMutation::NotApplicable;
    }
    let s = match snapshot {
        None => return FastMutation::NoOp,
        Some(s) => s,
    };
    if s.row_count == 0 {
        return FastMutation::NoOp;
    }
    if input_type == DataMutationInputType::Delete && truncate_table {
        FastMutation::Truncate(
            ProgressValues {
                rows: s.row_count as usize,
                bytes: s.uncompressed_byte_size as usize,
            },
        )
    } else {
        FastMutation::NotApplicable
    }
}

/// Which partitions of the table a mutation reads.
#[derive(Debug, Clone, Copy, PartialEq, Eq, Structural)]
pub enum PartitionsPlan {
    /// The mutation reads no source partitions of its own.
    NotRequired,
    /// The table has no snapshot: an empty set of partitions, shuffled by
    /// modulo.
    EmptyMod,
    /// Read the table's partitions for mutation; lazily where a delete is
    /// spread over a cluster with no more nodes than segments. Where
    /// `push_down_filter` holds, the mutation's filter is compiled into a
    /// push-down filter, a failure to compile it ends the mutation with that
    /// error, and the read gets the filter and the columns it uses; else the
    /// read gets no filter and no columns.
    Read { is_lazy: bool, is_delete: bool, push_down_filter: bool },
}

/// Which partitions a mutation reads: `mutation_source` says that the
/// mutation reads the table itself, `has_filter` that it has a filter,
/// `segments` is the number of segments of the table's snapshot, if it has
/// one, and `cluster_nodes` the number of nodes of the cluster.
pub open spec fn spec_mutation_source_partions(
    mutation_source: bool,
    input_type: DataMutationInputType,
    has_filter: bool,
    segments: Option<usize>,
    cluster_nodes: usize,
) -> PartitionsPlan {
    if !mutation_source {
        PartitionsPlan::NotRequired
    } else {
        match segments {
            None => PartitionsPlan::EmptyMod,
            Some(n) => if input_type == DataMutationInputType::Delete {
                PartitionsPlan::Read {
                    is_lazy: cluster_nodes > 1 && n >= cluster_nodes,
                    is_delete: true,
                    push_down_filter: has_filter,
                }
            } else {
                PartitionsPlan::Read { is_lazy: false, is_delete: false, push_down_filter: has_filter }
            },
        }
    }
}

/// Which partitions a mutation reads.
pub fn mutation_source_partions(
    mutation_source: bool,
    input_type: DataMutationInputType,
    has_filter: bool,
    segments: Option<usize>,
    cluster_nodes: usize,
) -> (r: PartitionsPlan)
    ensures
        r == spec_mutation_source_partions(
            mutation_source,
            input_type,
            has_filter,
            segments,
            cluster_nodes,
        ),
{
    if !mutation_source {
        return PartitionsPlan::NotRequired;
    }
    match segments {
        None => PartitionsPlan::EmptyMod,
        Some(n) => {
            if input_type == DataMutationInputType::Delete {
                let cluster_is_empty = cluster_nodes <= 1;
                PartitionsPlan::Read {
                    is_lazy: !cluster_is_empty && n >= cluster_nodes,
                    is_delete: true,
                    push_down_filter: has_filter,
                }
            } else {
                PartitionsPlan::Read { is_lazy: false, is_delete: false, push_down_filter: has_filter }
            }
        },
    }
}

/// The error for a table whose engine cannot run a mutation of `input_type`.
pub fn unsupported_engine_error(table_name: &str, engine: &str, input_type: DataMutationInputType) -> (r: ErrorCode)
    ensures
        r is Unimplemented,
        r.spec_message() == "table "@ + table_name@ + ", engine type "@ + engine@
            + ", does not support "@ + spec_input_type_name(input_type),
{
    let mut message = String::from_str("table ");
    message.append(table_name);
    message.append(", engine type ");
    message.append(engine);
    message.append(", does not support ");
    let kind = input_type.to_string();
    message.append(kind.as_str());
    ErrorCode::Unimplemented(message)
}

/// The name of the result column that counts inserted rows.
pub open spec fn insert_name() -> Seq<char> {
    "number of rows inserted"@
}

/// The name of the result column that counts updated rows.
pub open spec fn update_name() -> Seq<char> {
    "number of rows updated"@
}

/// The name of the result column that counts deleted rows.
pub open spec fn delete_name() -> Seq<char> {
    "number of rows deleted"@
}

/// The numbers of rows a mutation inserted, updated and deleted.
#[derive(Debug, Clone, Copy, PartialEq, Eq, Structural)]
pub struct MergeStatus {
    pub insert_rows: usize,
    pub update_rows: usize,
    pub deleted_rows: usize,
}

/// The count a result column of the given name shows.
pub open spec fn spec_result_count(name: Seq<char>, status: MergeStatus) -> u32 {
    if name == insert_name() {
        status.insert_rows as u32
    } else if name == update_name() {
        status.update_rows as u32
    } else {
        status.deleted_rows as u32
    }
}

/// Whether `name` names one of the result columns.
pub open spec fn is_result_name(name: Seq<char>) -> bool {
    name == insert_name() || name == update_name() || name == delete_name()
}

/// The one-row result of a mutation: for each field of the result schema,
/// the count it names, cut to 32 bits.
pub fn get_data_mutation_table_result(fields: &Vec<String>, status: MergeStatus) -> (r: Vec<u32>)
    requires
        forall|i: int| 0 <= i < fields@.len() ==> is_result_name(#[trigger] fields@[i]@),
    ensures
        r@.len() == fields@.len(),
        forall|i: int|
            0 <= i < fields@.len() ==> r@[i] == spec_result_count(#[trigger] fields@[i]@, status),
{
    let insert = String::from_str("number of rows inserted");
    let update = String::from_str("number of rows updated");
    let mut columns: Vec<u32> = Vec::new();
    let mut i: usize = 0;
    while i < fields.len()
        invariant
            i <= fields@.len(),
            insert@ == insert_name(),
            update@ == update_name(),
            columns@.len() == i,
            forall|j: int|
                0 <= j < i ==> columns@[j] == spec_result_count(#[trigger] fields@[j]@, status),
        decreases fields@.len() - i,
    {
        let name = &fields[i];
        let count: u32 = if *name == insert {
            status.insert_rows as u32
        } else if *name == update {
            status.update_rows as u32
        } else {
            status.deleted_rows as u32
        };
        columns.push(count);
        i = i + 1;
    }
    columns
}


/// What the plan of a data mutation says of it.
#[derive(Debug, Clone, PartialEq, Eq)]
pub struct MutationFacts {
    /// The table the mutation changes.
    pub target: TableTarget,
    pub input_type: DataMutationInputType,
    /// The mutation has a filter on the rows it changes.
    pub has_filter: bool,
    /// A delete that removes every row.
    pub truncate_table: bool,
    /// The mutation reads the table itself.
    pub mutation_source: bool,
    /// The mutation already holds the table's lock.
    pub holds_lock: bool,
}

/// What the table's current snapshot holds.
#[derive(Debug, Clone, Copy, PartialEq, Eq, Structural)]
pub struct SnapshotFacts {
    pub summary: TableSummary,
    pub segments: usize,
}

/// Where running a data mutation stands.
#[derive(Debug, Clone, Copy, PartialEq, Eq, Structural)]
pub enum Execute2State {
    /// Nothing is done yet.
    Start,
    /// The deduplication label is being checked.
    AwaitLabel,
    /// The table is being looked up.
    AwaitTable,
    /// The table's snapshot is being read.
    AwaitSnapshot,
    /// The outcome is decided.
    Done,
}

/// What the outside work of a step found.
#[derive(Debug)]
pub enum Execute2Event {
    /// Running begins.
    Begin,
    /// Whether the statement's deduplication label was seen before.
    LabelChecked { duplicated: bool },
    /// The table, once found and checked mutable: whether its engine is the
    /// fuse engine, its name and its engine's name.
    TableResolved { is_fuse: bool, table_name: String, engine: String },
    /// The table's current snapshot, if it has one, and the number of nodes
    /// of the cluster.
    SnapshotRead { snapshot: Option<SnapshotFacts>, cluster_nodes: usize },
}

/// The outside work a step asks for, or the outcome it decides.
#[derive(Debug)]
pub enum Execute2Action {
    /// Check the statement's deduplication label.
    CheckDeduplicateLabel,
    /// Look up the table the mutation changes and check that it can be changed.
    ResolveTable,
    /// Read the table's current snapshot.
    ReadSnapshot,
    /// Finish with an empty pipeline.
    FinishEmpty,
    /// Count the progress, truncate the table and finish with that pipeline.
    Truncate(ProgressValues),
    /// Build the mutation's plan over these partitions, then its pipeline, run
    /// these hooks after it and keep the lock for the pipeline's lifetime.
    BuildPipeline { partitions: PartitionsPlan, hook: HookPlan },
    /// Fail with this error.
    Fail(ErrorCode),
}

/// Whether `event` answers the outside work that `state` waits for.
pub open spec fn expects_event(state: Execute2State, event: Execute2Event) -> bool {
    match state {
        Execute2State::Start => event is Begin,
        Execute2State::AwaitLabel => event is LabelChecked,
        Execute2State::AwaitTable => event is TableResolved,
        Execute2State::AwaitSnapshot => event is SnapshotRead,
        Execute2State::Done => false,
    }
}

/// The next step of running a data mutation: from where it stands and what
/// the last outside work found, where it stands next and what to do.
pub fn execute2_step(facts: &MutationFacts, state: Execute2State, event: Execute2Event) -> (r: (
    Execute2State,
    Execute2Action,
))
    requires
        expects_event(state, event),
    ensures
        state == Execute2State::Start ==> r.0 == Execute2State::AwaitLabel
            && r.1 is CheckDeduplicateLabel,
        event matches Execute2Event::LabelChecked { duplicated } ==> if duplicated {
            r.0 == Execute2State::Done && r.1 is FinishEmpty
        } else {
            r.0 == Execute2State::AwaitTable && r.1 is ResolveTable
        },
        event matches Execute2Event::TableResolved { is_fuse, table_name, engine } ==> if is_fuse {
            r.0 == Execute2State::AwaitSnapshot && r.1 is ReadSnapshot
        } else {
            r.0 == Execute2State::Done && (r.1 matches Execute2Action::Fail(e) && e is Unimplemented && e.spec_message() == "table "@
                + table_name@ + ", engine type "@ + engine@ + ", does not support "@
                + spec_input_type_name(facts.input_type))
        },
        event matches Execute2Event::SnapshotRead { snapshot, cluster_nodes } ==> {
            let summary = match snapshot {
                Some(s) => Some(s.summary),
                None => None,
            };
            let segments = match snapshot {
                Some(s) => Some(s.segments),
                None => None,
            };
            let fast = spec_fast_mutation(facts.input_type, summary, facts.truncate_table);
            &&& r.0 == Execute2State::Done
            &&& fast == FastMutation::NoOp ==> r.1 is FinishEmpty
            &&& fast matches FastMutation::Truncate(p) ==> r.1 == Execute2Action::Truncate(p)
            &&& fast == FastMutation::NotApplicable ==> (r.1 matches Execute2Action::BuildPipeline {
                partitions,
                hook,
            } && partitions == spec_mutation_source_partions(
                facts.mutation_source,
                facts.input_type,
                facts.has_filter,
                segments,
                cluster_nodes,
            ) && is_hook_plan(hook, facts.input_type, facts.holds_lock, facts.target))
        },
{
    match event {
        Execute2Event::Begin => (Execute2State::AwaitLabel, Execute2Action::CheckDeduplicateLabel),
        Execute2Event::LabelChecked { duplicated } => {
            if duplicated {
                (Execute2State::Done, Execute2Action::FinishEmpty)
            } else {
                (Execute2State::AwaitTable, Execute2Action::ResolveTable)
            }
        },
        Execute2Event::TableResolved { is_fuse, table_name, engine } => {
            if is_fuse {
                (Execute2State::AwaitSnapshot, Execute2Action::ReadSnapshot)
            } else {
                let e = unsupported_engine_error(
                    table_name.as_str(),
                    engine.as_str(),
                    facts.input_type,
                );
                (Execute2State::Done, Execute2Action::Fail(e))
            }
        },
        Execute2Event::SnapshotRead { snapshot, cluster_nodes } => {
            let (summary, segments) = match snapshot {
                Some(s) => (Some(s.summary), Some(s.segments)),
                None => (None, None),
            };
            match fast_mutation(facts.input_type, summary, facts.truncate_table) {
                FastMutation::NoOp => (Execute2State::Done, Execute2Action::FinishEmpty),
                FastMutation::Truncate(p) => (Execute2State::Done, Execute2Action::Truncate(p)),
                FastMutation::NotApplicable => {
                    let partitions = mutation_source_partions(
                        facts.mutation_source,
                        facts.input_type,
                        facts.has_filter,
                        segments,
                        cluster_nodes,
                    );
                    let hook = execute_hook_plan(facts.input_type, facts.holds_lock, &facts.target);
                    (Execute2State::Done, Execute2Action::BuildPipeline { partitions, hook })
                },
            }
        },
    }
}

/// A merge never takes a shortcut: whatever the snapshot, even an empty
/// table, it is planned and run. An update or a delete of an empty table, or
/// of a table without a snapshot, does nothing; only a delete of every row of
/// a non-empty table truncates, counting its rows and bytes.
pub proof fn law_fast_mutation(
    input_type: DataMutationInputType,
    snapshot: Option<TableSummary>,
    truncate_table: bool,
)
    ensures
        input_type == DataMutationInputType::Merge ==> spec_fast_mutation(
            input_type,
            snapshot,
            truncate_table,
        ) == FastMutation::NotApplicable,
        input_type != DataMutationInputType::Merge && (snapshot is None || snapshot.unwrap().row_count
            == 0) ==> spec_fast_mutation(input_type, snapshot, truncate_table) == FastMutation::NoOp,
        spec_fast_mutation(input_type, snapshot, truncate_table) is Truncate <==> (input_type
            == DataMutationInputType::Delete && truncate_table && snapshot is Some
            && snapshot.unwrap().row_count > 0),
        input_type == DataMutationInputType::Update && snapshot is Some && snapshot.unwrap().row_count
            > 0 ==> spec_fast_mutation(input_type, snapshot, truncate_table)
            == FastMutation::NotApplicable,
{
}

/// The hooks after a mutation take no lock when the mutation already holds
/// the table's lock and a lock without retry otherwise, whatever the
/// statement; they record the statement's kind of change, refresh after an
/// update or a delete, run everything after a merge, and run on the
/// mutation's own table.
pub proof fn law_hook_plan(
    plan: HookPlan,
    input_type: DataMutationInputType,
    holds_lock: bool,
    target: TableTarget,
)
    requires
        is_hook_plan(plan, input_type, holds_lock, target),
    ensures
        holds_lock ==> plan.lock == LockTableOption::NoLock,
        !holds_lock ==> plan.lock == LockTableOption::LockNoRetry,
        input_type == DataMutationInputType::Update ==> plan.kind == MutationKind::Update
            && plan.action == HookAction::Refresh,
        input_type == DataMutationInputType::Delete ==> plan.kind == MutationKind::Delete
            && plan.action == HookAction::Refresh,
        input_type == DataMutationInputType::Merge ==> plan.kind == MutationKind::MergeInto
            && plan.action == HookAction::Execute,
        plan.target.catalog_name@ == target.catalog_name@,
        plan.target.database_name@ == target.database_name@,
        plan.target.table_name@ == target.table_name@,
{
}

} // verus!
