use databend_query::data_mutation::{
    execute2_step, execute_hook_plan, fast_mutation, get_data_mutation_table_result,
    mutation_source_partions, unsupported_engine_error, DataMutationInputType, Execute2Action,
    Execute2Event, Execute2State, FastMutation, HookAction, HookPlan, LockTableOption, MergeStatus,
    MutationFacts, MutationKind, PartitionsPlan, ProgressValues, SnapshotFacts, TableSummary,
    TableTarget,
};
use databend_query::error::ErrorCode;
use DataMutationInputType::{Delete, Merge, Update};

fn summary(rows: u64, bytes: u64) -> TableSummary {
    TableSummary { row_count: rows, uncompressed_byte_size: bytes }
}

fn target() -> TableTarget {
    TableTarget {
        catalog_name: "default".to_string(),
        database_name: "db".to_string(),
        table_name: "t".to_string(),
    }
}

fn hook(lock: LockTableOption, kind: MutationKind, action: HookAction) -> HookPlan {
    HookPlan { target: target(), lock, kind, action }
}

#[test]
fn hook_plans() {
    assert_eq!(
        execute_hook_plan(Update, true, &target()),
        hook(LockTableOption::NoLock, MutationKind::Update, HookAction::Refresh)
    );
    assert_eq!(
        execute_hook_plan(Delete, false, &target()),
        hook(LockTableOption::LockNoRetry, MutationKind::Delete, HookAction::Refresh)
    );
    assert_eq!(
        execute_hook_plan(Merge, false, &target()),
        hook(LockTableOption::LockNoRetry, MutationKind::MergeInto, HookAction::Execute)
    );
}

#[test]
fn fast_mutation_cases() {
    assert_eq!(fast_mutation(Merge, None, true), FastMutation::NotApplicable);
    assert_eq!(fast_mutation(Delete, None, true), FastMutation::NoOp);
    assert_eq!(fast_mutation(Update, Some(summary(0, 0)), false), FastMutation::NoOp);
    assert_eq!(
        fast_mutation(Delete, Some(summary(10, 400)), true),
        FastMutation::Truncate(ProgressValues { rows: 10, bytes: 400 })
    );
    assert_eq!(fast_mutation(Delete, Some(summary(10, 400)), false), FastMutation::NotApplicable);
    assert_eq!(fast_mutation(Update, Some(summary(10, 400)), true), FastMutation::NotApplicable);
}

#[test]
fn partitions_cases() {
    assert_eq!(mutation_source_partions(false, Delete, true, Some(3), 2), PartitionsPlan::NotRequired);
    assert_eq!(mutation_source_partions(true, Delete, true, None, 2), PartitionsPlan::EmptyMod);
    assert_eq!(
        mutation_source_partions(true, Delete, true, Some(3), 2),
        PartitionsPlan::Read { is_lazy: true, is_delete: true, push_down_filter: true }
    );
    assert_eq!(
        mutation_source_partions(true, Delete, false, Some(1), 2),
        PartitionsPlan::Read { is_lazy: false, is_delete: true, push_down_filter: false }
    );
    assert_eq!(
        mutation_source_partions(true, Delete, false, Some(5), 1),
        PartitionsPlan::Read { is_lazy: false, is_delete: true, push_down_filter: false }
    );
    assert_eq!(
        mutation_source_partions(true, Update, true, Some(5), 3),
        PartitionsPlan::Read { is_lazy: false, is_delete: false, push_down_filter: true }
    );
}

#[test]
fn unsupported_engine_message() {
    assert_eq!(
        unsupported_engine_error("t1", "MEMORY", DataMutationInputType::Delete),
        ErrorCode::Unimplemented("table t1, engine type MEMORY, does not support DELETE".to_string())
    );
    assert_eq!(DataMutationInputType::Merge.to_string(), "MERGE");
    assert_eq!(DataMutationInputType::Update.to_string(), "UPDATE");
}

#[test]
fn result_columns_follow_the_schema() {
    let fields = vec![
        "number of rows deleted".to_string(),
        "number of rows inserted".to_string(),
        "number of rows updated".to_string(),
    ];
    let status = MergeStatus { insert_rows: 3, update_rows: 5, deleted_rows: 7 };
    assert_eq!(get_data_mutation_table_result(&fields, status), vec![7, 3, 5]);
    let big = MergeStatus { insert_rows: (1usize << 32) + 2, update_rows: 0, deleted_rows: 0 };
    assert_eq!(get_data_mutation_table_result(&vec!["number of rows inserted".to_string()], big), vec![2]);
}

fn facts(input_type: DataMutationInputType) -> MutationFacts {
    MutationFacts {
        target: target(),
        input_type,
        has_filter: true,
        truncate_table: false,
        mutation_source: true,
        holds_lock: true,
    }
}

#[test]
fn execute2_runs_to_a_pipeline() {
    let f = facts(DataMutationInputType::Update);
    let (s, a) = execute2_step(&f, Execute2State::Start, Execute2Event::Begin);
    assert_eq!(s, Execute2State::AwaitLabel);
    assert!(matches!(a, Execute2Action::CheckDeduplicateLabel));
    let (s, a) = execute2_step(&f, s, Execute2Event::LabelChecked { duplicated: false });
    assert_eq!(s, Execute2State::AwaitTable);
    assert!(matches!(a, Execute2Action::ResolveTable));
    let (s, a) = execute2_step(
        &f,
        s,
        Execute2Event::TableResolved { is_fuse: true, table_name: "t".to_string(), engine: "FUSE".to_string() },
    );
    assert_eq!(s, Execute2State::AwaitSnapshot);
    assert!(matches!(a, Execute2Action::ReadSnapshot));
    let (s, a) = execute2_step(
        &f,
        s,
        Execute2Event::SnapshotRead {
            snapshot: Some(SnapshotFacts { summary: summary(5, 50), segments: 2 }),
            cluster_nodes: 1,
        },
    );
    assert_eq!(s, Execute2State::Done);
    match a {
        Execute2Action::BuildPipeline { partitions, hook } => {
            assert_eq!(partitions, PartitionsPlan::Read { is_lazy: false, is_delete: false, push_down_filter: true });
            assert_eq!(hook, self::hook(LockTableOption::NoLock, MutationKind::Update, HookAction::Refresh));
        },
        _ => panic!("expected a pipeline"),
    }
}

#[test]
fn execute2_stops_early() {
    let f = facts(DataMutationInputType::Delete);
    let (s, a) = execute2_step(&f, Execute2State::AwaitLabel, Execute2Event::LabelChecked { duplicated: true });
    assert_eq!(s, Execute2State::Done);
    assert!(matches!(a, Execute2Action::FinishEmpty));

    let (s, a) = execute2_step(
        &f,
        Execute2State::AwaitTable,
        Execute2Event::TableResolved { is_fuse: false, table_name: "t".to_string(), engine: "MEMORY".to_string() },
    );
    assert_eq!(s, Execute2State::Done);
    match a {
        Execute2Action::Fail(e) => assert_eq!(
            e,
            ErrorCode::Unimplemented("table t, engine type MEMORY, does not support DELETE".to_string())
        ),
        _ => panic!("expected a failure"),
    }

    let truncating = MutationFacts { truncate_table: true, ..f.clone() };
    let (_, a) = execute2_step(
        &truncating,
        Execute2State::AwaitSnapshot,
        Execute2Event::SnapshotRead { snapshot: Some(SnapshotFacts { summary: summary(8, 80), segments: 1 }), cluster_nodes: 3 },
    );
    assert!(matches!(a, Execute2Action::Truncate(ProgressValues { rows: 8, bytes: 80 })));

    let (_, a) = execute2_step(&f, Execute2State::AwaitSnapshot, Execute2Event::SnapshotRead { snapshot: None, cluster_nodes: 3 });
    assert!(matches!(a, Execute2Action::FinishEmpty));
}
