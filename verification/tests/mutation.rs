use grafbase_local::errors::{ApiError, StorageFailure};
use grafbase_local::mutation::{advance, begin, Directive, Phase};
use grafbase_local::operation::{
    count_placeholders, Constraint, ConstraintKind, Mutation, Operation, OperationKind, Scalar,
};

/// A store of slugs with one transaction at a time: pending slugs become
/// durable on commit and vanish on rollback.
struct SlugStore {
    durable: Vec<String>,
    pending: Vec<String>,
}

impl SlugStore {
    fn new() -> Self {
        SlugStore { durable: Vec::new(), pending: Vec::new() }
    }

    fn insert(&mut self, slug: &str) -> Result<(), StorageFailure> {
        if self.durable.iter().chain(self.pending.iter()).any(|taken| taken == slug) {
            return Err(StorageFailure {
                code: Some("2067".to_string()),
                message: "UNIQUE constraint failed: todo.slug".to_string(),
            });
        }
        self.pending.push(slug.to_string());
        Ok(())
    }

    fn find(&self, slug: &str) -> Vec<String> {
        self.durable.iter().filter(|held| held.as_str() == slug).cloned().collect()
    }
}

fn create_todo(slug: &str, kind: Option<OperationKind>) -> Operation {
    Operation {
        sql: "INSERT INTO todo (slug) VALUES (?)".to_string(),
        values: vec![Scalar::Text(slug.to_string())],
        kind,
    }
}

fn unique() -> Option<OperationKind> {
    Some(OperationKind::Constraint(Constraint { kind: ConstraintKind::Unique }))
}

/// Runs a batch against the store the way the bridge's caller does, and
/// returns the directives in the order they were carried out.
fn run(batch: &Mutation, store: &mut SlugStore) -> Vec<Directive> {
    let mut trace = Vec::new();
    let (mut phase, mut directive) = begin(batch);
    loop {
        let outcome = match &directive {
            Directive::Begin => {
                store.pending.clear();
                Ok(())
            }
            Directive::Apply(index) => match &batch.mutations[*index].values[0] {
                Scalar::Text(slug) => store.insert(slug),
                _ => Ok(()),
            },
            Directive::Commit => {
                let mut pending = std::mem::take(&mut store.pending);
                store.durable.append(&mut pending);
                Ok(())
            }
            Directive::Abort(_) => {
                store.pending.clear();
                trace.push(directive);
                return trace;
            }
            _ => {
                trace.push(directive);
                return trace;
            }
        };
        trace.push(directive);
        let next = advance(batch, phase, outcome);
        phase = next.0;
        directive = next.1;
    }
}

#[test]
fn empty_batch_succeeds_without_store_work() {
    let batch = Mutation { mutations: Vec::new() };
    let (phase, directive) = begin(&batch);
    assert_eq!(phase, Phase::Closed);
    assert_eq!(directive, Directive::Succeed);
    let mut store = SlugStore::new();
    let trace = run(&batch, &mut store);
    assert_eq!(trace, vec![Directive::Succeed]);
    assert!(store.durable.is_empty());
}

#[test]
fn two_todos_with_one_slug_roll_back() {
    let batch = Mutation { mutations: vec![create_todo("abc", unique()), create_todo("abc", unique())] };
    let mut store = SlugStore::new();
    let trace = run(&batch, &mut store);
    assert_eq!(
        trace,
        vec![
            Directive::Begin,
            Directive::Apply(0),
            Directive::Apply(1),
            Directive::Abort(ApiError::Conflict { index: 1, constraint: Constraint { kind: ConstraintKind::Unique } }),
        ]
    );
    assert!(store.find("abc").is_empty());
    assert!(store.durable.is_empty());
    assert!(store.pending.is_empty());
}

#[test]
fn distinct_slugs_commit_in_order() {
    let batch = Mutation {
        mutations: vec![create_todo("a", unique()), create_todo("b", None), create_todo("c", unique())],
    };
    let mut store = SlugStore::new();
    let trace = run(&batch, &mut store);
    assert_eq!(
        trace,
        vec![
            Directive::Begin,
            Directive::Apply(0),
            Directive::Apply(1),
            Directive::Apply(2),
            Directive::Commit,
            Directive::Succeed,
        ]
    );
    assert_eq!(store.durable, vec!["a".to_string(), "b".to_string(), "c".to_string()]);
    assert_eq!(store.find("b"), vec!["b".to_string()]);
}

#[test]
fn untagged_uniqueness_failure_is_a_storage_error() {
    let batch = Mutation { mutations: vec![create_todo("abc", None), create_todo("abc", None)] };
    let mut store = SlugStore::new();
    let trace = run(&batch, &mut store);
    assert_eq!(
        trace.last(),
        Some(&Directive::Abort(ApiError::Storage(StorageFailure {
            code: Some("2067".to_string()),
            message: "UNIQUE constraint failed: todo.slug".to_string(),
        })))
    );
    assert!(store.durable.is_empty());
}

#[test]
fn tagged_operation_with_other_failure_is_a_storage_error() {
    let batch = Mutation { mutations: vec![create_todo("abc", unique())] };
    let failure = StorageFailure { code: Some("1".to_string()), message: "no such table: todo".to_string() };
    let (phase, directive) = advance(&batch, Phase::Applying(0), Err(failure));
    assert_eq!(phase, Phase::Closed);
    assert_eq!(
        directive,
        Directive::Abort(ApiError::Storage(StorageFailure {
            code: Some("1".to_string()),
            message: "no such table: todo".to_string(),
        }))
    );
}

#[test]
fn primary_key_violation_on_tagged_operation_is_a_conflict() {
    let batch = Mutation { mutations: vec![create_todo("x", None), create_todo("abc", unique())] };
    let failure = StorageFailure { code: Some("1555".to_string()), message: "taken".to_string() };
    assert!(failure.is_uniqueness_violation());
    let error = ApiError::from_error_and_operation(failure, &batch.mutations[1], 1);
    assert_eq!(error, ApiError::Conflict { index: 1, constraint: Constraint { kind: ConstraintKind::Unique } });
}

#[test]
fn failure_without_code_is_no_uniqueness_violation() {
    let failure = StorageFailure { code: None, message: "pool closed".to_string() };
    assert!(!failure.is_uniqueness_violation());
    let other = StorageFailure { code: Some("19".to_string()), message: "constraint".to_string() };
    assert!(!other.is_uniqueness_violation());
}

#[test]
fn failed_begin_and_failed_commit_fail_without_rollback() {
    let batch = Mutation { mutations: vec![create_todo("abc", unique())] };
    let down = StorageFailure { code: None, message: "cannot open".to_string() };
    let (phase, directive) = advance(&batch, Phase::Opening, Err(down));
    assert_eq!(phase, Phase::Closed);
    assert_eq!(
        directive,
        Directive::Fail(ApiError::Storage(StorageFailure { code: None, message: "cannot open".to_string() }))
    );
    let full = StorageFailure { code: Some("13".to_string()), message: "disk full".to_string() };
    let (phase, directive) = advance(&batch, Phase::Committing, Err(full));
    assert_eq!(phase, Phase::Closed);
    assert_eq!(
        directive,
        Directive::Fail(ApiError::Storage(StorageFailure {
            code: Some("13".to_string()),
            message: "disk full".to_string(),
        }))
    );
    assert_eq!(advance(&batch, Phase::Committing, Ok(())), (Phase::Closed, Directive::Succeed));
    assert_eq!(advance(&batch, Phase::Closed, Ok(())), (Phase::Closed, Directive::Rest));
}

#[test]
fn placeholders_are_counted_outside_quotes() {
    assert_eq!(count_placeholders("SELECT 1"), 0);
    assert_eq!(count_placeholders("SELECT * FROM t WHERE a = ? AND b = ?"), 2);
    assert_eq!(count_placeholders("INSERT INTO t VALUES (?, '?', ?)"), 2);
    assert_eq!(count_placeholders("SELECT \"a?\" FROM t WHERE b = 'it''s ?' AND c = ?"), 1);
    assert_eq!(count_placeholders("SELECT 'é?' , ?"), 1);
}

#[test]
fn well_formed_operations_bind_every_placeholder() {
    let good = create_todo("abc", None);
    assert!(good.is_well_formed());
    assert_eq!(good.iter_variables(), &vec![Scalar::Text("abc".to_string())]);
    assert_eq!(good.constraint(), None);
    let bad = Operation { sql: "DELETE FROM todo WHERE id = ?".to_string(), values: Vec::new(), kind: unique() };
    assert!(!bad.is_well_formed());
    assert_eq!(bad.constraint(), Some(Constraint { kind: ConstraintKind::Unique }));
    assert!(Mutation { mutations: vec![create_todo("a", None)] }.is_well_formed());
    assert!(!Mutation { mutations: vec![create_todo("a", None), bad] }.is_well_formed());
}

#[test]
fn phases_fit_the_batch_they_arise_for() {
    let empty = Mutation { mutations: Vec::new() };
    let two = Mutation { mutations: vec![create_todo("a", None), create_todo("b", None)] };
    assert!(Phase::Closed.is_fit(&empty));
    assert!(!Phase::Opening.is_fit(&empty));
    assert!(!Phase::Committing.is_fit(&empty));
    assert!(!Phase::Applying(0).is_fit(&empty));
    assert!(Phase::Opening.is_fit(&two));
    assert!(Phase::Applying(1).is_fit(&two));
    assert!(!Phase::Applying(2).is_fit(&two));
    assert!(Phase::Committing.is_fit(&two));
}
