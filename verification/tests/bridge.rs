use grafbase_local::environment::Project;
use grafbase_local::environment::Probe;
use grafbase_local::errors::{
    ApiError, ErrorClass, SearchError, StorageFailure, STATUS_BAD_REQUEST, STATUS_CONFLICT, STATUS_INTERNAL,
};
use grafbase_local::operation::{Constraint, ConstraintKind, Field, Record, Scalar};
use grafbase_local::paths::FilePath;
use grafbase_local::reload::{Action, Event, Input, Lifecycle, Stage};
use grafbase_local::resolver::{conclude, settle, Reading, ResolverInvocation, WorkerOutcome};
use grafbase_local::router::{conclude_query, endpoint_of, registry_schema, Endpoint, RegistryRead};
use grafbase_local::schema::Schema;
use grafbase_local::server::{
    database_file_path, database_url, start, Observation, ServerError, Startup, Task,
};

fn invocation(name: &str) -> ResolverInvocation {
    ResolverInvocation { resolver_name: name.to_string(), payload: serde_json::Value::Null }
}

#[test]
fn responsive_resolver_returns_exactly_its_output() {
    let body = "{\"greeting\":\"hello\",\"count\":[1,2,3]}".to_string();
    let expected: serde_json::Value = serde_json::from_str(&body).unwrap();
    assert_eq!(settle(&invocation("hello"), WorkerOutcome::Responded(body)), Ok(expected.clone()));
    assert_eq!(conclude(&invocation("hello"), Reading::Value(expected.clone())), Ok(expected));
    assert_eq!(
        settle(&invocation("hello"), WorkerOutcome::Responded("null".to_string())),
        Ok(serde_json::Value::Null)
    );
}

#[test]
fn silent_or_broken_resolver_fails_by_name() {
    let named = Err(ApiError::ResolverInvalid("price".to_string()));
    assert_eq!(settle(&invocation("price"), WorkerOutcome::TimedOut), named);
    assert_eq!(settle(&invocation("price"), WorkerOutcome::Unavailable), named);
    assert_eq!(settle(&invocation("price"), WorkerOutcome::Responded("{not json".to_string())), named);
    assert_eq!(settle(&invocation("price"), WorkerOutcome::Responded(String::new())), named);
    assert_eq!(conclude(&invocation("price"), Reading::Malformed), named);
    assert_eq!(conclude(&invocation("price"), Reading::Missing), named);
}

#[test]
fn requests_in_progress_survive_a_reload() {
    let reload = Input::Signal(Event::Reload(FilePath::from_text("/w/grafbase/schema.graphql")));
    let state = Lifecycle::new();
    assert_eq!(state, Lifecycle { stage: Stage::Idle, in_flight: 0 });
    let (state, action) = state.step(&Input::Arrival);
    assert_eq!(action, Action::Refuse);
    let (state, action) = state.step(&Input::Started);
    assert_eq!(action, Action::Announce);
    let (state, action) = state.step(&Input::Arrival);
    assert_eq!(action, Action::Accept);
    let (state, action) = state.step(&Input::Arrival);
    assert_eq!(action, Action::Accept);
    assert_eq!(state, Lifecycle { stage: Stage::Serving, in_flight: 2 });
    let (state, action) = state.step(&reload);
    assert_eq!(action, Action::Nothing);
    assert_eq!(state, Lifecycle { stage: Stage::Draining, in_flight: 2 });
    let (state, action) = state.step(&Input::Arrival);
    assert_eq!(action, Action::Refuse);
    let (state, action) = state.step(&Input::Started);
    assert_eq!(action, Action::Nothing);
    let (state, action) = state.step(&Input::Completion);
    assert_eq!(action, Action::Deliver);
    let (state, action) = state.step(&Input::Completion);
    assert_eq!(action, Action::DeliverAndClose);
    assert_eq!(state, Lifecycle { stage: Stage::Closed, in_flight: 0 });
    let (state, action) = state.step(&Input::Arrival);
    assert_eq!(action, Action::Refuse);
    assert_eq!(state.step(&reload), (state, Action::Nothing));
    assert_eq!(state.step(&Input::Completion), (state, Action::Nothing));
}

#[test]
fn idle_bridge_closes_at_once_on_reload() {
    let reload = Event::Reload(FilePath::from_text("schema.graphql"));
    assert!(reload.is_shutdown_trigger());
    assert!(!Event::BridgeReady.is_shutdown_trigger());
    let (state, _) = Lifecycle::new().step(&Input::Started);
    let (state, action) = state.step(&Input::Signal(Event::BridgeReady));
    assert_eq!(action, Action::Nothing);
    assert_eq!(state.stage, Stage::Serving);
    let (state, action) = state.step(&Input::Signal(reload));
    assert_eq!(action, Action::Close);
    assert_eq!(state, Lifecycle { stage: Stage::Closed, in_flight: 0 });
    let full = Lifecycle { stage: Stage::Serving, in_flight: usize::MAX };
    assert_eq!(full.step(&Input::Arrival), (full, Action::Refuse));
}

#[test]
fn startup_creates_what_is_missing() {
    let (phase, task) = start();
    assert_eq!((phase, &task), (Startup::CheckingDirectory, &Task::CheckDirectory));
    let (phase, task) = phase.advance(Observation::Found(false));
    assert_eq!((phase, &task), (Startup::CreatingDirectory, &Task::CreateDirectory));
    let (phase, task) = phase.advance(Observation::Done);
    assert_eq!((phase, &task), (Startup::CheckingDatabase, &Task::CheckDatabase));
    let (phase, task) = phase.advance(Observation::Found(false));
    assert_eq!((phase, &task), (Startup::CreatingDatabase, &Task::CreateDatabase));
    let (phase, task) = phase.advance(Observation::Done);
    assert_eq!((phase, &task), (Startup::Connecting, &Task::Connect));
    let (phase, task) = phase.advance(Observation::Done);
    assert_eq!((phase, &task), (Startup::Preparing, &Task::Prepare));
    let (phase, task) = phase.advance(Observation::Done);
    assert_eq!((phase, &task), (Startup::Serving, &Task::Serve));
    assert_eq!(
        phase.advance(Observation::Failed("late".to_string())),
        (Startup::Failed, Task::GiveUp(ServerError::Server("late".to_string())))
    );
    let (phase, task) = phase.advance(Observation::Done);
    assert_eq!((phase, &task), (Startup::Stopped, &Task::Close));
    assert_eq!(phase.advance(Observation::Failed("later".to_string())), (Startup::Stopped, Task::Nothing));
}

#[test]
fn startup_skips_what_is_there_and_stops_at_the_first_failure() {
    let (phase, task) = Startup::CheckingDirectory.advance(Observation::Found(true));
    assert_eq!((phase, &task), (Startup::CheckingDatabase, &Task::CheckDatabase));
    let (phase, task) = phase.advance(Observation::Found(true));
    assert_eq!((phase, &task), (Startup::Connecting, &Task::Connect));
    assert_eq!(
        Startup::CheckingDirectory.advance(Observation::Failed("denied".to_string())),
        (Startup::Failed, Task::GiveUp(ServerError::ReadDatabaseDir("denied".to_string())))
    );
    assert_eq!(
        Startup::CreatingDirectory.advance(Observation::Failed("read-only".to_string())),
        (Startup::Failed, Task::GiveUp(ServerError::CreateDatabaseDir("read-only".to_string())))
    );
    assert_eq!(
        Startup::Preparing.advance(Observation::Failed("syntax".to_string())),
        (Startup::Failed, Task::GiveUp(ServerError::Database("syntax".to_string())))
    );
    assert_eq!(Startup::Failed.advance(Observation::Done), (Startup::Failed, Task::Nothing));
}

#[test]
fn store_lies_in_the_database_directory() {
    let probes = vec![Probe { directory: FilePath::from_text("/w/grafbase"), ts_config: false, graphql: true }];
    let mut warnings = Vec::new();
    let project = Project::try_init(&probes, &mut warnings).unwrap();
    let file = database_file_path(&project);
    assert_eq!(file, FilePath::from_text("/w/.grafbase/data/data.sqlite"));
    assert_eq!(database_url(Some(&file.to_text())), Ok("sqlite:///w/.grafbase/data/data.sqlite".to_string()));
    assert_eq!(database_url(Some("data.sqlite")), Ok("sqlite://data.sqlite".to_string()));
    assert_eq!(database_url(None), Err(ServerError::ProjectPath));
}

#[test]
fn four_endpoints_are_routed() {
    assert_eq!(endpoint_of("/query"), Some(Endpoint::Query));
    assert_eq!(endpoint_of("/mutation"), Some(Endpoint::Mutation));
    assert_eq!(endpoint_of("/search"), Some(Endpoint::Search));
    assert_eq!(endpoint_of("/invoke-resolver"), Some(Endpoint::InvokeResolver));
    assert_eq!(endpoint_of("/graphql"), None);
    assert_eq!(endpoint_of("query"), None);
    assert_eq!(Endpoint::InvokeResolver.path(), "/invoke-resolver");
    assert_eq!(endpoint_of(Endpoint::Search.path()), Some(Endpoint::Search));
}

#[test]
fn failures_become_structured_responses() {
    let storage = ApiError::Storage(StorageFailure { code: Some("1".to_string()), message: "secret".to_string() });
    let response = storage.to_response();
    assert_eq!((response.status, response.class), (STATUS_INTERNAL, ErrorClass::Storage));
    assert_eq!((response.operation, response.resolver.clone()), (None, None));
    let conflict = ApiError::Conflict { index: 3, constraint: Constraint { kind: ConstraintKind::Unique } };
    let response = conflict.to_response();
    assert_eq!((response.status, response.class, response.operation), (STATUS_CONFLICT, ErrorClass::Conflict, Some(3)));
    let response = ApiError::Search(SearchError::CursorMismatch).to_response();
    assert_eq!((response.status, response.class), (STATUS_BAD_REQUEST, ErrorClass::Search));
    let response = ApiError::Configuration.to_response();
    assert_eq!((response.status, response.class), (500, ErrorClass::Server));
    let response = ApiError::ResolverInvalid("price".to_string()).to_response();
    assert_eq!((response.status, response.class), (500, ErrorClass::Resolver));
    assert_eq!(response.resolver, Some("price".to_string()));
    assert_eq!(STATUS_CONFLICT, 409);
    assert_eq!(STATUS_BAD_REQUEST, 400);
}

#[test]
fn query_rows_pass_through_unchanged() {
    let row = Record {
        fields: vec![
            Field { name: "slug".to_string(), value: Scalar::Text("abc".to_string()) },
            Field { name: "rank".to_string(), value: Scalar::Integer(7) },
            Field { name: "slug".to_string(), value: Scalar::Null },
        ],
    };
    assert_eq!(row.get("slug"), Some(&Scalar::Text("abc".to_string())));
    assert_eq!(row.get("rank"), Some(&Scalar::Integer(7)));
    assert_eq!(row.get("missing"), None);
    assert_eq!(Scalar::Bytes(vec![1, 2, 3]).duplicate(), Scalar::Bytes(vec![1, 2, 3]));
    assert_eq!(Scalar::Real(5).duplicate(), Scalar::Real(5));
    let rows = conclude_query(Ok(vec![row])).unwrap();
    assert_eq!(rows.len(), 1);
    assert_eq!(rows[0].fields.len(), 3);
    let failure = StorageFailure { code: None, message: "malformed SQL".to_string() };
    assert_eq!(
        conclude_query(Err(failure)),
        Err(ApiError::Storage(StorageFailure { code: None, message: "malformed SQL".to_string() }))
    );
}

#[test]
fn unusable_registry_is_a_configuration_failure() {
    assert_eq!(registry_schema(RegistryRead::Unreadable), Err(ApiError::Configuration));
    assert_eq!(registry_schema(RegistryRead::Malformed), Err(ApiError::Configuration));
    assert_eq!(registry_schema(RegistryRead::Loaded(Schema { fields: Vec::new() })), Ok(Schema { fields: Vec::new() }));
}
