use grafbase_local::environment::{
    candidate_directories, default_user_dot_grafbase_path_in, find_grafbase_configuration,
    get_default_user_dot_grafbase_path,
    get_project_grafbase_path, get_user_dot_grafbase_path, select_user_dot_grafbase_path, CommonError, Environment,
    EnvironmentCell, GrafbaseSchemaPath, Probe, Project, SchemaLocation, Warning,
};
use grafbase_local::paths::{str_equal, FilePath};

fn path(text: &str) -> FilePath {
    FilePath::from_text(text)
}

fn texts(paths: &[FilePath]) -> Vec<String> {
    paths.iter().map(|path| path.to_text()).collect()
}

fn probe(directory: &str, ts_config: bool, graphql: bool) -> Probe {
    Probe { directory: path(directory), ts_config, graphql }
}

#[test]
fn paths_are_read_and_written() {
    let absolute = path("/home/user//project/");
    assert!(absolute.absolute);
    assert_eq!(absolute.components, vec!["home", "user", "project"]);
    assert_eq!(absolute.to_text(), "/home/user/project");
    assert_eq!(absolute.depth(), 3);
    let relative = path("grafbase/schema.graphql");
    assert!(!relative.absolute);
    assert_eq!(relative.to_text(), "grafbase/schema.graphql");
    assert_eq!(path("/").to_text(), "/");
    assert_eq!(path("").to_text(), "");
    assert_eq!(path("").depth(), 0);
    assert_eq!(path("a").to_text(), "a");
    assert_eq!(path("/é/ü").components, vec!["é", "ü"]);
}

#[test]
fn parent_drops_the_last_component() {
    assert_eq!(path("/a/b").parent(), Some(path("/a")));
    assert_eq!(path("/a").parent(), Some(path("/")));
    assert_eq!(path("/").parent(), None);
    assert_eq!(path("a").parent(), Some(path("")));
    assert_eq!(path("").parent(), None);
    assert_eq!(path("/a").join("b"), path("/a/b"));
    assert_eq!(path("").join("b"), path("b"));
    assert_eq!(path("/a/b/c").truncated(1), path("/a"));
    assert_eq!(path("/a/b").duplicate(), path("/a/b"));
    assert_eq!(FilePath::new(true), path("/"));
}

#[test]
fn only_relative_paths_start_with_a_name() {
    assert!(path("grafbase/x").starts_with_name("grafbase"));
    assert!(!path("/grafbase/x").starts_with_name("grafbase"));
    assert!(!path("x/grafbase").starts_with_name("grafbase"));
    assert!(!path("").starts_with_name("grafbase"));
    assert!(str_equal("a", "a"));
    assert!(!str_equal("a", "A"));
}

#[test]
fn both_schemas_give_the_configuration_and_a_warning() {
    let mut warnings = Vec::new();
    let found = find_grafbase_configuration(&path("/p/grafbase"), true, true, &mut warnings).unwrap();
    assert_eq!(found.location(), &SchemaLocation::TsConfig(path("/p/grafbase/grafbase.config.ts")));
    assert_eq!(warnings.len(), 1);
    assert_eq!(warnings[0].message(), "Found both grafbase.config.ts and schema.graphql files");
    assert_eq!(warnings[0].hint(), Some("Delete one of them to avoid conflicts"));
}

#[test]
fn one_schema_gives_no_warning() {
    let mut warnings = vec![Warning::new("earlier")];
    let ts = find_grafbase_configuration(&path("/p/grafbase"), true, false, &mut warnings).unwrap();
    assert_eq!(ts.location(), &SchemaLocation::TsConfig(path("/p/grafbase/grafbase.config.ts")));
    let gql = find_grafbase_configuration(&path("/p/grafbase"), false, true, &mut warnings).unwrap();
    assert_eq!(gql.location(), &SchemaLocation::Graphql(path("/p/grafbase/schema.graphql")));
    assert_eq!(gql.parent(), Some(path("/p/grafbase")));
    assert_eq!(find_grafbase_configuration(&path("/p/grafbase"), false, false, &mut warnings), None);
    assert_eq!(warnings.len(), 1);
    assert_eq!(warnings[0].message(), "earlier");
    assert_eq!(warnings[0].hint(), None);
}

#[test]
fn warnings_carry_their_latest_hint() {
    let warning = Warning::new("m").with_hint("first").with_hint("second");
    assert_eq!(warning.message(), "m");
    assert_eq!(warning.hint(), Some("second"));
    assert_eq!(GrafbaseSchemaPath::graphql(path("schema.graphql")).parent(), Some(path("")));
    assert_eq!(GrafbaseSchemaPath::ts_config(path("")).parent(), None);
}

#[test]
fn candidates_climb_from_the_current_directory() {
    let listed = candidate_directories(Some(&path("/home/user/project/src"))).unwrap();
    assert_eq!(
        texts(&listed),
        vec![
            "/home/user/project/src/grafbase",
            "/home/user/project/grafbase",
            "/home/user/grafbase",
            "/home/grafbase",
            "/grafbase",
        ]
    );
    assert_eq!(candidate_directories(None), Err(CommonError::ReadCurrentDirectory));
    assert_eq!(texts(&candidate_directories(Some(&path(""))).unwrap()), vec!["grafbase"]);
}

#[test]
fn a_path_that_begins_with_grafbase_offers_itself() {
    let listed = candidate_directories(Some(&path("grafbase/resolvers"))).unwrap();
    assert_eq!(
        texts(&listed),
        vec!["grafbase/resolvers", "grafbase/resolvers/grafbase", "grafbase", "grafbase/grafbase", "grafbase"]
    );
    let absolute = candidate_directories(Some(&path("/grafbase"))).unwrap();
    assert_eq!(texts(&absolute), vec!["/grafbase/grafbase", "/grafbase"]);
}

#[test]
fn the_nearest_schema_is_the_projects() {
    let probes = vec![
        probe("/home/user/project/src/grafbase", false, false),
        probe("/home/user/project/grafbase", false, true),
        probe("/home/user/grafbase", true, true),
    ];
    let mut warnings = Vec::new();
    let found = get_project_grafbase_path(&probes, &mut warnings).unwrap();
    assert_eq!(found.location(), &SchemaLocation::Graphql(path("/home/user/project/grafbase/schema.graphql")));
    assert!(warnings.is_empty());
    assert_eq!(get_project_grafbase_path(&vec![probe("/grafbase", false, false)], &mut warnings), None);
    assert_eq!(get_project_grafbase_path(&Vec::new(), &mut warnings), None);
}

#[test]
fn project_paths_follow_from_the_schema() {
    let probes = vec![probe("/w/src/grafbase", false, false), probe("/w/grafbase", true, true)];
    let mut warnings = Vec::new();
    let project = Project::try_init(&probes, &mut warnings).unwrap();
    assert_eq!(project.path.to_text(), "/w");
    assert_eq!(project.schema_path.location(), &SchemaLocation::TsConfig(path("/w/grafbase/grafbase.config.ts")));
    assert_eq!(project.grafbase_directory_path.to_text(), "/w/grafbase");
    assert_eq!(project.dot_grafbase_directory_path.to_text(), "/w/.grafbase");
    assert_eq!(project.registry_path.to_text(), "/w/.grafbase/registry.json");
    assert_eq!(project.resolvers_source_path.to_text(), "/w/grafbase/resolvers");
    assert_eq!(project.resolvers_build_artifact_path.to_text(), "/w/.grafbase/resolvers");
    assert_eq!(project.database_directory_path.to_text(), "/w/.grafbase/data");
    assert_eq!(warnings.len(), 1);
    assert_eq!(warnings[0].hint(), Some("Delete one of them to avoid conflicts"));
}

#[test]
fn no_schema_no_project() {
    let probes = vec![probe("/w/grafbase", false, false), probe("/grafbase", false, false)];
    let mut warnings = Vec::new();
    assert_eq!(Project::try_init(&probes, &mut warnings), Err(CommonError::FindGrafbaseDirectory));
    assert!(warnings.is_empty());
}

#[test]
fn the_override_wins_over_the_environment() {
    assert_eq!(
        select_user_dot_grafbase_path(Some(path("/o")), Some(path("/e")), Some(path("/d/.grafbase"))),
        Some(path("/o/.grafbase"))
    );
    assert_eq!(
        select_user_dot_grafbase_path(None, Some(path("/e")), Some(path("/d/.grafbase"))),
        Some(path("/e/.grafbase"))
    );
    assert_eq!(select_user_dot_grafbase_path(None, None, Some(path("/d/.grafbase"))), Some(path("/d/.grafbase")));
    assert_eq!(select_user_dot_grafbase_path(None, None, None), None);
    assert_eq!(get_user_dot_grafbase_path(Some(path("/o")), None), Some(path("/o/.grafbase")));
    assert_eq!(get_user_dot_grafbase_path(None, Some(path("e"))), Some(path("e/.grafbase")));
}

#[test]
fn the_default_lies_in_the_home_directory() {
    match get_default_user_dot_grafbase_path() {
        Some(found) => assert_eq!(found.components.last().map(String::as_str), Some(".grafbase")),
        None => assert_eq!(get_user_dot_grafbase_path(None, None), None),
    }
}

#[test]
fn environment_outside_a_project() {
    let mut cell = EnvironmentCell::new();
    assert_eq!(Environment::try_init(&mut cell, Some(path("/home/me")), None), Ok(()));
    let environment = Environment::get(&cell);
    assert_eq!(environment.project, None);
    assert_eq!(environment.user_dot_grafbase_path.to_text(), "/home/me/.grafbase");
    assert_eq!(environment.wrangler_installation_path.to_text(), "/home/me/.grafbase/wrangler");
    assert!(environment.warnings.is_empty());
}

#[test]
fn environment_inside_a_project() {
    let mut cell = EnvironmentCell::new();
    let probes = vec![probe("/w/grafbase", false, true)];
    assert_eq!(Environment::try_init_with_project(&mut cell, None, Some(path("/env")), &probes), Ok(()));
    assert_eq!(Environment::get(&cell).user_dot_grafbase_path.to_text(), "/env/.grafbase");
    let project = Project::get(&cell);
    assert_eq!(project.path.to_text(), "/w");
    assert_eq!(project.registry_path.to_text(), "/w/.grafbase/registry.json");
    let mut empty = EnvironmentCell::new();
    let nothing = vec![probe("/w/grafbase", false, false)];
    assert_eq!(
        Environment::try_init_with_project(&mut empty, Some(path("/o")), None, &nothing),
        Err(CommonError::FindGrafbaseDirectory)
    );
    assert_eq!(empty.slot, None);
}

#[test]
fn without_any_home_the_environment_is_not_set_up() {
    let mut cell = EnvironmentCell::new();
    match Environment::try_init(&mut cell, None, None) {
        Ok(()) => {
            let found = &Environment::get(&cell).user_dot_grafbase_path;
            assert_eq!(found.components.last().map(String::as_str), Some(".grafbase"));
            let wrangler = &Environment::get(&cell).wrangler_installation_path;
            assert_eq!(wrangler.components.last().map(String::as_str), Some("wrangler"));
        }
        Err(error) => {
            assert_eq!(error, CommonError::FindHomeDirectory);
            assert_eq!(cell.slot, None);
        }
    }
}

#[test]
fn text_of_a_path_reads_back_as_the_path() {
    for text in ["/", "", "a", "/a", "a/b", "/home/user/.grafbase/data"] {
        let read = FilePath::from_text(text);
        assert_eq!(read.to_text(), text);
        assert_eq!(FilePath::from_text(&read.to_text()), read);
    }
}

#[test]
fn the_default_is_dot_grafbase_in_the_home_given() {
    assert_eq!(default_user_dot_grafbase_path_in(Some("/home/me")), Some(path("/home/me/.grafbase")));
    assert_eq!(default_user_dot_grafbase_path_in(Some("/")), Some(path("/.grafbase")));
    assert_eq!(default_user_dot_grafbase_path_in(Some("users/me/")), Some(path("users/me/.grafbase")));
    assert_eq!(default_user_dot_grafbase_path_in(None), None);
}

#[test]
fn a_missing_home_comes_before_a_missing_project() {
    let mut cell = EnvironmentCell::new();
    let nothing = vec![probe("/w/grafbase", false, false)];
    assert_eq!(Environment::install_with_project(&mut cell, None, &nothing), Err(CommonError::FindHomeDirectory));
    assert_eq!(cell.slot, None);
    let found = vec![probe("/w/grafbase", true, false)];
    assert_eq!(Environment::install_with_project(&mut cell, None, &found), Err(CommonError::FindHomeDirectory));
    assert_eq!(cell.slot, None);
    assert_eq!(
        Environment::install_with_project(&mut cell, Some(path("/h/.grafbase")), &nothing),
        Err(CommonError::FindGrafbaseDirectory)
    );
    assert_eq!(cell.slot, None);
    assert_eq!(Environment::install_with_project(&mut cell, Some(path("/h/.grafbase")), &found), Ok(()));
    let environment = Environment::get(&cell);
    assert_eq!(environment.user_dot_grafbase_path, path("/h/.grafbase"));
    assert_eq!(environment.wrangler_installation_path, path("/h/.grafbase/wrangler"));
    assert_eq!(Project::get(&cell).path, path("/w"));
    assert!(environment.warnings.is_empty());
}

#[test]
fn the_environment_is_set_up_exactly_if_there_is_a_cache_directory() {
    let mut cell = EnvironmentCell::new();
    assert_eq!(Environment::install(&mut cell, None), Err(CommonError::FindHomeDirectory));
    assert_eq!(cell.slot, None);
    assert_eq!(Environment::install(&mut cell, Some(path("/h/.grafbase"))), Ok(()));
    let environment = Environment::get(&cell);
    assert_eq!(environment.project, None);
    assert_eq!(environment.user_dot_grafbase_path, path("/h/.grafbase"));
    assert_eq!(environment.wrangler_installation_path, path("/h/.grafbase/wrangler"));
    assert!(environment.warnings.is_empty());
}
