//! The layout of a project on disk and of the user's own directory: where
//! the schema lies, and the paths that follow from it.

use crate::paths::{pieces, FilePath, SEPARATOR};
use vstd::prelude::*;

verus! {

/// Why the environment could not be worked out.
#[derive(Debug, Clone, Copy, PartialEq, Eq, Structural)]
pub enum CommonError {
    /// the current directory cannot be read
    ReadCurrentDirectory,
    /// no ancestor directory holds a project
    FindGrafbaseDirectory,
    /// the user has no home directory
    FindHomeDirectory,
}

/// Where the schema of a project lies.
#[derive(Debug, PartialEq)]
pub enum SchemaLocation {
    /// the path of `grafbase/grafbase.config.ts` in the project
    TsConfig(FilePath),
    /// the path of `grafbase/schema.graphql` in the project
    Graphql(FilePath),
}

impl SchemaLocation {
    /// The path of the schema file, whichever kind it is.
    pub open spec fn file(&self) -> FilePath {
        match self {
            SchemaLocation::TsConfig(path) => *path,
            SchemaLocation::Graphql(path) => *path,
        }
    }
}

/// Points to the schema file of a project.
#[derive(Debug, PartialEq)]
pub struct GrafbaseSchemaPath {
    location: SchemaLocation,
}

impl GrafbaseSchemaPath {
    /// The location that this value points to.
    pub closed spec fn place(&self) -> SchemaLocation {
        self.location
    }

    /// The location of the schema file.
    #[must_use]
    pub fn location(&self) -> (location: &SchemaLocation)
        ensures
            *location == self.place(),
    {
        &self.location
    }

    /// Points to a TypeScript configuration.
    pub fn ts_config(path: FilePath) -> (schema: Self)
        ensures
            schema.place() == SchemaLocation::TsConfig(path),
    {
        Self { location: SchemaLocation::TsConfig(path) }
    }

    /// Points to a GraphQL schema.
    pub fn graphql(path: FilePath) -> (schema: Self)
        ensures
            schema.place() == SchemaLocation::Graphql(path),
    {
        Self { location: SchemaLocation::Graphql(path) }
    }

    /// The directory that holds the schema file, if the file's path has
    /// one.
    pub fn parent(&self) -> (directory: Option<FilePath>)
        ensures
            self.place().file().parts().len() == 0 ==> directory is None,
            self.place().file().parts().len() > 0 ==> directory is Some
                && directory.unwrap().absolute == self.place().file().absolute
                && directory.unwrap().parts() == self.place().file().parts().drop_last(),
    {
        match self.location() {
            SchemaLocation::TsConfig(path) => path.parent(),
            SchemaLocation::Graphql(path) => path.parent(),
        }
    }
}

/// Something the user should know about the environment found.
#[derive(Debug, PartialEq)]
pub struct Warning {
    message: String,
    hint: Option<String>,
}

impl Warning {
    /// What the warning says.
    pub closed spec fn text(&self) -> Seq<char> {
        self.message@
    }

    /// What the warning advises, if anything.
    pub closed spec fn advice(&self) -> Option<Seq<char>> {
        match self.hint {
            Some(hint) => Some(hint@),
            None => None,
        }
    }

    /// A warning without a hint.
    pub fn new(message: &str) -> (warning: Self)
        ensures
            warning.text() == message@,
            warning.advice() is None,
    {
        Self { message: String::from_str(message), hint: None }
    }

    /// The same warning with `message` as its hint, in place of any
    /// earlier one.
    #[must_use]
    pub fn with_hint(self, message: &str) -> (warning: Self)
        ensures
            warning.text() == self.text(),
            warning.advice() == Some(message@),
    {
        Self { message: self.message, hint: Some(String::from_str(message)) }
    }

    /// The text of the warning.
    #[must_use]
    pub fn message(&self) -> (message: &str)
        ensures
            message@ == self.text(),
    {
        self.message.as_str()
    }

    /// The hint of the warning, if it has one.
    #[must_use]
    pub fn hint(&self) -> (hint: Option<&str>)
        ensures
            match hint {
                Some(hint) => self.advice() == Some(hint@),
                None => self.advice() is None,
            },
    {
        match &self.hint {
            Some(hint) => Some(hint.as_str()),
            None => None,
        }
    }
}

/// What was found in one directory that may hold a project's schema.
#[derive(Debug, PartialEq)]
pub struct Probe {
    /// the directory looked into
    pub directory: FilePath,
    /// whether it holds a file `grafbase.config.ts`
    pub ts_config: bool,
    /// whether it holds a file `schema.graphql`
    pub graphql: bool,
}

impl Probe {
    /// Whether the directory holds a schema of either kind.
    pub open spec fn found(&self) -> bool {
        self.ts_config || self.graphql
    }
}

/// The name of the TypeScript configuration file.
pub open spec fn ts_config_name() -> Seq<char> {
    "grafbase.config.ts"@
}

/// The name of the GraphQL schema file.
pub open spec fn graphql_name() -> Seq<char> {
    "schema.graphql"@
}

/// The name of the directory that holds a project's schema.
pub open spec fn grafbase_name() -> Seq<char> {
    "grafbase"@
}

/// Whether `schema` is the schema that a directory with the given files
/// holds: the TypeScript configuration if there is one, else the GraphQL
/// schema.
pub open spec fn schema_in(
    schema: Option<GrafbaseSchemaPath>,
    directory: &FilePath,
    ts_config: bool,
    graphql: bool,
) -> bool {
    if ts_config {
        &&& schema is Some
        &&& schema.unwrap().place() is TsConfig
        &&& schema.unwrap().place().file().absolute == directory.absolute
        &&& schema.unwrap().place().file().parts() == directory.parts().push(ts_config_name())
    } else if graphql {
        &&& schema is Some
        &&& schema.unwrap().place() is Graphql
        &&& schema.unwrap().place().file().absolute == directory.absolute
        &&& schema.unwrap().place().file().parts() == directory.parts().push(graphql_name())
    } else {
        schema is None
    }
}

/// Whether `warning` tells of a directory that holds both kinds of
/// schema.
pub open spec fn warns_of_both(warning: &Warning) -> bool {
    &&& warning.text() == "Found both grafbase.config.ts and schema.graphql files"@
    &&& warning.advice() == Some("Delete one of them to avoid conflicts"@)
}

/// Whether `after` is `before` with one warning more, which tells of a
/// directory that holds both kinds of schema.
pub open spec fn warned_of_both(before: Seq<Warning>, after: Seq<Warning>) -> bool {
    &&& after.len() == before.len() + 1
    &&& after.subrange(0, before.len() as int) == before
    &&& warns_of_both(&after.last())
}

/// Picks the schema of a directory from what the directory holds. A
/// directory with both kinds of schema gives the TypeScript configuration
/// and a warning.
pub fn find_grafbase_configuration(
    path: &FilePath,
    ts_config_is_file: bool,
    graphql_is_file: bool,
    warnings: &mut Vec<Warning>,
) -> (schema: Option<GrafbaseSchemaPath>)
    ensures
        schema_in(schema, path, ts_config_is_file, graphql_is_file),
        if ts_config_is_file && graphql_is_file {
            warned_of_both(old(warnings)@, final(warnings)@)
        } else {
            final(warnings)@ == old(warnings)@
        },
{
    if ts_config_is_file && graphql_is_file {
        let warning = Warning::new("Found both grafbase.config.ts and schema.graphql files").with_hint(
            "Delete one of them to avoid conflicts",
        );
        let ghost before = warnings@;
        warnings.push(warning);
        assert(warnings@.subrange(0, before.len() as int) =~= before);
        Some(GrafbaseSchemaPath::ts_config(path.join("grafbase.config.ts")))
    } else if ts_config_is_file {
        Some(GrafbaseSchemaPath::ts_config(path.join("grafbase.config.ts")))
    } else if graphql_is_file {
        Some(GrafbaseSchemaPath::graphql(path.join("schema.graphql")))
    } else {
        None
    }
}

/// The directories that may hold the schema of the project that the
/// directory with the given components lies in, nearest first, from the
/// ancestor of `depth` components upwards. Each ancestor offers its
/// directory `grafbase`; an ancestor whose path begins with a component
/// `grafbase` offers itself before that.
pub open spec fn candidates_from(absolute: bool, parts: Seq<Seq<char>>, depth: int) -> Seq<Seq<Seq<char>>>
    decreases depth + 1,
{
    if depth < 0 {
        Seq::empty()
    } else {
        let ancestor = parts.subrange(0, depth);
        let below = seq![ancestor.push(grafbase_name())] + candidates_from(absolute, parts, depth - 1);
        if !absolute && depth > 0 && parts[0] == grafbase_name() {
            seq![ancestor] + below
        } else {
            below
        }
    }
}

/// The component lists of a list of paths.
pub open spec fn listed(directories: Seq<FilePath>) -> Seq<Seq<Seq<char>>> {
    Seq::new(directories.len(), |i: int| directories[i].parts())
}

/// Whether `directories` are the candidates of the path `start`.
pub open spec fn are_candidates(directories: Seq<FilePath>, start: &FilePath) -> bool {
    &&& listed(directories) == candidates_from(start.absolute, start.parts(), start.parts().len() as int)
    &&& forall|i: int| 0 <= i < directories.len() ==> (#[trigger] directories[i]).absolute == start.absolute
}

/// Every candidate has a last component.
proof fn candidates_have_names(absolute: bool, parts: Seq<Seq<char>>, depth: int, i: int)
    requires
        depth <= parts.len(),
        0 <= i < candidates_from(absolute, parts, depth).len(),
    ensures
        candidates_from(absolute, parts, depth)[i].len() > 0,
    decreases depth + 1,
{
    if depth >= 0 {
        let own = !absolute && depth > 0 && parts[0] == grafbase_name();
        let skip: int = if own {
            2
        } else {
            1
        };
        if i >= skip {
            candidates_have_names(absolute, parts, depth - 1, i - skip);
        }
    }
}

/// Every candidate of a path can be looked into for a project: it has a
/// last component, so the directory above it is known.
pub proof fn candidates_can_be_probed(directories: Seq<FilePath>, start: &FilePath)
    requires
        are_candidates(directories, start),
    ensures
        forall|i: int| 0 <= i < directories.len() ==> (#[trigger] directories[i]).parts().len() > 0,
{
    assert forall|i: int| 0 <= i < directories.len() implies (#[trigger] directories[i]).parts().len() > 0 by {
        assert(listed(directories)[i] == directories[i].parts());
        candidates_have_names(start.absolute, start.parts(), start.parts().len() as int, i);
    }
}

/// Lists the directories to look into for the schema of the project that
/// the current directory lies in, nearest first. Without a current
/// directory there is nothing to list.
pub fn candidate_directories(current: Option<&FilePath>) -> (result: Result<Vec<FilePath>, CommonError>)
    ensures
        match result {
            Ok(directories) => current is Some && are_candidates(directories@, current.unwrap()),
            Err(error) => current is None && error == CommonError::ReadCurrentDirectory,
        },
{
    let start = match current {
        Some(start) => start,
        None => {
            return Err(CommonError::ReadCurrentDirectory);
        },
    };
    let n = start.depth();
    let own = start.starts_with_name("grafbase");
    let ghost wanted = candidates_from(start.absolute, start.parts(), n as int);
    let mut directories: Vec<FilePath> = Vec::new();
    let mut depth: usize = n;
    let mut done = false;
    let ghost mut level: int = n as int;
    assert(listed(directories@) + candidates_from(start.absolute, start.parts(), level) =~= wanted);
    while !done
        invariant
            depth <= n,
            n == start.parts().len(),
            level == if done {
                -1
            } else {
                depth as int
            },
            own == (!start.absolute && n > 0 && start.parts()[0] == grafbase_name()),
            listed(directories@) + candidates_from(start.absolute, start.parts(), level) == wanted,
            forall|i: int|
                0 <= i < directories@.len() ==> (#[trigger] directories@[i]).absolute == start.absolute,
        decreases level + 1,
    {
        let ghost before = listed(directories@);
        let ghost below = candidates_from(start.absolute, start.parts(), level - 1);
        let ancestor = start.truncated(depth);
        if own && depth > 0 {
            directories.push(ancestor.duplicate());
        }
        directories.push(ancestor.join("grafbase"));
        proof {
            let here = candidates_from(start.absolute, start.parts(), level);
            if own && depth > 0 {
                assert(here =~= seq![ancestor.parts()] + (seq![ancestor.parts().push(grafbase_name())]
                    + below));
                assert(listed(directories@) =~= before + seq![ancestor.parts()] + seq![
                    ancestor.parts().push(grafbase_name()),
                ]);
            } else {
                assert(here =~= seq![ancestor.parts().push(grafbase_name())] + below);
                assert(listed(directories@) =~= before + seq![ancestor.parts().push(grafbase_name())]);
            }
            assert(listed(directories@) + below =~= before + here);
            level = level - 1;
        }
        if depth == 0 {
            done = true;
        } else {
            depth = depth - 1;
        }
    }
    assert(listed(directories@) + Seq::<Seq<Seq<char>>>::empty() =~= listed(directories@));
    Ok(directories)
}

/// The position of the first probe that found a schema, or the number of
/// probes if none did.
pub open spec fn first_found(probes: Seq<Probe>) -> int
    decreases probes.len(),
{
    if probes.len() == 0 {
        0
    } else if probes[0].found() {
        0
    } else {
        1 + first_found(probes.drop_first())
    }
}

/// Picks the schema of the nearest directory that holds one, from what
/// was found in each candidate, nearest first. No warning is given for a
/// directory that was passed over or never reached.
pub fn get_project_grafbase_path(probes: &Vec<Probe>, warnings: &mut Vec<Warning>) -> (schema: Option<
    GrafbaseSchemaPath,
>)
    ensures
        first_found(probes@) >= probes@.len() ==> schema is None && final(warnings)@ == old(warnings)@,
        first_found(probes@) < probes@.len() ==> {
            let probe = probes@[first_found(probes@)];
            &&& schema is Some
            &&& schema_in(schema, &probe.directory, probe.ts_config, probe.graphql)
            &&& if probe.ts_config && probe.graphql {
                warned_of_both(old(warnings)@, final(warnings)@)
            } else {
                final(warnings)@ == old(warnings)@
            }
        },
{
    let mut i: usize = 0;
    assert(probes@.subrange(0, probes@.len() as int) =~= probes@);
    while i < probes.len()
        invariant
            i <= probes@.len(),
            warnings@ == old(warnings)@,
            first_found(probes@) == i + first_found(probes@.subrange(i as int, probes@.len() as int)),
        decreases probes@.len() - i,
    {
        let ghost rest = probes@.subrange(i as int, probes@.len() as int);
        assert(rest[0] == probes@[i as int]);
        assert(rest.drop_first() =~= probes@.subrange(i + 1, probes@.len() as int));
        let probe = &probes[i];
        if probe.ts_config || probe.graphql {
            return find_grafbase_configuration(&probe.directory, probe.ts_config, probe.graphql, warnings);
        }
        i = i + 1;
    }
    None
}

/// The paths of a project, all of which follow from where its schema
/// lies.
#[derive(Debug, PartialEq)]
pub struct Project {
    /// the root of the project: the directory that holds `grafbase`
    pub path: FilePath,
    /// the schema of the project
    pub schema_path: GrafbaseSchemaPath,
    /// `.grafbase` in the root: the cache and database directory
    pub dot_grafbase_directory_path: FilePath,
    /// `grafbase` in the root: the directory of the schema
    pub grafbase_directory_path: FilePath,
    /// `.grafbase/registry.json`: the registry derived from the schema
    pub registry_path: FilePath,
    /// `grafbase/resolvers`: the sources of the resolvers
    pub resolvers_source_path: FilePath,
    /// `.grafbase/resolvers`: what was built from them
    pub resolvers_build_artifact_path: FilePath,
    /// `.grafbase/data`: the directory of the database
    pub database_directory_path: FilePath,
}

/// Whether `path` is the directory or file called `name` in the directory
/// with the components `directory`.
pub open spec fn lies_in(path: &FilePath, absolute: bool, directory: Seq<Seq<char>>, name: Seq<char>) -> bool {
    path.absolute == absolute && path.parts() == directory.push(name)
}

impl Project {
    /// Whether the paths of the project are those of the project whose
    /// schema directory is `directory`.
    pub open spec fn stands_in(&self, directory: &FilePath) -> bool {
        let absolute = directory.absolute;
        let root = directory.parts().drop_last();
        let dot = root.push(".grafbase"@);
        &&& self.grafbase_directory_path.absolute == absolute
        &&& self.grafbase_directory_path.parts() == directory.parts()
        &&& self.path.absolute == absolute
        &&& self.path.parts() == root
        &&& lies_in(&self.dot_grafbase_directory_path, absolute, root, ".grafbase"@)
        &&& lies_in(&self.registry_path, absolute, dot, "registry.json"@)
        &&& lies_in(&self.resolvers_source_path, absolute, directory.parts(), "resolvers"@)
        &&& lies_in(&self.resolvers_build_artifact_path, absolute, dot, "resolvers"@)
        &&& lies_in(&self.database_directory_path, absolute, dot, "data"@)
    }

    /// Works out the paths of the project from what was found in the
    /// candidate directories, nearest first. The project is the one of
    /// the nearest directory that holds a schema.
    pub fn try_init(probes: &Vec<Probe>, warnings: &mut Vec<Warning>) -> (result: Result<Self, CommonError>)
        requires
            forall|i: int| 0 <= i < probes@.len() ==> (#[trigger] probes@[i]).directory.parts().len() > 0,
        ensures
            match result {
                Ok(project) => {
                    let probe = probes@[first_found(probes@)];
                    &&& first_found(probes@) < probes@.len()
                    &&& schema_in(Some(project.schema_path), &probe.directory, probe.ts_config, probe.graphql)
                    &&& project.stands_in(&probe.directory)
                    &&& if probe.ts_config && probe.graphql {
                        warned_of_both(old(warnings)@, final(warnings)@)
                    } else {
                        final(warnings)@ == old(warnings)@
                    }
                },
                Err(error) => {
                    &&& error == CommonError::FindGrafbaseDirectory
                    &&& first_found(probes@) >= probes@.len()
                    &&& final(warnings)@ == old(warnings)@
                },
            },
    {
        let schema_path = match get_project_grafbase_path(probes, warnings) {
            Some(schema_path) => schema_path,
            None => {
                return Err(CommonError::FindGrafbaseDirectory);
            },
        };
        proof {
            first_found_is_found(probes@);
        }
        let ghost directory = probes@[first_found(probes@)].directory;
        let grafbase_directory_path = match schema_path.parent() {
            Some(directory) => directory,
            None => {
                return Err(CommonError::FindGrafbaseDirectory);
            },
        };
        assert(grafbase_directory_path.parts() =~= directory.parts());
        let path = match grafbase_directory_path.parent() {
            Some(path) => path,
            None => {
                return Err(CommonError::FindGrafbaseDirectory);
            },
        };
        let dot_grafbase_directory_path = path.join(".grafbase");
        let registry_path = dot_grafbase_directory_path.join("registry.json");
        let resolvers_source_path = grafbase_directory_path.join("resolvers");
        let resolvers_build_artifact_path = dot_grafbase_directory_path.join("resolvers");
        let database_directory_path = dot_grafbase_directory_path.join("data");
        Ok(
            Project {
                path,
                schema_path,
                dot_grafbase_directory_path,
                grafbase_directory_path,
                registry_path,
                resolvers_source_path,
                resolvers_build_artifact_path,
                database_directory_path,
            },
        )
    }

    /// The project of an environment that was set up with one.
    #[must_use]
    pub fn get(cell: &EnvironmentCell) -> (project: &Project)
        requires
            cell.slot is Some,
            cell.slot.unwrap().project is Some,
        ensures
            *project == cell.slot.unwrap().project.unwrap(),
    {
        Environment::get(cell).project.as_ref().unwrap()
    }
}

/// The first probe that found something is one of the probes, and found
/// something.
pub proof fn first_found_is_found(probes: Seq<Probe>)
    ensures
        0 <= first_found(probes) <= probes.len(),
        first_found(probes) < probes.len() ==> probes[first_found(probes)].found(),
        forall|i: int| 0 <= i < first_found(probes) ==> !(#[trigger] probes[i]).found(),
    decreases probes.len(),
{
    if probes.len() > 0 && !probes[0].found() {
        let rest = probes.drop_first();
        first_found_is_found(rest);
        assert forall|i: int| 0 <= i < first_found(probes) implies !(#[trigger] probes[i]).found() by {
            if i > 0 {
                assert(rest[i - 1] == probes[i]);
            }
        }
    }
}

/// The environment of one run: the user's own directory, and the project
/// if the run is about one.
#[derive(Debug, PartialEq)]
pub struct Environment {
    /// the project, if the environment was set up with one
    pub project: Option<Project>,
    /// `.grafbase` in the user's home: the user's cache directory
    pub user_dot_grafbase_path: FilePath,
    /// what was noticed while the environment was worked out
    pub warnings: Vec<Warning>,
    /// where the worker runtime is installed in the user's cache
    pub wrangler_installation_path: FilePath,
}

/// The place that holds the environment of the run, once it is set up.
#[derive(Debug, PartialEq)]
pub struct EnvironmentCell {
    pub slot: Option<Environment>,
}

impl EnvironmentCell {
    /// A place that holds no environment yet.
    pub fn new() -> (cell: Self)
        ensures
            cell.slot is None,
    {
        EnvironmentCell { slot: None }
    }
}

/// Whether `path` is the directory `.grafbase` in `home`.
pub open spec fn dot_grafbase_in(path: &FilePath, home: &FilePath) -> bool {
    lies_in(path, home.absolute, home.parts(), ".grafbase"@)
}

/// Asks `dirs::home_dir` for the home directory of the user and writes
/// the path as text. Nothing is claimed of the answer: it depends on the
/// machine and on the user.
#[verifier::external_body]
fn home_directory() -> (home: Option<String>) {
    dirs::home_dir().map(|home| home.to_string_lossy().into_owned())
}

/// The user's cache directory in the user's home directory, if the user
/// has one.
#[must_use]
pub fn get_default_user_dot_grafbase_path() -> (path: Option<FilePath>)
    ensures
        path is Some ==> path.unwrap().parts().len() > 0 && path.unwrap().parts().last() == ".grafbase"@,
        path is Some ==> exists|home: Seq<char>| #[trigger] dot_grafbase_in_home(&path.unwrap(), home),
{
    let home = home_directory();
    match &home {
        Some(home) => default_user_dot_grafbase_path_in(Some(home.as_str())),
        None => default_user_dot_grafbase_path_in(None),
    }
}

/// Whether `path` is the directory `.grafbase` in the home directory
/// whose path is written as `home`.
pub open spec fn dot_grafbase_in_home(path: &FilePath, home: Seq<char>) -> bool {
    lies_in(path, home.len() > 0 && home[0] == SEPARATOR, pieces(home, 0, 0), ".grafbase"@)
}

/// The user's cache directory for a given answer to the question where
/// the user's home directory is: the directory `.grafbase` in that home,
/// and none for a user without a home.
pub fn default_user_dot_grafbase_path_in(home: Option<&str>) -> (path: Option<FilePath>)
    ensures
        match home {
            Some(home) => path is Some && dot_grafbase_in_home(&path.unwrap(), home@),
            None => path is None,
        },
{
    match home {
        Some(home) => Some(FilePath::from_text(home).join(".grafbase")),
        None => None,
    }
}

/// Picks the user's cache directory: in the directory asked for, else in
/// the one that the process environment names, else the default.
pub fn select_user_dot_grafbase_path(
    home_override: Option<FilePath>,
    environment_home: Option<FilePath>,
    default_path: Option<FilePath>,
) -> (path: Option<FilePath>)
    ensures
        match (home_override, environment_home) {
            (Some(home), _) => path is Some && dot_grafbase_in(&path.unwrap(), &home),
            (None, Some(home)) => path is Some && dot_grafbase_in(&path.unwrap(), &home),
            (None, None) => path == default_path,
        },
{
    match home_override {
        Some(home) => Some(home.join(".grafbase")),
        None => match environment_home {
            Some(home) => Some(home.join(".grafbase")),
            None => default_path,
        },
    }
}

/// The user's cache directory: in the directory asked for, else in the
/// one that the process environment names, else in the user's home
/// directory. The home directory is looked up only when neither of the
/// others is given.
pub fn get_user_dot_grafbase_path(home_override: Option<FilePath>, environment_home: Option<FilePath>) -> (path:
    Option<FilePath>)
    ensures
        match (home_override, environment_home) {
            (Some(home), _) => path is Some && dot_grafbase_in(&path.unwrap(), &home),
            (None, Some(home)) => path is Some && dot_grafbase_in(&path.unwrap(), &home),
            (None, None) => path is Some ==> path.unwrap().parts().len() > 0
                && path.unwrap().parts().last() == ".grafbase"@ && exists|home: Seq<char>| #[trigger]
                dot_grafbase_in_home(&path.unwrap(), home),
        },
{
    let default_path = if home_override.is_none() && environment_home.is_none() {
        get_default_user_dot_grafbase_path()
    } else {
        None
    };
    select_user_dot_grafbase_path(home_override, environment_home, default_path)
}

/// Whether the user's cache directory of `environment` is the one that
/// the given homes call for, as far as they call for one.
pub open spec fn honours(
    environment: &Environment,
    home_override: Option<FilePath>,
    environment_home: Option<FilePath>,
) -> bool {
    &&& match (home_override, environment_home) {
        (Some(home), _) => dot_grafbase_in(&environment.user_dot_grafbase_path, &home),
        (None, Some(home)) => dot_grafbase_in(&environment.user_dot_grafbase_path, &home),
        (None, None) => environment.user_dot_grafbase_path.parts().len() > 0
            && environment.user_dot_grafbase_path.parts().last() == ".grafbase"@ && exists|home: Seq<char>| #[trigger]
            dot_grafbase_in_home(&environment.user_dot_grafbase_path, home),
    }
    &&& lies_in(
        &environment.wrangler_installation_path,
        environment.user_dot_grafbase_path.absolute,
        environment.user_dot_grafbase_path.parts(),
        "wrangler"@,
    )
}

impl Environment {
    /// Sets up the environment of a run inside a project. The user's
    /// cache directory is settled first; without one, nothing is looked
    /// for and no warning is given.
    pub fn try_init_with_project(
        cell: &mut EnvironmentCell,
        home_override: Option<FilePath>,
        environment_home: Option<FilePath>,
        probes: &Vec<Probe>,
    ) -> (result: Result<(), CommonError>)
        requires
            old(cell).slot is None,
            forall|i: int| 0 <= i < probes@.len() ==> (#[trigger] probes@[i]).directory.parts().len() > 0,
        ensures
            match result {
                Ok(_) => {
                    let probe = probes@[first_found(probes@)];
                    &&& final(cell).slot is Some
                    &&& honours(&final(cell).slot.unwrap(), home_override, environment_home)
                    &&& first_found(probes@) < probes@.len()
                    &&& final(cell).slot.unwrap().project is Some
                    &&& final(cell).slot.unwrap().project.unwrap().stands_in(&probe.directory)
                    &&& schema_in(
                        Some(final(cell).slot.unwrap().project.unwrap().schema_path),
                        &probe.directory,
                        probe.ts_config,
                        probe.graphql,
                    )
                    &&& if probe.ts_config && probe.graphql {
                        warned_of_both(Seq::empty(), final(cell).slot.unwrap().warnings@)
                    } else {
                        final(cell).slot.unwrap().warnings@.len() == 0
                    }
                },
                Err(error) => {
                    &&& final(cell).slot is None
                    &&& error == CommonError::FindHomeDirectory || error
                        == CommonError::FindGrafbaseDirectory
                    &&& error == CommonError::FindHomeDirectory ==> home_override is None
                        && environment_home is None
                    &&& error == CommonError::FindGrafbaseDirectory ==> first_found(probes@)
                        >= probes@.len()
                },
            },
            (home_override is Some || environment_home is Some) && first_found(probes@) < probes@.len()
                ==> result is Ok,
    {
        let user_dot_grafbase_path = get_user_dot_grafbase_path(home_override, environment_home);
        Self::install_with_project(cell, user_dot_grafbase_path, probes)
    }

    /// Sets up the environment of a run inside a project, given the
    /// user's cache directory as it was settled. Without a cache directory
    /// the set-up fails before any project is looked for; with one, it
    /// succeeds exactly if a candidate directory holds a schema. A set-up
    /// that fails leaves the cell empty.
    pub fn install_with_project(
        cell: &mut EnvironmentCell,
        user_dot_grafbase_path: Option<FilePath>,
        probes: &Vec<Probe>,
    ) -> (result: Result<(), CommonError>)
        requires
            old(cell).slot is None,
            forall|i: int| 0 <= i < probes@.len() ==> (#[trigger] probes@[i]).directory.parts().len() > 0,
        ensures
            match user_dot_grafbase_path {
                None => {
                    &&& result == Err::<(), CommonError>(CommonError::FindHomeDirectory)
                    &&& final(cell).slot is None
                },
                Some(path) => if first_found(probes@) < probes@.len() {
                    let probe = probes@[first_found(probes@)];
                    &&& result is Ok
                    &&& final(cell).slot is Some
                    &&& final(cell).slot.unwrap().user_dot_grafbase_path == path
                    &&& lies_in(
                        &final(cell).slot.unwrap().wrangler_installation_path,
                        path.absolute,
                        path.parts(),
                        "wrangler"@,
                    )
                    &&& final(cell).slot.unwrap().project is Some
                    &&& final(cell).slot.unwrap().project.unwrap().stands_in(&probe.directory)
                    &&& schema_in(
                        Some(final(cell).slot.unwrap().project.unwrap().schema_path),
                        &probe.directory,
                        probe.ts_config,
                        probe.graphql,
                    )
                    &&& if probe.ts_config && probe.graphql {
                        warned_of_both(Seq::empty(), final(cell).slot.unwrap().warnings@)
                    } else {
                        final(cell).slot.unwrap().warnings@.len() == 0
                    }
                } else {
                    &&& result == Err::<(), CommonError>(CommonError::FindGrafbaseDirectory)
                    &&& final(cell).slot is None
                },
            },
    {
        let mut warnings: Vec<Warning> = Vec::new();
        let user_dot_grafbase_path = match user_dot_grafbase_path {
            Some(path) => path,
            None => {
                return Err(CommonError::FindHomeDirectory);
            },
        };
        let wrangler_installation_path = user_dot_grafbase_path.join("wrangler");
        let project = match Project::try_init(probes, &mut warnings) {
            Ok(project) => project,
            Err(error) => {
                return Err(error);
            },
        };
        cell.slot = Some(
            Environment { project: Some(project), user_dot_grafbase_path, warnings, wrangler_installation_path },
        );
        Ok(())
    }

    /// Sets up the environment of a run outside any project.
    pub fn try_init(
        cell: &mut EnvironmentCell,
        home_override: Option<FilePath>,
        environment_home: Option<FilePath>,
    ) -> (result: Result<(), CommonError>)
        requires
            old(cell).slot is None,
        ensures
            match result {
                Ok(_) => {
                    &&& final(cell).slot is Some
                    &&& honours(&final(cell).slot.unwrap(), home_override, environment_home)
                    &&& final(cell).slot.unwrap().project is None
                    &&& final(cell).slot.unwrap().warnings@.len() == 0
                },
                Err(error) => {
                    &&& final(cell).slot is None
                    &&& error == CommonError::FindHomeDirectory
                    &&& home_override is None
                    &&& environment_home is None
                },
            },
            home_override is Some || environment_home is Some ==> result is Ok,
    {
        let user_dot_grafbase_path = get_user_dot_grafbase_path(home_override, environment_home);
        Self::install(cell, user_dot_grafbase_path)
    }

    /// Sets up the environment of a run outside any project, given the
    /// user's cache directory as it was settled: the set-up succeeds
    /// exactly if there is one, and fails with an empty cell otherwise.
    pub fn install(cell: &mut EnvironmentCell, user_dot_grafbase_path: Option<FilePath>) -> (result: Result<
        (),
        CommonError,
    >)
        requires
            old(cell).slot is None,
        ensures
            match user_dot_grafbase_path {
                None => {
                    &&& result == Err::<(), CommonError>(CommonError::FindHomeDirectory)
                    &&& final(cell).slot is None
                },
                Some(path) => {
                    &&& result is Ok
                    &&& final(cell).slot is Some
                    &&& final(cell).slot.unwrap().user_dot_grafbase_path == path
                    &&& lies_in(
                        &final(cell).slot.unwrap().wrangler_installation_path,
                        path.absolute,
                        path.parts(),
                        "wrangler"@,
                    )
                    &&& final(cell).slot.unwrap().project is None
                    &&& final(cell).slot.unwrap().warnings@.len() == 0
                },
            },
    {
        let user_dot_grafbase_path = match user_dot_grafbase_path {
            Some(path) => path,
            None => {
                return Err(CommonError::FindHomeDirectory);
            },
        };
        let wrangler_installation_path = user_dot_grafbase_path.join("wrangler");
        cell.slot = Some(
            Environment {
                project: None,
                user_dot_grafbase_path,
                warnings: Vec::new(),
                wrangler_installation_path,
            },
        );
        Ok(())
    }

    /// The environment of the run, once it is set up.
    #[must_use]
    pub fn get(cell: &EnvironmentCell) -> (environment: &Self)
        requires
            cell.slot is Some,
        ensures
            *environment == cell.slot.unwrap(),
    {
        cell.slot.as_ref().unwrap()
    }
}

} // verus!
