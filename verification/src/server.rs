//! The run of the bridge from its start to its end: the place of the
//! store, and the order of the work that must succeed before requests are
//! served.

use crate::environment::Project;
use crate::paths::{lies_in_directory, FilePath};
use vstd::prelude::*;

verus! {

/// Why the bridge did not come up, or went down.
#[derive(Debug, PartialEq)]
pub enum ServerError {
    /// the directory of the store could not be created
    CreateDatabaseDir(String),
    /// it cannot be told whether the directory of the store exists
    ReadDatabaseDir(String),
    /// the path of the store's file cannot be written as text
    ProjectPath,
    /// the store refused to be created, opened or prepared
    Database(String),
    /// the server failed while it served
    Server(String),
}

/// The name of the store's file in its directory.
pub open spec fn database_file() -> Seq<char> {
    "data.sqlite"@
}

/// What the address of a store begins with.
pub open spec fn url_prefix() -> Seq<char> {
    "sqlite://"@
}

/// The place of the store's file: in the database directory of the
/// project.
pub fn database_file_path(project: &Project) -> (file: FilePath)
    ensures
        lies_in_directory(&file, &project.database_directory_path, database_file()),
{
    project.database_directory_path.join("data.sqlite")
}

/// Writes the address of a store from the path of its file as the
/// file system writes it: the prefix, then that text. A path that cannot
/// be written as text has no address.
pub fn database_url(file: Option<&str>) -> (result: Result<String, ServerError>)
    ensures
        match file {
            Some(file) => result is Ok && result->Ok_0@ == url_prefix() + file@,
            None => result == Err::<String, ServerError>(ServerError::ProjectPath),
        },
{
    match file {
        Some(file) => Ok(String::from_str("sqlite://").concat(file)),
        None => Err(ServerError::ProjectPath),
    }
}

/// The work that the bridge waits on, from its start to its end.
#[derive(Debug, Clone, Copy, PartialEq, Eq, Structural)]
pub enum Startup {
    CheckingDirectory,
    CreatingDirectory,
    CheckingDatabase,
    CreatingDatabase,
    Connecting,
    Preparing,
    Serving,
    /// the server has shut down in good order
    Stopped,
    Failed,
}

/// What came of a piece of that work.
#[derive(Debug, PartialEq)]
pub enum Observation {
    /// what was looked for is there, or is not
    Found(bool),
    /// the work was done
    Done,
    /// the work failed, with this message
    Failed(String),
}

/// What to do next.
#[derive(Debug, PartialEq)]
pub enum Task {
    /// look whether the directory of the store exists
    CheckDirectory,
    /// create the directory of the store, and those above it
    CreateDirectory,
    /// look whether the store exists
    CheckDatabase,
    /// create the store
    CreateDatabase,
    /// open the connection pool
    Connect,
    /// run the statements that prepare the store
    Prepare,
    /// bind the endpoints, announce readiness, and serve until the server
    /// shuts down
    Serve,
    /// close the connection pool and hand control back
    Close,
    /// give up with this error
    GiveUp(ServerError),
    /// nothing: the bridge has stopped, or has given up
    Nothing,
}

impl Startup {
    /// How far the bridge has come.
    pub open spec fn rank(&self) -> int {
        match self {
            Startup::CheckingDirectory => 0,
            Startup::CreatingDirectory => 1,
            Startup::CheckingDatabase => 2,
            Startup::CreatingDatabase => 3,
            Startup::Connecting => 4,
            Startup::Preparing => 5,
            Startup::Serving => 6,
            Startup::Stopped => 7,
            Startup::Failed => 7,
        }
    }

    /// Whether nothing follows.
    pub open spec fn settled(&self) -> bool {
        self is Stopped || self is Failed
    }

    /// The error that a failure of the work at hand becomes.
    pub open spec fn failure(&self, message: String) -> ServerError {
        match self {
            Startup::CheckingDirectory => ServerError::ReadDatabaseDir(message),
            Startup::CreatingDirectory => ServerError::CreateDatabaseDir(message),
            Startup::Serving => ServerError::Server(message),
            _ => ServerError::Database(message),
        }
    }

    /// What follows the work at hand when it did not fail: a check that
    /// found nothing is followed by the creation of what was missing,
    /// anything else by the next piece of work.
    pub open spec fn onward(&self, missing: bool) -> (Startup, Task) {
        match self {
            Startup::CheckingDirectory => if missing {
                (Startup::CreatingDirectory, Task::CreateDirectory)
            } else {
                (Startup::CheckingDatabase, Task::CheckDatabase)
            },
            Startup::CreatingDirectory => (Startup::CheckingDatabase, Task::CheckDatabase),
            Startup::CheckingDatabase => if missing {
                (Startup::CreatingDatabase, Task::CreateDatabase)
            } else {
                (Startup::Connecting, Task::Connect)
            },
            Startup::CreatingDatabase => (Startup::Connecting, Task::Connect),
            Startup::Connecting => (Startup::Preparing, Task::Prepare),
            Startup::Preparing => (Startup::Serving, Task::Serve),
            Startup::Serving => (Startup::Stopped, Task::Close),
            Startup::Stopped => (Startup::Stopped, Task::Nothing),
            Startup::Failed => (Startup::Failed, Task::Nothing),
        }
    }

    /// What follows the work at hand, given what came of it.
    pub open spec fn after(&self, observation: Observation) -> (Startup, Task) {
        if self.settled() {
            (*self, Task::Nothing)
        } else {
            match observation {
                Observation::Failed(message) => (Startup::Failed, Task::GiveUp(self.failure(message))),
                Observation::Found(found) => self.onward(!found),
                Observation::Done => self.onward(false),
            }
        }
    }

    /// Decides what follows the work at hand. The first failure ends the
    /// run; the bridge serves only after the directory and the store are
    /// there, the pool is open and the store is prepared, and it closes
    /// the pool only after the server has shut down in good order.
    pub fn advance(self, observation: Observation) -> (next: (Startup, Task))
        ensures
            next == self.after(observation),
            !self.settled() ==> next.0.rank() > self.rank(),
    {
        match self {
            Startup::Stopped => {
                return (Startup::Stopped, Task::Nothing);
            },
            Startup::Failed => {
                return (Startup::Failed, Task::Nothing);
            },
            _ => {},
        }
        let missing = match observation {
            Observation::Failed(message) => {
                let error = match self {
                    Startup::CheckingDirectory => ServerError::ReadDatabaseDir(message),
                    Startup::CreatingDirectory => ServerError::CreateDatabaseDir(message),
                    Startup::Serving => ServerError::Server(message),
                    _ => ServerError::Database(message),
                };
                return (Startup::Failed, Task::GiveUp(error));
            },
            Observation::Found(found) => !found,
            Observation::Done => false,
        };
        match self {
            Startup::CheckingDirectory => if missing {
                (Startup::CreatingDirectory, Task::CreateDirectory)
            } else {
                (Startup::CheckingDatabase, Task::CheckDatabase)
            },
            Startup::CreatingDirectory => (Startup::CheckingDatabase, Task::CheckDatabase),
            Startup::CheckingDatabase => if missing {
                (Startup::CreatingDatabase, Task::CreateDatabase)
            } else {
                (Startup::Connecting, Task::Connect)
            },
            Startup::CreatingDatabase => (Startup::Connecting, Task::Connect),
            Startup::Connecting => (Startup::Preparing, Task::Prepare),
            Startup::Preparing => (Startup::Serving, Task::Serve),
            Startup::Serving => (Startup::Stopped, Task::Close),
            Startup::Stopped => (Startup::Stopped, Task::Nothing),
            Startup::Failed => (Startup::Failed, Task::Nothing),
        }
    }
}

/// Starts bringing the bridge up: the first piece of work is to look for
/// the directory of the store. The caller does each piece of work and
/// hands what came of it to `Startup::advance`, until it is told to
/// serve or to give up.
pub fn start() -> (first: (Startup, Task))
    ensures
        first.0 == Startup::CheckingDirectory,
        first.1 == Task::CheckDirectory,
{
    (Startup::CheckingDirectory, Task::CheckDirectory)
}

/// Where the bridge stands after a run of observations.
pub open spec fn stands_after(observations: Seq<Observation>) -> Startup
    decreases observations.len(),
{
    if observations.len() == 0 {
        Startup::CheckingDirectory
    } else {
        stands_after(observations.drop_last()).after(observations.last()).0
    }
}

/// The run moves on with every observation: it has settled after seven
/// at the latest.
pub proof fn startup_settles(observations: Seq<Observation>)
    ensures
        stands_after(observations).settled() || stands_after(observations).rank() >= observations.len(),
        observations.len() >= 7 ==> stands_after(observations).settled(),
    decreases observations.len(),
{
    if observations.len() > 0 {
        startup_settles(observations.drop_last());
    }
}

/// Without a failure the run does not fail.
pub proof fn success_never_fails(observations: Seq<Observation>)
    requires
        forall|k: int| 0 <= k < observations.len() ==> !(#[trigger] observations[k] is Failed),
    ensures
        !(stands_after(observations) is Failed),
    decreases observations.len(),
{
    if observations.len() > 0 {
        let front = observations.drop_last();
        assert forall|k: int| 0 <= k < front.len() implies !(#[trigger] front[k] is Failed) by {
            assert(front[k] == observations[k]);
        }
        success_never_fails(front);
        assert(!(observations.last() is Failed));
    }
}

/// The first failure is final: once a piece of work has failed before the
/// run had settled, the run has failed, whatever is observed later.
pub proof fn failure_is_final(observations: Seq<Observation>, k: int)
    requires
        0 <= k < observations.len(),
        observations[k] is Failed,
        !stands_after(observations.subrange(0, k)).settled(),
    ensures
        stands_after(observations) is Failed,
    decreases observations.len(),
{
    let front = observations.drop_last();
    if k == observations.len() - 1 {
        assert(observations.subrange(0, k) =~= front);
    } else {
        assert(front.subrange(0, k) =~= observations.subrange(0, k));
        assert(front[k] == observations[k]);
        failure_is_final(front, k);
    }
}

} // verus!
