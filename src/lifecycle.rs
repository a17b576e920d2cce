use vstd::prelude::*;
use vstd::string::*;

use crate::error::ToolsetError;
use crate::settings::DockerConfig;

verus! {

/// The containers this library drives.
#[derive(Clone, Copy, Debug, PartialEq, Eq, Structural)]
pub enum Role {
    /// The server under test; its output is relayed to the log while it runs.
    Server,
    /// A one-shot container that prints the benchmark commands.
    CommandRetrieval,
    /// The one-shot load generator.
    Benchmarker,
    /// The one-shot verifier, whose messages are read while it runs.
    Verifier,
    /// The one-shot container that exits once the database accepts connections.
    DatabaseReadiness,
}

/// An engine call of a container's lifecycle.
#[derive(Clone, Copy, Debug, PartialEq, Eq, Structural)]
pub enum EngineCall {
    /// Attach to the output stream from a thread of its own, which reads until it closes.
    AttachInBackground,
    Start,
    WaitForExit,
    FetchLogs,
    Delete,
}

pub open spec fn streams_while_running(role: Role) -> bool {
    role == Role::Server || role == Role::Verifier
}

/// The calls that drive `role` from creation to its result, in order. A role whose output
/// is read while it runs is attached to before it is started: the engine closes an attach
/// connection when the container exits only if the attach came first.
pub open spec fn lifecycle_calls(role: Role, clean_up: bool) -> Seq<EngineCall> {
    let delete = if clean_up {
        seq![EngineCall::Delete]
    } else {
        Seq::empty()
    };
    match role {
        Role::Server => seq![EngineCall::AttachInBackground, EngineCall::Start],
        Role::CommandRetrieval | Role::Benchmarker => seq![
            EngineCall::Start,
            EngineCall::WaitForExit,
            EngineCall::FetchLogs,
        ] + delete,
        Role::Verifier => seq![
            EngineCall::AttachInBackground,
            EngineCall::Start,
            EngineCall::WaitForExit,
        ] + delete,
        Role::DatabaseReadiness => seq![EngineCall::Start, EngineCall::WaitForExit] + delete,
    }
}

/// The engine calls that drive `role`, in the order they must be made.
pub fn lifecycle_plan(role: Role, clean_up: bool) -> (r: Vec<EngineCall>)
    ensures
        r@ == lifecycle_calls(role, clean_up),
        streams_while_running(role) ==> r@.len() >= 2 && r@[0] == EngineCall::AttachInBackground
            && r@[1] == EngineCall::Start,
        forall|i: int| 0 <= i < r@.len() && r@[i] == EngineCall::Start ==> (forall|j: int|
            i < j < r@.len() ==> r@[j] != EngineCall::AttachInBackground),
{
    let mut v: Vec<EngineCall> = Vec::new();
    match role {
        Role::Server => {
            v.push(EngineCall::AttachInBackground);
            v.push(EngineCall::Start);
        },
        Role::CommandRetrieval | Role::Benchmarker => {
            v.push(EngineCall::Start);
            v.push(EngineCall::WaitForExit);
            v.push(EngineCall::FetchLogs);
        },
        Role::Verifier => {
            v.push(EngineCall::AttachInBackground);
            v.push(EngineCall::Start);
            v.push(EngineCall::WaitForExit);
        },
        Role::DatabaseReadiness => {
            v.push(EngineCall::Start);
            v.push(EngineCall::WaitForExit);
        },
    }
    if clean_up && role != Role::Server {
        v.push(EngineCall::Delete);
    }
    assert(v@ =~= lifecycle_calls(role, clean_up));
    v
}

/// How an exited one-shot container is removed.
#[derive(Clone, Debug)]
pub struct DeleteContainerRequest {
    pub container_id: String,
    pub docker_host: String,
    pub delete_anonymous_volumes: bool,
    pub force: bool,
    pub remove_associated_link: bool,
}

/// The removal of an exited one-shot container on the client engine, when the run cleans up:
/// forced, with its anonymous volumes, keeping links.
pub fn cleanup_request(config: &DockerConfig, container_id: &str) -> (r: Option<
    DeleteContainerRequest,
>)
    ensures
        r is Some <==> config.clean_up,
        r is Some ==> {
            &&& r->0.container_id@ == container_id@
            &&& r->0.docker_host@ == config.client_docker_host@
            &&& r->0.delete_anonymous_volumes
            &&& r->0.force
            &&& !r->0.remove_associated_link
        },
{
    if config.clean_up {
        Some(
            DeleteContainerRequest {
                container_id: container_id.to_owned(),
                docker_host: config.client_docker_host.clone(),
                delete_anonymous_volumes: true,
                force: true,
                remove_associated_link: false,
            },
        )
    } else {
        None
    }
}

/// The benchmark tool invocations printed by a command retrieval container.
#[derive(Clone, Debug)]
pub struct BenchmarkCommands {
    pub commands: Vec<String>,
}

/// The commands printed by a command retrieval container: every line it printed, or none
/// where it printed nothing.
pub fn commands_from_lines(lines: Vec<String>) -> (r: Option<BenchmarkCommands>)
    ensures
        lines@.len() == 0 ==> r is None,
        lines@.len() > 0 ==> r is Some && r->0.commands@ == lines@,
{
    if lines.len() == 0 {
        None
    } else {
        Some(BenchmarkCommands { commands: lines })
    }
}

/// The result of a command retrieval: the commands, or an error where none were printed.
pub fn finish_command_retrieval(found: Option<BenchmarkCommands>) -> (r: Result<
    BenchmarkCommands,
    ToolsetError,
>)
    ensures
        match found {
            Some(c) => r == Ok::<BenchmarkCommands, ToolsetError>(c),
            None => r == Err::<BenchmarkCommands, ToolsetError>(
                ToolsetError::FailedBenchmarkCommandRetrievalError,
            ),
        },
{
    match found {
        Some(c) => Ok(c),
        None => Err(ToolsetError::FailedBenchmarkCommandRetrievalError),
    }
}

/// The raw output of the benchmark tool, kept verbatim.
#[derive(Clone, Debug)]
pub struct BenchmarkResults {
    pub raw: String,
}

impl BenchmarkResults {
    pub fn new() -> (r: BenchmarkResults)
        ensures
            r.raw@.len() == 0,
    {
        BenchmarkResults { raw: String::new() }
    }

    /// Appends a chunk of output as it came.
    pub fn append(&mut self, chunk: &str)
        ensures
            final(self).raw@ == old(self).raw@ + chunk@,
    {
        self.raw.append(chunk);
    }
}

} // verus!
