use vstd::prelude::*;

verus! {

/// How a container reaches the network.
#[derive(Clone, Copy, Debug, PartialEq, Eq, Structural)]
pub enum NetworkingMode {
    /// An engine-managed virtual network; peers are found through aliases.
    Bridge,
    /// The engine host's own network namespace; peers need explicit host mappings.
    Host,
}

/// What a verifier container is asked to do.
#[derive(Clone, Copy, Debug, PartialEq, Eq, Structural)]
pub enum Mode {
    Verify,
    Benchmark,
}

/// The configuration of one benchmark run, read and never changed here.
#[derive(Clone, Debug)]
pub struct DockerConfig {
    pub network_mode: NetworkingMode,
    pub server_host: String,
    pub database_host: String,
    pub client_docker_host: String,
    pub client_network_id: String,
    pub use_unix_socket: bool,
    pub concurrency_levels: String,
    pub pipeline_concurrency_levels: String,
    pub clean_up: bool,
}

/// What the verifier needs to know of a running server container.
#[derive(Clone, Debug)]
pub struct DockerOrchestration {
    pub host_internal_port: String,
    pub database_name: Option<String>,
}

} // verus!
