use vstd::prelude::*;
use vstd::string::*;

use crate::settings::{DockerConfig, DockerOrchestration, Mode, NetworkingMode};
use crate::text::{replace_all, replace_all_occurrences};

verus! {

/// A name with a value: an environment variable, a host mapping or a kernel parameter.
#[derive(Clone, Debug)]
pub struct KeyValue {
    pub key: String,
    pub value: String,
}

/// A resource limit inside a container.
#[derive(Clone, Debug)]
pub struct Ulimit {
    pub name: String,
    pub soft: u32,
    pub hard: u32,
}

/// Everything the engine is told when a container is created.
#[derive(Clone, Debug)]
pub struct ContainerSpec {
    pub image: String,
    pub hostname: Option<String>,
    pub domain_name: Option<String>,
    pub tty: bool,
    pub attach_stderr: bool,
    pub cmds: Option<Vec<String>>,
    pub env: Vec<KeyValue>,
    pub network_mode: NetworkingMode,
    pub extra_hosts: Vec<KeyValue>,
    pub sysctls: Vec<KeyValue>,
    pub ulimits: Vec<Ulimit>,
    pub publish_all_ports: bool,
    pub privileged: bool,
    pub network_id: String,
    pub aliases: Vec<String>,
}

pub open spec fn pairs_view(v: Seq<KeyValue>) -> Seq<(Seq<char>, Seq<char>)> {
    v.map_values(|p: KeyValue| (p.key@, p.value@))
}

pub open spec fn strings_view(v: Seq<String>) -> Seq<Seq<char>> {
    v.map_values(|s: String| s@)
}

pub open spec fn ulimits_view(v: Seq<Ulimit>) -> Seq<(Seq<char>, u32, u32)> {
    v.map_values(|u: Ulimit| (u.name@, u.soft, u.hard))
}

/// The image of the load generator and of the verifier.
pub open spec fn verifier_image() -> Seq<char> {
    "techempower/tfb.verifier"@
}

/// The placeholder in generated benchmark commands that stands for the server host.
pub open spec fn server_placeholder() -> Seq<char> {
    "tfb-server"@
}

pub open spec fn backlog_sysctls() -> Seq<(Seq<char>, Seq<char>)> {
    seq![("net.core.somaxconn"@, "65535"@)]
}

/// The host mappings that a role needs in `Host` mode, where no alias can find a peer.
pub open spec fn required_extra_hosts(
    mode: NetworkingMode,
    hosts: Seq<(Seq<char>, Seq<char>)>,
) -> Seq<(Seq<char>, Seq<char>)> {
    match mode {
        NetworkingMode::Bridge => Seq::empty(),
        NetworkingMode::Host => hosts,
    }
}

/// The host configuration agrees with the networking mode: in `Bridge` mode the role's
/// aliases and no host mappings; in `Host` mode the role's host mappings and no alias.
pub open spec fn consistent_with_mode(
    s: ContainerSpec,
    mode: NetworkingMode,
    hosts: Seq<(Seq<char>, Seq<char>)>,
    bridge_aliases: Seq<Seq<char>>,
) -> bool {
    &&& s.network_mode == mode
    &&& pairs_view(s.extra_hosts@) == required_extra_hosts(mode, hosts)
    &&& strings_view(s.aliases@) == (match mode {
        NetworkingMode::Bridge => bridge_aliases,
        NetworkingMode::Host => Seq::<Seq<char>>::empty(),
    })
}

/// The environment of a verifier container, in the order it is written.
pub open spec fn verifier_env(
    mode: Seq<char>,
    port: Seq<char>,
    endpoint: Seq<char>,
    test_type: Seq<char>,
    config: DockerConfig,
    database: Option<Seq<char>>,
) -> Seq<(Seq<char>, Seq<char>)> {
    let base = seq![
        ("MODE"@, mode),
        ("PORT"@, port),
        ("ENDPOINT"@, endpoint),
        ("TEST_TYPE"@, test_type),
        ("CONCURRENCY_LEVELS"@, config.concurrency_levels@),
        ("PIPELINE_CONCURRENCY_LEVELS"@, config.pipeline_concurrency_levels@),
    ];
    match database {
        Some(d) => base.push(("DATABASE"@, d)),
        None => base,
    }
}

pub open spec fn mode_name(mode: Mode) -> Seq<char> {
    match mode {
        Mode::Verify => "verify"@,
        Mode::Benchmark => "benchmark"@,
    }
}

fn key_value(key: &str, value: &str) -> (r: KeyValue)
    ensures
        r.key@ == key@,
        r.value@ == value@,
{
    KeyValue { key: key.to_owned(), value: value.to_owned() }
}

fn backlog() -> (r: Vec<KeyValue>)
    ensures
        pairs_view(r@) == backlog_sysctls(),
{
    let mut v: Vec<KeyValue> = Vec::new();
    v.push(key_value("net.core.somaxconn", "65535"));
    assert(pairs_view(v@) =~= backlog_sysctls());
    v
}

fn ulimit(name: &str, soft: u32, hard: u32) -> (r: Ulimit)
    ensures
        r.name@ == name@,
        r.soft == soft,
        r.hard == hard,
{
    Ulimit { name: name.to_owned(), soft, hard }
}

/// The specification of a server container, named `host_name` on its network.
pub fn server_container_spec(
    config: &DockerConfig,
    image_id: &str,
    network_id: &str,
    host_name: &str,
) -> (r: ContainerSpec)
    ensures
        r.image@ == image_id@,
        r.hostname is Some && r.hostname->0@ == host_name@,
        r.domain_name is Some && r.domain_name->0@ == host_name@,
        r.tty,
        !r.attach_stderr,
        r.cmds is None,
        r.env@.len() == 0,
        consistent_with_mode(
            r,
            config.network_mode,
            seq![("tfb-database"@, config.database_host@)],
            seq![host_name@],
        ),
        pairs_view(r.sysctls@) == backlog_sysctls(),
        ulimits_view(r.ulimits@) == seq![("nofile"@, 200000u32, 200000u32), ("rtprio"@, 99u32, 99u32)],
        r.publish_all_ports,
        r.privileged,
        r.network_id@ == network_id@,
{
    let mut extra_hosts: Vec<KeyValue> = Vec::new();
    let mut aliases: Vec<String> = Vec::new();
    match config.network_mode {
        NetworkingMode::Bridge => {
            aliases.push(host_name.to_owned());
        },
        NetworkingMode::Host => {
            extra_hosts.push(key_value("tfb-database", config.database_host.as_str()));
        },
    }
    let mut ulimits: Vec<Ulimit> = Vec::new();
    ulimits.push(ulimit("nofile", 200000, 200000));
    ulimits.push(ulimit("rtprio", 99, 99));
    let r = ContainerSpec {
        image: image_id.to_owned(),
        hostname: Some(host_name.to_owned()),
        domain_name: Some(host_name.to_owned()),
        tty: true,
        attach_stderr: false,
        cmds: None,
        env: Vec::new(),
        network_mode: config.network_mode,
        extra_hosts,
        sysctls: backlog(),
        ulimits,
        publish_all_ports: true,
        privileged: true,
        network_id: network_id.to_owned(),
        aliases,
    };
    assert(ulimits_view(r.ulimits@) =~= seq![("nofile"@, 200000u32, 200000u32), ("rtprio"@, 99u32, 99u32)]);
    assert(pairs_view(r.extra_hosts@) =~= required_extra_hosts(
        config.network_mode,
        seq![("tfb-database"@, config.database_host@)],
    ));
    assert(strings_view(r.aliases@) =~= (match config.network_mode {
        NetworkingMode::Bridge => seq![host_name@],
        NetworkingMode::Host => Seq::<Seq<char>>::empty(),
    }));
    r
}

/// Rewrites each benchmark command for this run's server host.
pub fn substitute_server_host(command_strs: &Vec<String>, server_host: &str) -> (r: Vec<String>)
    ensures
        strings_view(r@) == strings_view(command_strs@).map_values(
            |c: Seq<char>| replace_all(c, server_placeholder(), server_host@),
        ),
{
    let mut out: Vec<String> = Vec::new();
    let mut i: usize = 0;
    while i < command_strs.len()
        invariant
            i <= command_strs@.len(),
            out@.len() == i,
            forall|j: int|
                0 <= j < i ==> #[trigger] out@[j]@ == replace_all(
                    command_strs@[j]@,
                    server_placeholder(),
                    server_host@,
                ),
        decreases command_strs@.len() - i,
    {
        proof {
            reveal_strlit("tfb-server");
        }
        let c = replace_all_occurrences(command_strs[i].as_str(), "tfb-server", server_host);
        out.push(c);
        i = i + 1;
    }
    assert(strings_view(out@) =~= strings_view(command_strs@).map_values(
        |c: Seq<char>| replace_all(c, server_placeholder(), server_host@),
    ));
    out
}

fn verifier_hosts(config: &DockerConfig) -> (r: Vec<KeyValue>)
    ensures
        pairs_view(r@) == required_extra_hosts(
            config.network_mode,
            seq![("tfb-server"@, config.server_host@), ("tfb-database"@, config.database_host@)],
        ),
{
    let mut v: Vec<KeyValue> = Vec::new();
    match config.network_mode {
        NetworkingMode::Bridge => {},
        NetworkingMode::Host => {
            v.push(key_value("tfb-server", config.server_host.as_str()));
            v.push(key_value("tfb-database", config.database_host.as_str()));
        },
    }
    assert(pairs_view(v@) =~= required_extra_hosts(
        config.network_mode,
        seq![("tfb-server"@, config.server_host@), ("tfb-database"@, config.database_host@)],
    ));
    v
}

/// The specification of the load-generating benchmarker container.
pub fn benchmarker_container_spec(config: &DockerConfig, command_strs: &Vec<String>) -> (r:
    ContainerSpec)
    ensures
        r.image@ == verifier_image(),
        r.hostname is None,
        r.domain_name is None,
        r.tty,
        r.attach_stderr,
        r.cmds is Some,
        strings_view(r.cmds->0@) == strings_view(command_strs@).map_values(
            |c: Seq<char>| replace_all(c, server_placeholder(), config.server_host@),
        ),
        r.env@.len() == 0,
        consistent_with_mode(
            r,
            config.network_mode,
            seq![("tfb-server"@, config.server_host@)],
            Seq::empty(),
        ),
        pairs_view(r.sysctls@) == backlog_sysctls(),
        ulimits_view(r.ulimits@) == seq![("nofile"@, 65535u32, 65535u32)],
        !r.publish_all_ports,
        !r.privileged,
        r.network_id@ == config.client_network_id@,
{
    let mut extra_hosts: Vec<KeyValue> = Vec::new();
    match config.network_mode {
        NetworkingMode::Bridge => {},
        NetworkingMode::Host => {
            extra_hosts.push(key_value("tfb-server", config.server_host.as_str()));
        },
    }
    let mut ulimits: Vec<Ulimit> = Vec::new();
    ulimits.push(ulimit("nofile", 65535, 65535));
    let r = ContainerSpec {
        image: "techempower/tfb.verifier".to_owned(),
        hostname: None,
        domain_name: None,
        tty: true,
        attach_stderr: true,
        cmds: Some(substitute_server_host(command_strs, config.server_host.as_str())),
        env: Vec::new(),
        network_mode: config.network_mode,
        extra_hosts,
        sysctls: backlog(),
        ulimits,
        publish_all_ports: false,
        privileged: false,
        network_id: config.client_network_id.clone(),
        aliases: Vec::new(),
    };
    assert(ulimits_view(r.ulimits@) =~= seq![("nofile"@, 65535u32, 65535u32)]);
    assert(pairs_view(r.extra_hosts@) =~= required_extra_hosts(
        config.network_mode,
        seq![("tfb-server"@, config.server_host@)],
    ));
    assert(strings_view(r.aliases@) =~= Seq::<Seq<char>>::empty());
    r
}

fn verifier_spec_with_env(config: &DockerConfig, env: Vec<KeyValue>) -> (r: ContainerSpec)
    ensures
        r.image@ == verifier_image(),
        r.hostname is None,
        r.domain_name is None,
        r.tty,
        !r.attach_stderr,
        r.cmds is None,
        r.env@ == env@,
        consistent_with_mode(
            r,
            config.network_mode,
            seq![("tfb-server"@, config.server_host@), ("tfb-database"@, config.database_host@)],
            Seq::empty(),
        ),
        r.sysctls@.len() == 0,
        r.ulimits@.len() == 0,
        r.publish_all_ports,
        !r.privileged,
        r.network_id@ == config.client_network_id@,
{
    let r = ContainerSpec {
        image: "techempower/tfb.verifier".to_owned(),
        hostname: None,
        domain_name: None,
        tty: true,
        attach_stderr: false,
        cmds: None,
        env,
        network_mode: config.network_mode,
        extra_hosts: verifier_hosts(config),
        sysctls: Vec::new(),
        ulimits: Vec::new(),
        publish_all_ports: true,
        privileged: false,
        network_id: config.client_network_id.clone(),
        aliases: Vec::new(),
    };
    assert(strings_view(r.aliases@) =~= Seq::<Seq<char>>::empty());
    r
}

/// The specification of a verifier container that checks the endpoint of one test type.
pub fn verifier_container_spec(
    config: &DockerConfig,
    orchestration: &DockerOrchestration,
    mode: Mode,
    test_type: &str,
    endpoint: &str,
) -> (r: ContainerSpec)
    ensures
        r.image@ == verifier_image(),
        r.hostname is None,
        r.domain_name is None,
        r.tty,
        !r.attach_stderr,
        r.cmds is None,
        pairs_view(r.env@) == verifier_env(
            mode_name(mode),
            orchestration.host_internal_port@,
            endpoint@,
            test_type@,
            *config,
            match orchestration.database_name {
                Some(d) => Some(d@),
                None => None,
            },
        ),
        consistent_with_mode(
            r,
            config.network_mode,
            seq![("tfb-server"@, config.server_host@), ("tfb-database"@, config.database_host@)],
            Seq::empty(),
        ),
        r.sysctls@.len() == 0,
        r.ulimits@.len() == 0,
        r.publish_all_ports,
        !r.privileged,
        r.network_id@ == config.client_network_id@,
{
    let mut env: Vec<KeyValue> = Vec::new();
    let mode_str = match mode {
        Mode::Verify => "verify",
        Mode::Benchmark => "benchmark",
    };
    env.push(key_value("MODE", mode_str));
    env.push(key_value("PORT", orchestration.host_internal_port.as_str()));
    env.push(key_value("ENDPOINT", endpoint));
    env.push(key_value("TEST_TYPE", test_type));
    env.push(key_value("CONCURRENCY_LEVELS", config.concurrency_levels.as_str()));
    env.push(
        key_value("PIPELINE_CONCURRENCY_LEVELS", config.pipeline_concurrency_levels.as_str()),
    );
    match &orchestration.database_name {
        Some(d) => {
            env.push(key_value("DATABASE", d.as_str()));
        },
        None => {},
    }
    assert(pairs_view(env@) =~= verifier_env(
        mode_name(mode),
        orchestration.host_internal_port@,
        endpoint@,
        test_type@,
        *config,
        match orchestration.database_name {
            Some(d) => Some(d@),
            None => None,
        },
    ));
    verifier_spec_with_env(config, env)
}

/// The specification of a verifier container that waits until the database `database_name`
/// accepts connections; the per-test variables it does not read get placeholder values.
pub fn database_verifier_container_spec(config: &DockerConfig, database_name: &str) -> (r:
    ContainerSpec)
    ensures
        r.image@ == verifier_image(),
        r.hostname is None,
        r.domain_name is None,
        r.tty,
        !r.attach_stderr,
        r.cmds is None,
        pairs_view(r.env@) == verifier_env(
            "database"@,
            "0"@,
            ""@,
            ""@,
            *config,
            Some(database_name@),
        ),
        consistent_with_mode(
            r,
            config.network_mode,
            seq![("tfb-server"@, config.server_host@), ("tfb-database"@, config.database_host@)],
            Seq::empty(),
        ),
        r.sysctls@.len() == 0,
        r.ulimits@.len() == 0,
        r.publish_all_ports,
        !r.privileged,
        r.network_id@ == config.client_network_id@,
{
    let mut env: Vec<KeyValue> = Vec::new();
    env.push(key_value("MODE", "database"));
    env.push(key_value("PORT", "0"));
    env.push(key_value("ENDPOINT", ""));
    env.push(key_value("TEST_TYPE", ""));
    env.push(key_value("CONCURRENCY_LEVELS", config.concurrency_levels.as_str()));
    env.push(
        key_value("PIPELINE_CONCURRENCY_LEVELS", config.pipeline_concurrency_levels.as_str()),
    );
    env.push(key_value("DATABASE", database_name));
    assert(pairs_view(env@) =~= verifier_env(
        "database"@,
        "0"@,
        ""@,
        ""@,
        *config,
        Some(database_name@),
    ));
    verifier_spec_with_env(config, env)
}

} // verus!
