use tfb_containers::container_spec::{
    benchmarker_container_spec, database_verifier_container_spec, server_container_spec,
    substitute_server_host, verifier_container_spec, ContainerSpec,
};
use tfb_containers::error::ToolsetError;
use tfb_containers::lifecycle::{
    cleanup_request, finish_command_retrieval, lifecycle_plan, BenchmarkCommands,
    BenchmarkResults, EngineCall, Role,
};
use tfb_containers::line_buffer::LineBuffer;
use tfb_containers::ports::{resolve_port_bindings, PortInspection, PortMapping};
use tfb_containers::settings::{DockerConfig, DockerOrchestration, Mode, NetworkingMode};
use tfb_containers::stop_future::{DockerContainerIdFuture, Readiness, TeardownStep};
use tfb_containers::text::{port_number_of, replace_all_occurrences};
use tfb_containers::verification::Verification;

fn config(mode: NetworkingMode, clean_up: bool) -> DockerConfig {
    DockerConfig {
        network_mode: mode,
        server_host: "10.0.0.5".to_string(),
        database_host: "10.0.0.6".to_string(),
        client_docker_host: "10.0.0.7:2375".to_string(),
        client_network_id: "net-client".to_string(),
        use_unix_socket: false,
        concurrency_levels: "16,32".to_string(),
        pipeline_concurrency_levels: "256".to_string(),
        clean_up,
    }
}

fn pairs(v: &[tfb_containers::container_spec::KeyValue]) -> Vec<(String, String)> {
    v.iter().map(|p| (p.key.clone(), p.value.clone())).collect()
}

fn s(x: &str) -> String {
    x.to_string()
}

fn inspection(exposed: Option<Vec<&str>>, ports: Vec<(&str, Vec<&str>)>) -> PortInspection {
    PortInspection {
        exposed_ports: exposed.map(|v| v.into_iter().map(s).collect()),
        ports: ports
            .into_iter()
            .map(|(k, h)| PortMapping { key: s(k), host_ports: h.into_iter().map(s).collect() })
            .collect(),
    }
}

#[test]
fn bridge_mode_resolves_published_host_port() {
    let i = inspection(Some(vec!["8080/tcp"]), vec![("8080/tcp", vec!["32768"])]);
    assert_eq!(
        resolve_port_bindings(NetworkingMode::Bridge, &i),
        Ok((s("32768"), s("8080")))
    );
}

#[test]
fn host_mode_resolves_same_port_twice() {
    let i = inspection(Some(vec!["8080/tcp"]), vec![("8080/tcp", vec!["32768"])]);
    assert_eq!(
        resolve_port_bindings(NetworkingMode::Host, &i),
        Ok((s("8080"), s("8080")))
    );
}

#[test]
fn missing_exposed_ports_is_expose_port_error() {
    let i = inspection(None, vec![]);
    assert_eq!(
        resolve_port_bindings(NetworkingMode::Bridge, &i),
        Err(ToolsetError::ExposePortError)
    );
    assert_eq!(
        resolve_port_bindings(NetworkingMode::Host, &i),
        Err(ToolsetError::ExposePortError)
    );
}

#[test]
fn empty_mappings_are_mapping_inspection_error() {
    let i = inspection(
        Some(vec!["8080/tcp", "9000/udp"]),
        vec![("8080/tcp", vec![]), ("9000/udp", vec![])],
    );
    assert_eq!(
        resolve_port_bindings(NetworkingMode::Bridge, &i),
        Err(ToolsetError::ContainerPortMappingInspectionError)
    );
}

#[test]
fn bridge_mode_skips_unmapped_ports() {
    let i = inspection(
        Some(vec!["9000/udp", "8080/tcp"]),
        vec![("9000/udp", vec![]), ("8080/tcp", vec!["49153", "49154"])],
    );
    assert_eq!(
        resolve_port_bindings(NetworkingMode::Bridge, &i),
        Ok((s("49153"), s("8080")))
    );
}

#[test]
fn port_number_drops_protocol() {
    assert_eq!(port_number_of("8080/tcp"), "8080");
    assert_eq!(port_number_of("8080"), "8080");
    assert_eq!(port_number_of("/tcp"), "");
}

#[test]
fn placeholder_is_replaced_and_nothing_else() {
    let cmds = vec![
        s("wrk -c 16 http://tfb-server:8080/json"),
        s("echo tfb-servertfb-server tfb-serve"),
        s("plain"),
    ];
    let out = substitute_server_host(&cmds, "10.0.0.5");
    assert_eq!(
        out,
        vec![
            s("wrk -c 16 http://10.0.0.5:8080/json"),
            s("echo 10.0.0.510.0.0.5 tfb-serve"),
            s("plain"),
        ]
    );
}

#[test]
fn replacement_scans_from_the_left() {
    assert_eq!(replace_all_occurrences("aaa", "aa", "b"), "ba");
    assert_eq!(replace_all_occurrences("", "x", "y"), "");
    assert_eq!(replace_all_occurrences("héllo", "é", "e"), "hello");
}

fn check_mode(spec: &ContainerSpec, mode: NetworkingMode, hosts: &[(&str, &str)], alias: &[&str]) {
    assert_eq!(spec.network_mode, mode);
    match mode {
        NetworkingMode::Bridge => {
            assert!(spec.extra_hosts.is_empty());
            assert_eq!(spec.aliases, alias.iter().map(|a| s(a)).collect::<Vec<_>>());
        }
        NetworkingMode::Host => {
            assert!(spec.aliases.is_empty());
            let want: Vec<(String, String)> = hosts.iter().map(|(a, b)| (s(a), s(b))).collect();
            assert_eq!(pairs(&spec.extra_hosts), want);
        }
    }
}

#[test]
fn every_role_agrees_with_networking_mode() {
    for mode in [NetworkingMode::Bridge, NetworkingMode::Host] {
        let c = config(mode, true);
        let server = server_container_spec(&c, "img", "net-1", "tfb-server");
        check_mode(&server, mode, &[("tfb-database", "10.0.0.6")], &["tfb-server"]);
        let bench = benchmarker_container_spec(&c, &vec![s("wrk tfb-server")]);
        check_mode(&bench, mode, &[("tfb-server", "10.0.0.5")], &[]);
        let orch = DockerOrchestration { host_internal_port: s("8080"), database_name: None };
        let ver = verifier_container_spec(&c, &orch, Mode::Verify, "json", "/json");
        let both = [("tfb-server", "10.0.0.5"), ("tfb-database", "10.0.0.6")];
        check_mode(&ver, mode, &both, &[]);
        let db = database_verifier_container_spec(&c, "postgres");
        check_mode(&db, mode, &both, &[]);
    }
}

#[test]
fn server_spec_sets_limits_and_privileges() {
    let c = config(NetworkingMode::Bridge, false);
    let r = server_container_spec(&c, "img", "net-1", "tfb-server");
    assert_eq!(r.image, "img");
    assert_eq!(r.hostname, Some(s("tfb-server")));
    assert_eq!(r.domain_name, Some(s("tfb-server")));
    assert_eq!(pairs(&r.sysctls), vec![(s("net.core.somaxconn"), s("65535"))]);
    let limits: Vec<(String, u32, u32)> =
        r.ulimits.iter().map(|u| (u.name.clone(), u.soft, u.hard)).collect();
    assert_eq!(limits, vec![(s("nofile"), 200000, 200000), (s("rtprio"), 99, 99)]);
    assert!(r.publish_all_ports && r.privileged && r.tty);
    assert_eq!(r.network_id, "net-1");
}

#[test]
fn benchmarker_spec_rewrites_commands() {
    let c = config(NetworkingMode::Host, false);
    let r = benchmarker_container_spec(&c, &vec![s("wrk"), s("http://tfb-server:8080/")]);
    assert_eq!(r.image, "techempower/tfb.verifier");
    assert_eq!(r.cmds, Some(vec![s("wrk"), s("http://10.0.0.5:8080/")]));
    assert!(r.attach_stderr && r.tty);
    let limits: Vec<(String, u32, u32)> =
        r.ulimits.iter().map(|u| (u.name.clone(), u.soft, u.hard)).collect();
    assert_eq!(limits, vec![(s("nofile"), 65535, 65535)]);
    assert!(!r.publish_all_ports && !r.privileged);
    assert_eq!(r.network_id, "net-client");
}

#[test]
fn verifier_spec_environment() {
    let c = config(NetworkingMode::Bridge, false);
    let orch = DockerOrchestration { host_internal_port: s("8080"), database_name: Some(s("mysql")) };
    let r = verifier_container_spec(&c, &orch, Mode::Benchmark, "db", "/db");
    assert_eq!(
        pairs(&r.env),
        vec![
            (s("MODE"), s("benchmark")),
            (s("PORT"), s("8080")),
            (s("ENDPOINT"), s("/db")),
            (s("TEST_TYPE"), s("db")),
            (s("CONCURRENCY_LEVELS"), s("16,32")),
            (s("PIPELINE_CONCURRENCY_LEVELS"), s("256")),
            (s("DATABASE"), s("mysql")),
        ]
    );
    assert!(r.publish_all_ports);
    let orch = DockerOrchestration { host_internal_port: s("80"), database_name: None };
    let r = verifier_container_spec(&c, &orch, Mode::Verify, "json", "/json");
    assert_eq!(r.env.len(), 6);
    assert_eq!(pairs(&r.env)[0], (s("MODE"), s("verify")));
}

#[test]
fn database_verifier_spec_environment() {
    let c = config(NetworkingMode::Host, false);
    let r = database_verifier_container_spec(&c, "postgres");
    assert_eq!(
        pairs(&r.env),
        vec![
            (s("MODE"), s("database")),
            (s("PORT"), s("0")),
            (s("ENDPOINT"), s("")),
            (s("TEST_TYPE"), s("")),
            (s("CONCURRENCY_LEVELS"), s("16,32")),
            (s("PIPELINE_CONCURRENCY_LEVELS"), s("256")),
            (s("DATABASE"), s("postgres")),
        ]
    );
}

#[test]
fn verification_keeps_messages_in_order() {
    let mut v = Verification::new("gemini", "gemini-mysql", "json");
    let lines = vec![
        s("starting verifier"),
        s("WARNING: missing Server header"),
        s("request 1 ok"),
        s("ERROR: wrong content type"),
        s("WARNING: slow response"),
        s("done"),
    ];
    v.record_lines(&lines);
    assert_eq!(v.warnings, vec![s("missing Server header"), s("slow response")]);
    assert_eq!(v.errors, vec![s("wrong content type")]);
    assert_eq!(v.test_type_name, "json");
}

#[test]
fn ordinary_line_is_relayed() {
    let mut v = Verification::new("f", "t", "json");
    assert_eq!(v.record_line("hello"), Some(s("hello")));
    assert_eq!(v.record_line("ERROR: x"), None);
    assert_eq!(v.errors, vec![s("x")]);
}

#[test]
fn chunks_are_cut_into_lines() {
    let mut b = LineBuffer::new();
    assert_eq!(b.feed("WARNING: a\nrow"), vec![s("WARNING: a")]);
    assert_eq!(b.feed(" one\n\nERR"), vec![s("row one"), s("")]);
    assert_eq!(b.finish(), Some(s("ERR")));
    assert_eq!(b.finish(), None);
}

#[test]
fn stopping_unregistered_future_does_nothing() {
    let mut f = DockerContainerIdFuture::new("localhost:2375");
    assert!(!f.stop_requested());
    assert_eq!(f.poll(), Readiness::Ready);
    let steps = f.take_teardown(false).unwrap();
    assert!(steps.is_empty());
    assert_eq!(f.container_id, None);
}

#[test]
fn pending_future_waits() {
    let mut f = DockerContainerIdFuture::new("h");
    f.register("c1");
    f.container_id = None;
    assert_eq!(f.poll(), Readiness::Pending);
    assert!(f.take_teardown(true).is_none());
    assert!(f.requires_wait_to_stop);
}

#[test]
fn teardown_goes_on_after_kill() {
    let mut f = DockerContainerIdFuture::new("h");
    f.register("c1");
    f.set_image_id("img1");
    assert!(f.stop_requested());
    let steps = f.take_teardown(true).unwrap();
    assert_eq!(steps.len(), 4);
    assert!(matches!(&steps[0], TeardownStep::KillContainer { container_id, docker_host } if container_id == "c1" && docker_host == "h"));
    assert!(matches!(&steps[1], TeardownStep::DeleteContainer { container_id, .. } if container_id == "c1"));
    assert!(matches!(&steps[2], TeardownStep::DeleteImage { image_id, .. } if image_id == "img1"));
    assert!(matches!(&steps[3], TeardownStep::PruneDanglingImages { .. }));
    assert_eq!(f.container_id, None);
    assert_eq!(f.image_id, None);
    assert!(!f.requires_wait_to_stop);
}

#[test]
fn teardown_without_clean_up_only_kills() {
    let mut f = DockerContainerIdFuture::new("h");
    f.register("c1");
    f.set_image_id("img1");
    let steps = f.take_teardown(false).unwrap();
    assert_eq!(steps.len(), 1);
    assert_eq!(f.image_id, None);
}

#[test]
fn streaming_roles_attach_before_start() {
    assert_eq!(
        lifecycle_plan(Role::Verifier, true),
        vec![EngineCall::AttachInBackground, EngineCall::Start, EngineCall::WaitForExit, EngineCall::Delete]
    );
    assert_eq!(
        lifecycle_plan(Role::Server, true),
        vec![EngineCall::AttachInBackground, EngineCall::Start]
    );
    assert_eq!(
        lifecycle_plan(Role::Benchmarker, false),
        vec![EngineCall::Start, EngineCall::WaitForExit, EngineCall::FetchLogs]
    );
    assert_eq!(
        lifecycle_plan(Role::DatabaseReadiness, true),
        vec![EngineCall::Start, EngineCall::WaitForExit, EngineCall::Delete]
    );
}

#[test]
fn cleanup_only_when_asked() {
    assert!(cleanup_request(&config(NetworkingMode::Bridge, false), "c").is_none());
    let r = cleanup_request(&config(NetworkingMode::Bridge, true), "c").unwrap();
    assert_eq!(r.container_id, "c");
    assert_eq!(r.docker_host, "10.0.0.7:2375");
    assert!(r.delete_anonymous_volumes && r.force && !r.remove_associated_link);
}

#[test]
fn missing_commands_are_an_error() {
    assert_eq!(
        finish_command_retrieval(None).err(),
        Some(ToolsetError::FailedBenchmarkCommandRetrievalError)
    );
    let c = BenchmarkCommands { commands: vec![s("wrk")] };
    assert_eq!(finish_command_retrieval(Some(c)).unwrap().commands, vec![s("wrk")]);
}

#[test]
fn benchmark_output_is_kept_verbatim() {
    let mut r = BenchmarkResults::new();
    r.append("Running 15s test\n");
    r.append("Requests/sec: 100.5\n");
    assert_eq!(r.raw, "Running 15s test\nRequests/sec: 100.5\n");
}
