use vstd::prelude::*;

use crate::container_spec::strings_view;
use crate::error::ToolsetError;
use crate::settings::NetworkingMode;
use crate::text::{port_number_of, port_part};

verus! {

/// The host side of one exposed port, as the engine reports it after publishing.
#[derive(Clone, Debug)]
pub struct PortMapping {
    /// The exposed port key, such as `8080/tcp`.
    pub key: String,
    /// The host ports the key is published on, in the engine's order.
    pub host_ports: Vec<String>,
}

/// What port resolution reads of an inspected container.
#[derive(Clone, Debug)]
pub struct PortInspection {
    /// The exposed port keys, or `None` where the container has no such metadata.
    pub exposed_ports: Option<Vec<String>>,
    /// The published ports.
    pub ports: Vec<PortMapping>,
}

/// The mapping published for `key`: the first one with that key.
pub open spec fn lookup_mapping(ports: Seq<PortMapping>, key: Seq<char>) -> Option<PortMapping>
    decreases ports.len(),
{
    if ports.len() == 0 {
        None
    } else if ports[0].key@ == key {
        Some(ports[0])
    } else {
        lookup_mapping(ports.drop_first(), key)
    }
}

/// In bridge mode: the first exposed key with a host mapping gives (host port, port number).
pub open spec fn bridge_binding(keys: Seq<Seq<char>>, ports: Seq<PortMapping>) -> Option<
    (Seq<char>, Seq<char>),
>
    decreases keys.len(),
{
    if keys.len() == 0 {
        None
    } else {
        match lookup_mapping(ports, keys[0]) {
            Some(m) if m.host_ports@.len() > 0 => Some((m.host_ports@[0]@, port_part(keys[0]))),
            _ => bridge_binding(keys.drop_first(), ports),
        }
    }
}

/// The (host port, internal port) pair of an inspected container, or why there is none.
pub open spec fn resolved_ports(mode: NetworkingMode, inspection: PortInspection) -> Result<
    (Seq<char>, Seq<char>),
    ToolsetError,
> {
    match inspection.exposed_ports {
        None => Err(ToolsetError::ExposePortError),
        Some(keys) => match mode {
            NetworkingMode::Host => if keys@.len() > 0 {
                Ok((port_part(keys@[0]@), port_part(keys@[0]@)))
            } else {
                Err(ToolsetError::ContainerPortMappingInspectionError)
            },
            NetworkingMode::Bridge => match bridge_binding(
                strings_view(keys@),
                inspection.ports@,
            ) {
                Some(p) => Ok(p),
                None => Err(ToolsetError::ContainerPortMappingInspectionError),
            },
        },
    }
}

fn find_mapping(ports: &Vec<PortMapping>, key: &String) -> (r: Option<usize>)
    ensures
        match r {
            Some(i) => i < ports@.len() && lookup_mapping(ports@, key@) == Some(ports@[i as int]),
            None => lookup_mapping(ports@, key@) is None,
        },
{
    let mut i: usize = 0;
    assert(ports@.subrange(0, ports@.len() as int) =~= ports@);
    while i < ports.len()
        invariant
            i <= ports@.len(),
            lookup_mapping(ports@, key@) == lookup_mapping(
                ports@.subrange(i as int, ports@.len() as int),
                key@,
            ),
        decreases ports@.len() - i,
    {
        let ghost rest = ports@.subrange(i as int, ports@.len() as int);
        assert(rest[0] == ports@[i as int]);
        if ports[i].key.eq(key) {
            return Some(i);
        }
        assert(rest.drop_first() =~= ports@.subrange(i + 1, ports@.len() as int));
        i = i + 1;
    }
    None
}

/// Resolves the (host port, internal port) pair of an inspected container. In `Bridge` mode
/// the host port is the first mapping of the first exposed port that has one; in `Host` mode
/// no remapping happens and both are the first exposed port's number.
pub fn resolve_port_bindings(mode: NetworkingMode, inspection: &PortInspection) -> (r: Result<
    (String, String),
    ToolsetError,
>)
    ensures
        match r {
            Ok(p) => resolved_ports(mode, *inspection) == Ok::<
                (Seq<char>, Seq<char>),
                ToolsetError,
            >((p.0@, p.1@)),
            Err(e) => resolved_ports(mode, *inspection) == Err::<
                (Seq<char>, Seq<char>),
                ToolsetError,
            >(e),
        },
{
    match &inspection.exposed_ports {
        None => Err(ToolsetError::ExposePortError),
        Some(keys) => match mode {
            NetworkingMode::Host => {
                if keys.len() > 0 {
                    let p = port_number_of(keys[0].as_str());
                    let q = port_number_of(keys[0].as_str());
                    Ok((p, q))
                } else {
                    Err(ToolsetError::ContainerPortMappingInspectionError)
                }
            },
            NetworkingMode::Bridge => {
                let mut i: usize = 0;
                assert(strings_view(keys@).subrange(0, keys@.len() as int) =~= strings_view(
                    keys@,
                ));
                while i < keys.len()
                    invariant
                        i <= keys@.len(),
                        inspection.exposed_ports == Some(*keys),
                        mode == NetworkingMode::Bridge,
                        bridge_binding(strings_view(keys@), inspection.ports@) == bridge_binding(
                            strings_view(keys@).subrange(i as int, keys@.len() as int),
                            inspection.ports@,
                        ),
                    decreases keys@.len() - i,
                {
                    let ghost rest = strings_view(keys@).subrange(i as int, keys@.len() as int);
                    assert(rest[0] == keys@[i as int]@);
                    assert(rest.drop_first() =~= strings_view(keys@).subrange(
                        i + 1,
                        keys@.len() as int,
                    ));
                    match find_mapping(&inspection.ports, &keys[i]) {
                        Some(j) => {
                            if inspection.ports[j].host_ports.len() > 0 {
                                let host = inspection.ports[j].host_ports[0].clone();
                                let inner = port_number_of(keys[i].as_str());
                                assert(lookup_mapping(inspection.ports@, rest[0]) == Some(
                                    inspection.ports@[j as int],
                                ));
                                assert(bridge_binding(rest, inspection.ports@) == Some(
                                    (host@, inner@),
                                ));
                                return Ok((host, inner));
                            }
                        },
                        None => {},
                    }
                    i = i + 1;
                }
                Err(ToolsetError::ContainerPortMappingInspectionError)
            },
        },
    }
}

/// Resolution fails with `ExposePortError` on a container without exposed-port metadata, and
/// with `ContainerPortMappingInspectionError` in bridge mode when no exposed port has a host
/// mapping.
pub proof fn lemma_unresolvable_ports(mode: NetworkingMode, inspection: PortInspection)
    ensures
        inspection.exposed_ports is None ==> resolved_ports(mode, inspection) == Err::<
            (Seq<char>, Seq<char>),
            ToolsetError,
        >(ToolsetError::ExposePortError),
        inspection.exposed_ports is Some && mode == NetworkingMode::Bridge && (forall|k: int|
            0 <= k < inspection.exposed_ports->0@.len() ==> match lookup_mapping(
                inspection.ports@,
                #[trigger] inspection.exposed_ports->0@[k]@,
            ) {
                Some(m) => m.host_ports@.len() == 0,
                None => true,
            }) ==> resolved_ports(mode, inspection) == Err::<(Seq<char>, Seq<char>), ToolsetError>(
            ToolsetError::ContainerPortMappingInspectionError,
        ),
{
    if inspection.exposed_ports is Some && mode == NetworkingMode::Bridge && (forall|k: int|
        0 <= k < inspection.exposed_ports->0@.len() ==> match lookup_mapping(
            inspection.ports@,
            #[trigger] inspection.exposed_ports->0@[k]@,
        ) {
            Some(m) => m.host_ports@.len() == 0,
            None => true,
        }) {
        let keys = strings_view(inspection.exposed_ports->0@);
        lemma_no_binding(keys, inspection.ports@);
    }
}

proof fn lemma_no_binding(keys: Seq<Seq<char>>, ports: Seq<PortMapping>)
    requires
        forall|k: int|
            0 <= k < keys.len() ==> match lookup_mapping(ports, #[trigger] keys[k]) {
                Some(m) => m.host_ports@.len() == 0,
                None => true,
            },
    ensures
        bridge_binding(keys, ports) is None,
    decreases keys.len(),
{
    if keys.len() > 0 {
        let t = keys.drop_first();
        assert forall|k: int| 0 <= k < t.len() implies match lookup_mapping(ports, #[trigger] t[k]) {
            Some(m) => m.host_ports@.len() == 0,
            None => true,
        } by {
            assert(t[k] == keys[k + 1]);
        }
        lemma_no_binding(t, ports);
    }
}

} // verus!
