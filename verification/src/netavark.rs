//! The network setup request handed to `netavark`, and the reading of its
//! answer. Maps of the request are kept as key/value lists whose keys are
//! distinct.

use vstd::prelude::*;
use vstd::string::*;
use crate::text::string_views;

verus! {

/// The configuration `netavark setup` reads on standard input.
#[derive(Debug, PartialEq)]
pub struct NetavarkConfig {
    pub container_id: String,
    pub container_name: String,
    pub port_mappings: Vec<PortMapping>,
    pub networks: Vec<(String, NetworkOptions)>,
    pub network_info: Vec<(String, NetworkInfo)>,
}

/// A published port.
#[derive(Debug, PartialEq)]
pub struct PortMapping {
    pub host_port: u16,
    pub container_port: u16,
    pub protocol: String,
}

/// Per-container options of a network.
#[derive(Debug, PartialEq)]
pub struct NetworkOptions {
    pub interface_name: String,
}

/// A network definition.
#[derive(Debug, PartialEq)]
pub struct NetworkInfo {
    pub name: String,
    pub driver: String,
    pub network_interface: String,
    pub subnets: Vec<Subnet>,
}

/// A subnet of a network, with its gateway.
#[derive(Debug, PartialEq)]
pub struct Subnet {
    pub subnet: String,
    pub gateway: String,
}

/// What `netavark setup` reports about the configured networks.
#[derive(Debug, PartialEq)]
pub struct NetavarkResult {
    pub podman: Option<NetworkStatus>,
}

/// The interfaces configured in a network, by name.
#[derive(Debug, PartialEq)]
pub struct NetworkStatus {
    pub interfaces: Option<Vec<(String, InterfaceInfo)>>,
}

/// The subnets assigned to an interface.
#[derive(Debug, PartialEq)]
pub struct InterfaceInfo {
    pub subnets: Option<Vec<SubnetInfo>>,
}

/// An assigned address with its prefix.
#[derive(Debug, PartialEq)]
pub struct SubnetInfo {
    pub ipnet: String,
}

/// No key occurs twice in a key/value list.
pub open spec fn keys_distinct<V>(entries: Seq<(String, V)>) -> bool {
    forall|i: int, j: int| 0 <= i < j < entries.len() ==> entries[i].0@ != entries[j].0@
}

/// The request is well formed: its maps have distinct keys.
pub open spec fn config_wf(c: NetavarkConfig) -> bool {
    keys_distinct(c.networks@) && keys_distinct(c.network_info@)
}

/// The engine's one network: `rustpod-net`, a bridge on `rustpod0` over
/// 10.88.0.0/16 with gateway 10.88.0.1, joined through `eth0`; no ports are
/// published.
pub open spec fn is_default_config(c: NetavarkConfig, container_id: Seq<char>) -> bool {
    &&& c.container_id@ == container_id
    &&& c.container_name@ == container_id
    &&& c.port_mappings@.len() == 0
    &&& c.networks@.len() == 1
    &&& c.networks@[0].0@ == "rustpod-net"@
    &&& c.networks@[0].1.interface_name@ == "eth0"@
    &&& c.network_info@.len() == 1
    &&& c.network_info@[0].0@ == "rustpod-net"@
    &&& c.network_info@[0].1.name@ == "rustpod-net"@
    &&& c.network_info@[0].1.driver@ == "bridge"@
    &&& c.network_info@[0].1.network_interface@ == "rustpod0"@
    &&& c.network_info@[0].1.subnets@.len() == 1
    &&& c.network_info@[0].1.subnets@[0].subnet@ == "10.88.0.0/16"@
    &&& c.network_info@[0].1.subnets@[0].gateway@ == "10.88.0.1"@
}

/// The network setup request for a container.
pub fn netavark_config(container_id: &str) -> (c: NetavarkConfig)
    ensures
        is_default_config(c, container_id@),
        config_wf(c),
{
    let mut networks: Vec<(String, NetworkOptions)> = Vec::new();
    networks.push(
        (String::from_str("rustpod-net"), NetworkOptions { interface_name: String::from_str("eth0") }),
    );
    let mut subnets: Vec<Subnet> = Vec::new();
    subnets.push(
        Subnet { subnet: String::from_str("10.88.0.0/16"), gateway: String::from_str("10.88.0.1") },
    );
    let mut network_info: Vec<(String, NetworkInfo)> = Vec::new();
    network_info.push(
        (
            String::from_str("rustpod-net"),
            NetworkInfo {
                name: String::from_str("rustpod-net"),
                driver: String::from_str("bridge"),
                network_interface: String::from_str("rustpod0"),
                subnets,
            },
        ),
    );
    NetavarkConfig {
        container_id: String::from_str(container_id),
        container_name: String::from_str(container_id),
        port_mappings: Vec::new(),
        networks,
        network_info,
    }
}

/// The directory `netavark` keeps its state in.
pub open spec fn netavark_config_dir() -> Seq<char> {
    "/var/lib/rustpod/netavark"@
}

/// `netavark setup <config dir> <netns path>`.
pub fn setup_args(netns_path: &str) -> (r: Vec<String>)
    ensures
        string_views(r@) == seq!["setup"@, netavark_config_dir(), netns_path@],
{
    let mut v: Vec<String> = Vec::new();
    v.push(String::from_str("setup"));
    v.push(String::from_str("/var/lib/rustpod/netavark"));
    v.push(String::from_str(netns_path));
    assert(string_views(v@) =~= seq!["setup"@, netavark_config_dir(), netns_path@]);
    v
}

/// The outcome of `netavark setup`: its output when it succeeded, else an
/// error with what it wrote to standard error.
pub open spec fn setup_outcome_of(succeeded: bool, stdout: Seq<char>, stderr: Seq<char>) -> Result<Seq<char>, Seq<char>> {
    if succeeded {
        Ok(stdout)
    } else {
        Err("Netavark error: "@ + stderr)
    }
}

/// Reads the answer of `netavark setup`.
pub fn setup_outcome(succeeded: bool, stdout: String, stderr: &str) -> (r: Result<String, String>)
    ensures
        match (r, setup_outcome_of(succeeded, stdout@, stderr@)) {
            (Ok(a), Ok(b)) => a@ == b,
            (Err(a), Err(b)) => a@ == b,
            _ => false,
        },
{
    if succeeded {
        Ok(stdout)
    } else {
        let mut e = String::from_str("Netavark error: ");
        e.append(stderr);
        Err(e)
    }
}

} // verus!

verus! {

/// A failing step of talking to `netavark`, whose error carries a
/// description of the underlying error.
#[derive(Clone, Copy, PartialEq, Eq, Structural, Debug)]
pub enum NetavarkFailure {
    /// The request could not be serialized (the description alone is the
    /// error).
    Serialize,
    /// `netavark` could not be started.
    Spawn,
    /// The request could not be written to its standard input.
    WriteRequest,
    /// Waiting for `netavark` failed.
    Wait,
}

/// The text that precedes the detail of each failure.
pub open spec fn netavark_failure_prefix(f: NetavarkFailure) -> Seq<char> {
    match f {
        NetavarkFailure::Serialize => Seq::empty(),
        NetavarkFailure::Spawn => "Failed to spawn netavark: "@,
        NetavarkFailure::WriteRequest => "Failed to write to netavark stdin: "@,
        NetavarkFailure::Wait => "Failed to wait for netavark: "@,
    }
}

/// The error of a failing step with the description `detail`.
pub fn netavark_failure(f: NetavarkFailure, detail: &str) -> (r: String)
    ensures
        r@ == netavark_failure_prefix(f) + detail@,
{
    let mut r = match f {
        NetavarkFailure::Serialize => String::new(),
        NetavarkFailure::Spawn => String::from_str("Failed to spawn netavark: "),
        NetavarkFailure::WriteRequest => String::from_str("Failed to write to netavark stdin: "),
        NetavarkFailure::Wait => String::from_str("Failed to wait for netavark: "),
    };
    r.append(detail);
    assert(r@ =~= netavark_failure_prefix(f) + detail@);
    r
}

} // verus!
