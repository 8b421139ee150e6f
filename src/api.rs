//! The resource model: computers, clusters, gateways and their routes.

use vstd::prelude::*;
use crate::meta::ObjectMeta;

verus! {

/// The part of a computer's state that is declared in its spec and mirrored in
/// its status.
pub struct ComputerInternalState {
    pub label: Option<String>,
    pub script: Option<String>,
}

/// The view of an optional string: the characters it holds, if any.
pub open spec fn opt_view(o: Option<String>) -> Option<Seq<char>> {
    match o {
        Some(s) => Some(s@),
        None => None,
    }
}

impl ComputerInternalState {
    /// Two states are the same when their labels and scripts hold the same text.
    pub open spec fn same_as(self, other: ComputerInternalState) -> bool {
        opt_view(self.label) == opt_view(other.label) && opt_view(self.script) == opt_view(other.script)
    }
}

fn opt_string_eq(a: &Option<String>, b: &Option<String>) -> (r: bool)
    ensures
        r == (opt_view(*a) == opt_view(*b)),
{
    match (a, b) {
        (Some(x), Some(y)) => x.eq(y),
        (None, None) => true,
        _ => false,
    }
}

impl PartialEq for ComputerInternalState {
    fn eq(&self, other: &ComputerInternalState) -> (r: bool) {
        opt_string_eq(&self.label, &other.label) && opt_string_eq(&self.script, &other.script)
    }
}

impl vstd::std_specs::cmp::PartialEqSpecImpl for ComputerInternalState {
    open spec fn obeys_eq_spec() -> bool {
        true
    }

    open spec fn eq_spec(&self, other: &ComputerInternalState) -> bool {
        self.same_as(*other)
    }
}


fn clone_opt_string(o: &Option<String>) -> (r: Option<String>)
    ensures
        r == *o,
{
    match o {
        Some(s) => Some(s.clone()),
        None => None,
    }
}

impl Clone for ComputerInternalState {
    fn clone(&self) -> (r: Self)
        ensures
            r == *self,
    {
        ComputerInternalState { label: clone_opt_string(&self.label), script: clone_opt_string(&self.script) }
    }
}

/// The declared part of a computer: its stable id and the state it should hold.
pub struct ComputerSpec {
    pub id: String,
    pub state: ComputerInternalState,
}

/// What was last observed of a computer.
pub struct ComputerStatus {
    pub state: ComputerInternalState,
    pub online: bool,
    pub last_heartbeat_unix_sec: Option<i64>,
}

/// The role a computer plays in its cluster.
pub enum ComputerKind {
    Worker,
    Gateway,
}

impl Default for ComputerKind {
    /// A computer is a worker unless declared otherwise.
    fn default() -> (r: Self)
        ensures
            r is Worker,
    {
        ComputerKind::Worker
    }
}

/// A cluster spec that declares nothing beyond the cluster's identity.
pub struct ClusterSpec {}

/// A link from a gateway to a host.
pub struct ComputerGatewayLink {
    pub host_id: String,
}

impl Clone for ComputerGatewayLink {
    fn clone(&self) -> (r: Self)
        ensures
            r == *self,
    {
        ComputerGatewayLink { host_id: self.host_id.clone() }
    }
}

/// Where a proxied request is sent on the rednet side.
#[allow(inconsistent_fields)]
pub enum RednetBackend {
    Anycast { protocol: String },
    Computer { id: String, protocol: Option<String> },
    Hostname { protocol: String, host: String },
}

impl Clone for RednetBackend {
    fn clone(&self) -> (r: Self)
        ensures
            r == *self,
    {
        match self {
            RednetBackend::Anycast { protocol } => RednetBackend::Anycast { protocol: protocol.clone() },
            RednetBackend::Computer { id, protocol } => RednetBackend::Computer {
                id: id.clone(),
                protocol: clone_opt_string(protocol),
            },
            RednetBackend::Hostname { protocol, host } => RednetBackend::Hostname {
                protocol: protocol.clone(),
                host: host.clone(),
            },
        }
    }
}

/// A route of the gateway: requests whose path starts with `prefix` go to `backend`.
pub struct HttpOverRednetRoute {
    pub backend: RednetBackend,
    pub prefix: String,
}

impl Clone for HttpOverRednetRoute {
    fn clone(&self) -> (r: Self)
        ensures
            r == *self,
    {
        HttpOverRednetRoute { backend: self.backend.clone(), prefix: self.prefix.clone() }
    }
}

/// What a gateway declares: its routes, in order, and its links.
pub struct ComputerGatewaySpec {
    pub routes: Vec<HttpOverRednetRoute>,
    pub links: Vec<ComputerGatewayLink>,
}

impl Clone for ComputerGatewaySpec {
    fn clone(&self) -> (r: Self)
        ensures
            r.routes@ == self.routes@,
            r.links@ == self.links@,
    {
        let routes = self.routes.clone();
        let links = self.links.clone();
        assert(routes@ =~= self.routes@);
        assert(links@ =~= self.links@);
        ComputerGatewaySpec { routes, links }
    }
}

/// What a cluster declares: optionally, the gateway it should have.
pub struct ComputerClusterSpec {
    pub gateway: Option<ComputerGatewaySpec>,
}

/// The document that a gateway hub reads its routes from.
pub struct RednetGatewayConfigMapData {
    pub routes: Vec<HttpOverRednetRoute>,
}

/// A hint to a computer that it should check its desired state again.
pub enum GatewayCommand {
    Wake { computer_id: String },
}

/// The ids of the computers that a list of commands wakes, in order.
pub open spec fn wake_ids(cmds: Seq<GatewayCommand>) -> Seq<Seq<char>> {
    cmds.map_values(|c: GatewayCommand| match c {
        GatewayCommand::Wake { computer_id } => computer_id@,
    })
}

/// A computer as the orchestrator holds it.
pub struct Computer {
    pub metadata: ObjectMeta,
    pub spec: ComputerSpec,
    pub status: Option<ComputerStatus>,
}

/// A cluster of computers as the orchestrator holds it.
pub struct ComputerCluster {
    pub metadata: ObjectMeta,
    pub spec: ComputerClusterSpec,
}

/// A gateway declaration as the orchestrator holds it.
pub struct ComputerGateway {
    pub metadata: ObjectMeta,
    pub spec: ComputerGatewaySpec,
}

} // verus!
