//! The gateway reconciler's plan: the hub that serves a gateway declaration.

use vstd::prelude::*;
use crate::api::{ComputerGateway, HttpOverRednetRoute, RednetGatewayConfigMapData};
use crate::cluster::{Action, STEADY_REQUEUE_SECS};
use crate::error::Error;
use crate::meta::{ObjectReference, has_owner_fields, owner_ref_from_object_ref};
use crate::owned::{ChildMeta, child_meta_is, has_place, prefixed};

verus! {

/// The image a hub runs when none is configured.
pub open spec fn default_image() -> Seq<char> {
    "registry.digitalocean.com/suremarc/computercraft-gateway:latest"@
}

/// The port a hub listens on and its service exposes.
pub const HUB_PORT: i32 = 8000;

/// An environment variable of the hub's container.
pub struct EnvVar {
    pub name: String,
    pub value: String,
}

/// The document the hub reads its routes from, stored under `key`.
pub struct ConfigMapManifest {
    pub meta: ChildMeta,
    pub key: String,
    pub document: RednetGatewayConfigMapData,
}

/// One replica of the hub, with the config document mounted.
pub struct DeploymentManifest {
    pub meta: ChildMeta,
    pub replicas: i32,
    pub app_label: String,
    pub container_name: String,
    pub image: String,
    pub env: Vec<EnvVar>,
    pub volume_name: String,
    pub mount_path: String,
    pub config_map_name: String,
}

/// The service in front of the hub.
pub struct ServiceManifest {
    pub meta: ChildMeta,
    pub app_label: String,
    pub port: i32,
    pub target_port: i32,
    pub service_type: String,
}

/// The HTTP route that sends the gateway's path prefix to the hub's service.
pub struct HttpRouteManifest {
    pub meta: ChildMeta,
    pub parent_name: String,
    pub parent_namespace: String,
    pub parent_section: String,
    pub path_prefix: String,
    pub redirect_prefix: String,
    pub redirect_status: i64,
    pub backend_name: String,
    pub backend_port: i32,
}

/// Everything that serves one gateway declaration.
pub struct GatewayHub {
    pub config_map: ConfigMapManifest,
    pub deployment: DeploymentManifest,
    pub service: ServiceManifest,
    pub route: HttpRouteManifest,
}

/// The name of the hub of the gateway `gateway_name`.
pub open spec fn hub_name(gateway_name: Seq<char>) -> Seq<char> {
    "rednet-gateway-"@ + gateway_name
}

/// The image a hub runs: the configured one, else the default.
pub open spec fn image_of(configured: Option<String>) -> Seq<char> {
    match configured {
        Some(s) => s@,
        None => default_image(),
    }
}

/// The variable at `i` of `e` is `name` set to `value`.
pub open spec fn env_is(e: Seq<EnvVar>, i: int, name: Seq<char>, value: Seq<char>) -> bool {
    e[i].name@ == name && e[i].value@ == value
}

/// `h` is the hub of the gateway `name` in `namespace`, owned by `owner`, with
/// its route's parent in `controller_namespace`.
pub open spec fn hub_is(
    h: GatewayHub,
    namespace: Seq<char>,
    name: Seq<char>,
    owner: ObjectReference,
    controller_namespace: Seq<char>,
    routes: Seq<HttpOverRednetRoute>,
    image: Option<String>,
) -> bool {
    let n = hub_name(name);
    &&& child_meta_is(h.config_map.meta, n, namespace, owner)
    &&& h.config_map.key@ == "rednet"@
    &&& h.config_map.document.routes@ == routes
    &&& child_meta_is(h.deployment.meta, n, namespace, owner)
    &&& h.deployment.replicas == 1
    &&& h.deployment.app_label@ == n
    &&& h.deployment.container_name@ == "rednet-gateway"@
    &&& h.deployment.image@ == image_of(image)
    &&& h.deployment.env@.len() == 2
    &&& env_is(h.deployment.env@, 0, "ROCKET_REDNET"@, "/etc/config/rednet"@)
    &&& env_is(h.deployment.env@, 1, "ROCKET_ADDRESS"@, "0.0.0.0"@)
    &&& h.deployment.volume_name@ == "config"@
    &&& h.deployment.mount_path@ == "/etc/config"@
    &&& h.deployment.config_map_name@ == n
    &&& child_meta_is(h.service.meta, n, namespace, owner)
    &&& h.service.app_label@ == n
    &&& h.service.port == HUB_PORT
    &&& h.service.target_port == HUB_PORT
    &&& h.service.service_type@ == "ClusterIP"@
    &&& child_meta_is(h.route.meta, n, namespace, owner)
    &&& h.route.parent_name@ == "cc-gateway"@
    &&& h.route.parent_namespace@ == controller_namespace
    &&& h.route.parent_section@ == "cc-gateway"@
    &&& h.route.path_prefix@ == "/"@ + name
    &&& h.route.redirect_prefix@ == "/"@
    &&& h.route.redirect_status == 302
    &&& h.route.backend_name@ == n
    &&& h.route.backend_port == HUB_PORT
}

fn env_var(name: &str, value: &str) -> (r: EnvVar)
    ensures
        r.name@ == name@,
        r.value@ == value@,
{
    EnvVar { name: String::from_str(name), value: String::from_str(value) }
}

/// The image a hub runs: `configured` when set, else the default image.
pub fn gateway_image(configured: Option<String>) -> (r: String)
    ensures
        r@ == image_of(configured),
{
    match configured {
        Some(s) => s,
        None => String::from_str("registry.digitalocean.com/suremarc/computercraft-gateway:latest"),
    }
}

/// Plans the hub of a gateway declaration: a config document holding its routes,
/// a deployment of one replica that reads it, a service on the hub's port, and an
/// HTTP route from the gateway's path prefix to that service. All are named after
/// the gateway and owned by it.
pub fn create_gateway_hub(
    gateway: &ComputerGateway,
    owner: &ObjectReference,
    controller_namespace: &str,
    image: Option<String>,
) -> (r: Result<GatewayHub, Error>)
    ensures
        r is Ok <==> has_place(gateway.metadata) && has_owner_fields(*owner),
        match r {
            Ok(h) => hub_is(
                h,
                gateway.metadata.namespace->0@,
                gateway.metadata.name->0@,
                *owner,
                controller_namespace@,
                gateway.spec.routes@,
                image,
            ),
            Err(e) => e is MissingField,
        },
{
    let (namespace, gateway_name) = match (&gateway.metadata.namespace, &gateway.metadata.name) {
        (Some(ns), Some(n)) => (ns, n),
        _ => return Err(Error::MissingField),
    };
    let owner_ref = match owner_ref_from_object_ref(owner) {
        Ok(o) => o,
        Err(e) => return Err(e),
    };
    let name = prefixed("rednet-gateway-", gateway_name.as_str());
    let meta = ChildMeta { name: name.clone(), namespace: namespace.clone(), owner: owner_ref };

    let routes = gateway.spec.routes.clone();
    assert(routes@ =~= gateway.spec.routes@);
    let config_map = ConfigMapManifest {
        meta: meta.clone(),
        key: String::from_str("rednet"),
        document: RednetGatewayConfigMapData { routes },
    };

    let mut env: Vec<EnvVar> = Vec::new();
    env.push(env_var("ROCKET_REDNET", "/etc/config/rednet"));
    env.push(env_var("ROCKET_ADDRESS", "0.0.0.0"));
    let deployment = DeploymentManifest {
        meta: meta.clone(),
        replicas: 1,
        app_label: name.clone(),
        container_name: String::from_str("rednet-gateway"),
        image: gateway_image(image),
        env,
        volume_name: String::from_str("config"),
        mount_path: String::from_str("/etc/config"),
        config_map_name: name.clone(),
    };

    let service = ServiceManifest {
        meta: meta.clone(),
        app_label: name.clone(),
        port: HUB_PORT,
        target_port: HUB_PORT,
        service_type: String::from_str("ClusterIP"),
    };

    let route = HttpRouteManifest {
        meta,
        parent_name: String::from_str("cc-gateway"),
        parent_namespace: String::from_str(controller_namespace),
        parent_section: String::from_str("cc-gateway"),
        path_prefix: prefixed("/", gateway_name.as_str()),
        redirect_prefix: String::from_str("/"),
        redirect_status: 302,
        backend_name: name.clone(),
        backend_port: HUB_PORT,
    };

    Ok(GatewayHub { config_map, deployment, service, route })
}

/// When to look at a gateway again after a pass that succeeded.
pub fn hub_action() -> (r: Action)
    ensures
        r.requeue_after_secs == STEADY_REQUEUE_SECS,
{
    Action::requeue(STEADY_REQUEUE_SECS)
}

} // verus!
