use computercraft_k8s::api::{
    ComputerCluster, ComputerClusterSpec, ComputerGateway, ComputerGatewayLink, ComputerGatewaySpec,
    HttpOverRednetRoute, RednetBackend,
};
use computercraft_k8s::error::Error;
use computercraft_k8s::hub::{create_gateway_hub, gateway_image, hub_action};
use computercraft_k8s::meta::{owner_ref_from_object_ref, ObjectMeta, ObjectReference};
use computercraft_k8s::owned::{create_cluster_rbac, create_gateway};

fn object_ref() -> ObjectReference {
    ObjectReference {
        api_version: Some("smcs.dev/v1".to_string()),
        kind: Some("ComputerCluster".to_string()),
        name: Some("cl".to_string()),
        namespace: Some("ns".to_string()),
        uid: Some("U".to_string()),
    }
}

fn meta(name: &str) -> ObjectMeta {
    ObjectMeta {
        name: Some(name.to_string()),
        namespace: Some("ns".to_string()),
        uid: Some("U".to_string()),
        owner_references: None,
    }
}

fn routes() -> Vec<HttpOverRednetRoute> {
    vec![
        HttpOverRednetRoute {
            prefix: "/hello".to_string(),
            backend: RednetBackend::Anycast { protocol: "echo".to_string() },
        },
        HttpOverRednetRoute {
            prefix: "/".to_string(),
            backend: RednetBackend::Hostname { protocol: "http".to_string(), host: "h".to_string() },
        },
    ]
}

#[test]
fn owner_ref_keeps_all_four_fields() {
    let o = owner_ref_from_object_ref(&object_ref()).ok().unwrap();
    assert_eq!(o.api_version, "smcs.dev/v1");
    assert_eq!(o.kind, "ComputerCluster");
    assert_eq!(o.name, "cl");
    assert_eq!(o.uid, "U");
}

#[test]
fn owner_ref_missing_any_field_fails() {
    for k in 0..4 {
        let mut r = object_ref();
        match k {
            0 => r.api_version = None,
            1 => r.kind = None,
            2 => r.name = None,
            _ => r.uid = None,
        }
        assert!(matches!(owner_ref_from_object_ref(&r), Err(Error::MissingField)));
    }
    let mut r = object_ref();
    r.namespace = None;
    assert!(owner_ref_from_object_ref(&r).is_ok());
}

#[test]
fn cluster_rbac_is_named_after_the_cluster() {
    let c = ComputerCluster { metadata: meta("cl"), spec: ComputerClusterSpec { gateway: None } };
    let p = create_cluster_rbac(&c, &object_ref()).ok().unwrap();
    assert_eq!(p.role.meta.name, "computer-cl");
    assert_eq!(p.role.meta.namespace, "ns");
    assert_eq!(p.role.meta.owner.uid, "U");
    assert_eq!(p.role.rules.len(), 2);
    assert_eq!(p.role.rules[0].api_groups, vec!["sms.dev".to_string()]);
    assert_eq!(p.role.rules[0].resources, vec!["computers".to_string()]);
    assert_eq!(p.role.rules[0].verbs, vec!["create".to_string(), "delete".to_string()]);
    assert_eq!(p.role.rules[1].resources, vec!["computers/status".to_string()]);
    assert_eq!(p.role.rules[1].verbs, vec!["update".to_string(), "patch".to_string()]);
    assert_eq!(p.service_account.meta.name, "computer-cl");
    assert_eq!(p.role_binding.role_kind, "Role");
    assert_eq!(p.role_binding.role_name, "computer-cl");
    assert_eq!(p.role_binding.subject_kind, "ServiceAccount");
    assert_eq!(p.role_binding.subject_name, "computer-cl");
    assert_eq!(p.role_binding.subject_namespace, "ns");
    assert_eq!(p.secret.meta.name, "computer-cl");
    assert_eq!(
        p.secret.annotations,
        vec![("kubernetes.io/service-account-name".to_string(), "computer-cl".to_string())]
    );
    assert_eq!(p.secret.secret_type, "kubernetes.io/service-account-token");
}

#[test]
fn cluster_rbac_needs_a_place_and_an_owner() {
    let mut c = ComputerCluster { metadata: meta("cl"), spec: ComputerClusterSpec { gateway: None } };
    c.metadata.namespace = None;
    assert!(matches!(create_cluster_rbac(&c, &object_ref()), Err(Error::MissingField)));
    let c = ComputerCluster { metadata: meta("cl"), spec: ComputerClusterSpec { gateway: None } };
    let mut r = object_ref();
    r.uid = None;
    assert!(matches!(create_cluster_rbac(&c, &r), Err(Error::MissingField)));
}

#[test]
fn cluster_without_gateway_plans_none() {
    let c = ComputerCluster { metadata: meta("cl"), spec: ComputerClusterSpec { gateway: None } };
    assert!(matches!(create_gateway(&c, &object_ref()), Ok(None)));
}

#[test]
fn cluster_gateway_copies_the_declared_spec() {
    let spec = ComputerGatewaySpec {
        routes: routes(),
        links: vec![ComputerGatewayLink { host_id: "h1".to_string() }],
    };
    let c = ComputerCluster { metadata: meta("cl"), spec: ComputerClusterSpec { gateway: Some(spec) } };
    let g = create_gateway(&c, &object_ref()).ok().unwrap().unwrap();
    assert_eq!(g.metadata.name.as_deref(), Some("cl"));
    assert_eq!(g.metadata.namespace.as_deref(), Some("ns"));
    let owners = g.metadata.owner_references.unwrap();
    assert_eq!(owners.len(), 1);
    assert_eq!(owners[0].kind, "ComputerCluster");
    assert_eq!(g.spec.routes.len(), 2);
    assert_eq!(g.spec.routes[0].prefix, "/hello");
    assert_eq!(g.spec.links[0].host_id, "h1");
}

#[test]
fn gateway_hub_plan() {
    let g = ComputerGateway { metadata: meta("gw"), spec: ComputerGatewaySpec { routes: routes(), links: vec![] } };
    let h = create_gateway_hub(&g, &object_ref(), "ctl", None).ok().unwrap();
    assert_eq!(h.config_map.meta.name, "rednet-gateway-gw");
    assert_eq!(h.config_map.key, "rednet");
    assert_eq!(h.config_map.document.routes.len(), 2);
    assert_eq!(h.config_map.document.routes[1].prefix, "/");
    assert_eq!(h.deployment.replicas, 1);
    assert_eq!(h.deployment.app_label, "rednet-gateway-gw");
    assert_eq!(h.deployment.image, "registry.digitalocean.com/suremarc/computercraft-gateway:latest");
    assert_eq!(h.deployment.env[0].name, "ROCKET_REDNET");
    assert_eq!(h.deployment.env[0].value, "/etc/config/rednet");
    assert_eq!(h.deployment.mount_path, "/etc/config");
    assert_eq!(h.deployment.config_map_name, "rednet-gateway-gw");
    assert_eq!(h.service.port, 8000);
    assert_eq!(h.service.target_port, 8000);
    assert_eq!(h.service.service_type, "ClusterIP");
    assert_eq!(h.route.parent_name, "cc-gateway");
    assert_eq!(h.route.parent_namespace, "ctl");
    assert_eq!(h.route.path_prefix, "/gw");
    assert_eq!(h.route.backend_name, "rednet-gateway-gw");
    assert_eq!(h.route.backend_port, 8000);
    assert_eq!(hub_action().requeue_after_secs, 300);
}

#[test]
fn gateway_hub_uses_configured_image() {
    let g = ComputerGateway { metadata: meta("gw"), spec: ComputerGatewaySpec { routes: vec![], links: vec![] } };
    let h = create_gateway_hub(&g, &object_ref(), "ctl", Some("img:1".to_string())).ok().unwrap();
    assert_eq!(h.deployment.image, "img:1");
    assert_eq!(gateway_image(None), "registry.digitalocean.com/suremarc/computercraft-gateway:latest");
}

#[test]
fn gateway_hub_needs_a_name() {
    let mut g = ComputerGateway { metadata: meta("gw"), spec: ComputerGatewaySpec { routes: vec![], links: vec![] } };
    g.metadata.name = None;
    assert!(matches!(create_gateway_hub(&g, &object_ref(), "ctl", None), Err(Error::MissingField)));
}
