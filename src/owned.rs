//! The objects a cluster owns: the identity its computers act under, and its
//! gateway declaration.

use vstd::prelude::*;
use crate::api::{ComputerCluster, ComputerGateway, opt_view};
use crate::error::Error;
use crate::meta::{
    ObjectMeta, ObjectReference, OwnerReference, has_owner_fields, owner_ref_from_object_ref, owner_ref_of,
};

verus! {

/// The characters of each string, in order.
pub open spec fn views(v: Seq<String>) -> Seq<Seq<char>> {
    v.map_values(|s: String| s@)
}

/// Where a child object goes, and who owns it.
pub struct ChildMeta {
    pub name: String,
    pub namespace: String,
    pub owner: OwnerReference,
}

/// `m` places a child named `name` in `namespace`, owned by the object `owner` names.
pub open spec fn child_meta_is(m: ChildMeta, name: Seq<char>, namespace: Seq<char>, owner: ObjectReference) -> bool {
    &&& m.name@ == name
    &&& m.namespace@ == namespace
    &&& owner_ref_of(m.owner, owner)
}

impl Clone for ChildMeta {
    fn clone(&self) -> (r: Self)
        ensures
            r == *self,
    {
        ChildMeta { name: self.name.clone(), namespace: self.namespace.clone(), owner: self.owner.clone() }
    }
}

/// A permission: `verbs` on `resources` of the API groups `api_groups`.
pub struct PolicyRule {
    pub api_groups: Vec<String>,
    pub resources: Vec<String>,
    pub verbs: Vec<String>,
}

/// `r` grants exactly `verbs` on `resources` of `groups`.
pub open spec fn rule_is(r: PolicyRule, groups: Seq<Seq<char>>, resources: Seq<Seq<char>>, verbs: Seq<Seq<char>>) -> bool {
    &&& views(r.api_groups@) == groups
    &&& views(r.resources@) == resources
    &&& views(r.verbs@) == verbs
}

/// A role of the cluster's namespace and the permissions it grants.
pub struct RoleManifest {
    pub meta: ChildMeta,
    pub rules: Vec<PolicyRule>,
}

/// The account the computers of a cluster act as.
pub struct ServiceAccountManifest {
    pub meta: ChildMeta,
}

/// Grants a role to a subject.
pub struct RoleBindingManifest {
    pub meta: ChildMeta,
    pub role_kind: String,
    pub role_name: String,
    pub subject_kind: String,
    pub subject_name: String,
    pub subject_namespace: String,
}

/// A secret of the given type, with its annotations as (key, value) pairs.
pub struct SecretManifest {
    pub meta: ChildMeta,
    pub annotations: Vec<(String, String)>,
    pub secret_type: String,
}

/// The identity that the computers of a cluster act under.
pub struct ClusterRbac {
    pub role: RoleManifest,
    pub service_account: ServiceAccountManifest,
    pub role_binding: RoleBindingManifest,
    pub secret: SecretManifest,
}

/// The name shared by the identity objects of the cluster `cluster_name`.
pub open spec fn rbac_name(cluster_name: Seq<char>) -> Seq<char> {
    "computer-"@ + cluster_name
}

/// `p` is the identity of the cluster `name` in `namespace`, owned by `owner`.
pub open spec fn rbac_is(p: ClusterRbac, namespace: Seq<char>, name: Seq<char>, owner: ObjectReference) -> bool {
    let n = rbac_name(name);
    &&& child_meta_is(p.role.meta, n, namespace, owner)
    &&& p.role.rules@.len() == 2
    &&& rule_is(p.role.rules@[0], seq!["sms.dev"@], seq!["computers"@], seq!["create"@, "delete"@])
    &&& rule_is(p.role.rules@[1], seq!["sms.dev"@], seq!["computers/status"@], seq!["update"@, "patch"@])
    &&& child_meta_is(p.service_account.meta, n, namespace, owner)
    &&& child_meta_is(p.role_binding.meta, n, namespace, owner)
    &&& p.role_binding.role_kind@ == "Role"@
    &&& p.role_binding.role_name@ == n
    &&& p.role_binding.subject_kind@ == "ServiceAccount"@
    &&& p.role_binding.subject_name@ == n
    &&& p.role_binding.subject_namespace@ == namespace
    &&& child_meta_is(p.secret.meta, n, namespace, owner)
    &&& p.secret.annotations@.len() == 1
    &&& p.secret.annotations@[0].0@ == "kubernetes.io/service-account-name"@
    &&& p.secret.annotations@[0].1@ == n
    &&& p.secret.secret_type@ == "kubernetes.io/service-account-token"@
}

/// The object can be placed: it has a namespace and a name.
pub open spec fn has_place(m: ObjectMeta) -> bool {
    m.namespace is Some && m.name is Some
}

pub(crate) fn prefixed(prefix: &str, name: &str) -> (r: String)
    ensures
        r@ == prefix@ + name@,
{
    let mut r = String::from_str(prefix);
    r.append(name);
    r
}

fn strings1(a: &str) -> (r: Vec<String>)
    ensures
        views(r@) == seq![a@],
{
    let mut v: Vec<String> = Vec::new();
    v.push(String::from_str(a));
    assert(views(v@) =~= seq![a@]);
    v
}

fn strings2(a: &str, b: &str) -> (r: Vec<String>)
    ensures
        views(r@) == seq![a@, b@],
{
    let mut v: Vec<String> = Vec::new();
    v.push(String::from_str(a));
    v.push(String::from_str(b));
    assert(views(v@) =~= seq![a@, b@]);
    v
}

fn rule(group: &str, resource: &str, verb1: &str, verb2: &str) -> (r: PolicyRule)
    ensures
        rule_is(r, seq![group@], seq![resource@], seq![verb1@, verb2@]),
{
    PolicyRule { api_groups: strings1(group), resources: strings1(resource), verbs: strings2(verb1, verb2) }
}

/// Plans the identity objects of a cluster: a role that may create and delete
/// computers and update their status, a service account, the binding between
/// them, and a token secret for the account. All are named after the cluster
/// and owned by it.
pub fn create_cluster_rbac(cluster: &ComputerCluster, owner: &ObjectReference) -> (r: Result<ClusterRbac, Error>)
    ensures
        r is Ok <==> has_place(cluster.metadata) && has_owner_fields(*owner),
        match r {
            Ok(p) => rbac_is(p, cluster.metadata.namespace->0@, cluster.metadata.name->0@, *owner),
            Err(e) => e is MissingField,
        },
{
    let (namespace, cluster_name) = match (&cluster.metadata.namespace, &cluster.metadata.name) {
        (Some(ns), Some(n)) => (ns, n),
        _ => return Err(Error::MissingField),
    };
    let owner_ref = match owner_ref_from_object_ref(owner) {
        Ok(o) => o,
        Err(e) => return Err(e),
    };
    let name = prefixed("computer-", cluster_name.as_str());
    let meta = ChildMeta { name: name.clone(), namespace: namespace.clone(), owner: owner_ref };

    let mut rules: Vec<PolicyRule> = Vec::new();
    rules.push(rule("sms.dev", "computers", "create", "delete"));
    rules.push(rule("sms.dev", "computers/status", "update", "patch"));

    let mut annotations: Vec<(String, String)> = Vec::new();
    annotations.push((String::from_str("kubernetes.io/service-account-name"), name.clone()));

    Ok(ClusterRbac {
        role: RoleManifest { meta: meta.clone(), rules },
        service_account: ServiceAccountManifest { meta: meta.clone() },
        role_binding: RoleBindingManifest {
            meta: meta.clone(),
            role_kind: String::from_str("Role"),
            role_name: name.clone(),
            subject_kind: String::from_str("ServiceAccount"),
            subject_name: name.clone(),
            subject_namespace: namespace.clone(),
        },
        secret: SecretManifest {
            meta,
            annotations,
            secret_type: String::from_str("kubernetes.io/service-account-token"),
        },
    })
}

/// `g` is the gateway declaration of the cluster `cluster`: named as the cluster,
/// in its namespace, owned by it, with the routes and links the cluster declares.
pub open spec fn cluster_gateway_is(g: ComputerGateway, cluster: ComputerCluster, owner: ObjectReference) -> bool {
    let declared = cluster.spec.gateway->0;
    &&& opt_view(g.metadata.name) == opt_view(cluster.metadata.name)
    &&& opt_view(g.metadata.namespace) == opt_view(cluster.metadata.namespace)
    &&& g.metadata.uid is None
    &&& g.metadata.owner_references is Some
    &&& g.metadata.owner_references->0@.len() == 1
    &&& owner_ref_of(g.metadata.owner_references->0@[0], owner)
    &&& g.spec.routes@ == declared.routes@
    &&& g.spec.links@ == declared.links@
}

fn clone_string(s: &String) -> (r: String)
    ensures
        r == *s,
{
    s.clone()
}

/// Plans the gateway declaration of a cluster, when the cluster asks for one.
pub fn create_gateway(cluster: &ComputerCluster, owner: &ObjectReference) -> (r: Result<Option<ComputerGateway>, Error>)
    ensures
        cluster.spec.gateway is None ==> r matches Ok(None),
        cluster.spec.gateway is Some ==> (r is Ok <==> has_place(cluster.metadata) && has_owner_fields(*owner)),
        match r {
            Ok(Some(g)) => cluster.spec.gateway is Some && cluster_gateway_is(g, *cluster, *owner),
            Ok(None) => cluster.spec.gateway is None,
            Err(e) => e is MissingField,
        },
{
    let declared = match &cluster.spec.gateway {
        Some(g) => g,
        None => return Ok(None),
    };
    let (namespace, name) = match (&cluster.metadata.namespace, &cluster.metadata.name) {
        (Some(ns), Some(n)) => (ns, n),
        _ => return Err(Error::MissingField),
    };
    let owner_ref = match owner_ref_from_object_ref(owner) {
        Ok(o) => o,
        Err(e) => return Err(e),
    };
    let mut owners: Vec<OwnerReference> = Vec::new();
    owners.push(owner_ref);
    Ok(Some(ComputerGateway {
        metadata: ObjectMeta {
            name: Some(clone_string(name)),
            namespace: Some(clone_string(namespace)),
            uid: None,
            owner_references: Some(owners),
        },
        spec: declared.clone(),
    }))
}

} // verus!
