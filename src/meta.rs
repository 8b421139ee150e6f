//! Object identity: metadata, references to objects and owner references.

use vstd::prelude::*;
use crate::api::opt_view;
use crate::error::Error;

verus! {

/// A link from a child object to the object that owns it.
pub struct OwnerReference {
    pub api_version: String,
    pub kind: String,
    pub name: String,
    pub uid: String,
}

impl Clone for OwnerReference {
    fn clone(&self) -> (r: Self)
        ensures
            r == *self,
    {
        OwnerReference {
            api_version: self.api_version.clone(),
            kind: self.kind.clone(),
            name: self.name.clone(),
            uid: self.uid.clone(),
        }
    }
}

/// A reference to an object, any field of which may be unknown.
pub struct ObjectReference {
    pub api_version: Option<String>,
    pub kind: Option<String>,
    pub name: Option<String>,
    pub namespace: Option<String>,
    pub uid: Option<String>,
}

/// The metadata of an object that the reconcilers read or write.
pub struct ObjectMeta {
    pub name: Option<String>,
    pub namespace: Option<String>,
    pub uid: Option<String>,
    pub owner_references: Option<Vec<OwnerReference>>,
}

/// An owner reference can be derived from `o` when it names all four identity fields.
pub open spec fn has_owner_fields(o: ObjectReference) -> bool {
    &&& o.api_version is Some
    &&& o.kind is Some
    &&& o.name is Some
    &&& o.uid is Some
}

/// `r` carries the four identity fields of `o` unchanged.
pub open spec fn owner_ref_of(r: OwnerReference, o: ObjectReference) -> bool {
    &&& Some(r.api_version@) == opt_view(o.api_version)
    &&& Some(r.kind@) == opt_view(o.kind)
    &&& Some(r.name@) == opt_view(o.name)
    &&& Some(r.uid@) == opt_view(o.uid)
}

/// The value of a field that an owner reference needs.
fn required(field: &Option<String>) -> (r: Result<String, Error>)
    ensures
        match r {
            Ok(s) => Some(s@) == opt_view(*field),
            Err(e) => field is None && e is MissingField,
        },
{
    match field {
        Some(s) => Ok(s.clone()),
        None => Err(Error::MissingField),
    }
}

/// Derives the owner reference that points at the object `object_ref` names.
pub fn owner_ref_from_object_ref(object_ref: &ObjectReference) -> (r: Result<OwnerReference, Error>)
    ensures
        r is Ok <==> has_owner_fields(*object_ref),
        match r {
            Ok(o) => owner_ref_of(o, *object_ref),
            Err(e) => e is MissingField,
        },
{
    let api_version = match required(&object_ref.api_version) {
        Ok(s) => s,
        Err(e) => return Err(e),
    };
    let kind = match required(&object_ref.kind) {
        Ok(s) => s,
        Err(e) => return Err(e),
    };
    let name = match required(&object_ref.name) {
        Ok(s) => s,
        Err(e) => return Err(e),
    };
    let uid = match required(&object_ref.uid) {
        Ok(s) => s,
        Err(e) => return Err(e),
    };
    Ok(OwnerReference { api_version, kind, name, uid })
}

} // verus!
