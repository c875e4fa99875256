//! Manifests: the documents that describe the desired state.

use crate::document::{documents_agree, same_document};
use crate::keys::{entity_key, gen_key};
use crate::model::EntityKind;
use crate::text::{same_text, texts};
use vstd::prelude::*;
use vstd::string::*;

verus! {

/// The kinds of object that a manifest can list.
#[derive(Debug, Clone, Copy, PartialEq, Eq, Structural)]
pub enum ObjectKind {
    Namespace,
    Cargo,
    Resource,
    Vm,
}

impl ObjectKind {
    /// When objects of this kind are applied: namespaces first, then
    /// resources, then cargoes and virtual machines.
    pub open spec fn rank(self) -> int {
        match self {
            ObjectKind::Namespace => 0,
            ObjectKind::Resource => 1,
            ObjectKind::Cargo => 2,
            ObjectKind::Vm => 2,
        }
    }

    /// The kind of entity that an object of this kind describes; a namespace is no entity.
    pub open spec fn entity_kind(self) -> Option<EntityKind> {
        match self {
            ObjectKind::Namespace => None,
            ObjectKind::Cargo => Some(EntityKind::Cargo),
            ObjectKind::Resource => Some(EntityKind::Resource),
            ObjectKind::Vm => Some(EntityKind::Vm),
        }
    }

    /// When objects of this kind are applied: see [`ObjectKind::rank`].
    pub fn stage(&self) -> (rank: u8)
        ensures
            rank == self.rank(),
    {
        match self {
            ObjectKind::Namespace => 0,
            ObjectKind::Resource => 1,
            ObjectKind::Cargo => 2,
            ObjectKind::Vm => 2,
        }
    }

    /// The kind of entity that an object of this kind describes.
    pub fn as_entity_kind(&self) -> (kind: Option<EntityKind>)
        ensures
            kind == self.entity_kind(),
    {
        match self {
            ObjectKind::Namespace => None,
            ObjectKind::Cargo => Some(EntityKind::Cargo),
            ObjectKind::Resource => Some(EntityKind::Resource),
            ObjectKind::Vm => Some(EntityKind::Vm),
        }
    }
}

/// One object of a manifest.
#[derive(Debug, PartialEq, Eq)]
pub struct ManifestObject {
    pub kind: ObjectKind,
    /// The namespace of an entity. A namespace object has none.
    pub namespace: String,
    pub name: String,
    /// The label of the schema that `spec` follows.
    pub schema_version: String,
    /// The desired configuration document.
    pub spec: String,
}

/// One object of a manifest, as a value.
pub struct ObjectModel {
    pub kind: ObjectKind,
    pub namespace: Seq<char>,
    pub name: Seq<char>,
    pub schema_version: Seq<char>,
    pub spec: Seq<char>,
}

impl ObjectModel {
    /// An object is well formed when it has a name and, unless it is a
    /// namespace, a namespace.
    pub open spec fn well_formed(self) -> bool {
        &&& self.name.len() > 0
        &&& self.kind != ObjectKind::Namespace ==> self.namespace.len() > 0
    }

    /// The key of the entity that the object describes.
    pub open spec fn key(self) -> Seq<char> {
        entity_key(self.namespace, self.name)
    }

    /// Whether the object describes an entity.
    pub open spec fn is_entity(self) -> bool {
        self.kind != ObjectKind::Namespace
    }
}

impl View for ManifestObject {
    type V = ObjectModel;

    open spec fn view(&self) -> ObjectModel {
        ObjectModel {
            kind: self.kind,
            namespace: self.namespace@,
            name: self.name@,
            schema_version: self.schema_version@,
            spec: self.spec@,
        }
    }
}

impl Clone for ManifestObject {
    fn clone(&self) -> (copy: ManifestObject)
        ensures
            copy == *self,
    {
        ManifestObject {
            kind: self.kind,
            namespace: self.namespace.clone(),
            name: self.name.clone(),
            schema_version: self.schema_version.clone(),
            spec: self.spec.clone(),
        }
    }
}

impl ManifestObject {
    /// Whether the object is well formed: see [`ObjectModel::well_formed`].
    pub fn is_well_formed(&self) -> (yes: bool)
        ensures
            yes == self@.well_formed(),
    {
        let named = self.name.as_str().unicode_len() > 0;
        match self.kind {
            ObjectKind::Namespace => named,
            _ => named && self.namespace.as_str().unicode_len() > 0,
        }
    }

    /// The key of the entity that the object describes.
    pub fn key(&self) -> (key: String)
        ensures
            key@ == self@.key(),
    {
        gen_key(self.namespace.as_str(), self.name.as_str())
    }
}

/// The objects of one stage, as a predicate.
pub open spec fn of_rank(rank: int) -> spec_fn(ObjectModel) -> bool {
    |object: ObjectModel| object.kind.rank() == rank
}

/// The objects in the order in which they are applied: namespaces, then
/// resources, then cargoes and virtual machines, each group in the order of the manifest.
pub open spec fn ordered(objects: Seq<ObjectModel>) -> Seq<ObjectModel> {
    objects.filter(of_rank(0)) + objects.filter(of_rank(1)) + objects.filter(of_rank(2))
}

/// The views of a sequence of objects.
pub open spec fn object_models(objects: Seq<ManifestObject>) -> Seq<ObjectModel> {
    Seq::new(objects.len(), |i: int| objects[i]@)
}

/// The objects that describe an entity, as a predicate.
pub open spec fn describes_entity() -> spec_fn(ObjectModel) -> bool {
    |object: ObjectModel| object.is_entity()
}

/// The key of each object, read as an entity.
pub open spec fn keys_of(objects: Seq<ObjectModel>) -> Seq<Seq<char>> {
    Seq::new(objects.len(), |i: int| objects[i].key())
}

/// The keys of the entities that the objects describe, in the order of the objects.
pub open spec fn entity_keys(objects: Seq<ObjectModel>) -> Seq<Seq<char>> {
    keys_of(objects.filter(describes_entity()))
}

/// Whether two objects do not describe one entity in two ways.
pub open spec fn agree(a: ObjectModel, b: ObjectModel) -> bool {
    a.is_entity() && b.is_entity() && a.key() == b.key() ==> same_document(a.spec, b.spec)
}

/// Whether no two of the objects describe one entity in two ways.
pub open spec fn consistent(objects: Seq<ObjectModel>) -> bool {
    forall|i: int, j: int|
        0 <= i < objects.len() && 0 <= j < objects.len() ==> agree(
            #[trigger] objects[i],
            #[trigger] objects[j],
        )
}

/// A desired state: objects in the order in which their author wrote them.
#[derive(Debug, PartialEq, Eq)]
pub struct Manifest {
    pub objects: Vec<ManifestObject>,
}

impl View for Manifest {
    type V = Seq<ObjectModel>;

    open spec fn view(&self) -> Seq<ObjectModel> {
        object_models(self.objects@)
    }
}

impl Manifest {
    /// Adds to `out` the objects of one stage, in the order of the manifest.
    fn collect(&self, rank: u8, out: &mut Vec<ManifestObject>)
        ensures
            object_models(final(out)@) == object_models(old(out)@) + self@.filter(
                of_rank(rank as int),
            ),
    {
        let mut i: usize = 0;
        while i < self.objects.len()
            invariant
                i <= self.objects@.len(),
                object_models(out@) == object_models(old(out)@) + self@.take(i as int).filter(
                    of_rank(rank as int),
                ),
            decreases self.objects@.len() - i,
        {
            let ghost object = self@[i as int];
            let ghost before = out@;
            proof {
                assert(self@.take(i + 1) =~= self@.take(i as int).push(object));
                self@.take(i as int).lemma_filter_push(object, of_rank(rank as int));
            }
            if self.objects[i].kind.stage() == rank {
                out.push(self.objects[i].clone());
                assert(object_models(out@) =~= object_models(before).push(object));
            }
            i += 1;
        }
        assert(self@.take(i as int) =~= self@);
    }

    /// The keys of the entities that the manifest describes, in its order.
    pub fn entity_keys(&self) -> (keys: Vec<String>)
        ensures
            texts(keys@) == entity_keys(self@),
    {
        let mut keys: Vec<String> = Vec::new();
        let mut i: usize = 0;
        while i < self.objects.len()
            invariant
                i <= self.objects@.len(),
                texts(keys@) == entity_keys(self@.take(i as int)),
            decreases self.objects@.len() - i,
        {
            let ghost object = self@[i as int];
            let ghost before = keys@;
            proof {
                assert(self@.take(i + 1) =~= self@.take(i as int).push(object));
                self@.take(i as int).lemma_filter_push(object, describes_entity());
            }
            match self.objects[i].kind {
                ObjectKind::Namespace => {},
                _ => {
                    keys.push(self.objects[i].key());
                    assert(texts(keys@) =~= texts(before).push(object.key()));
                },
            }
            i += 1;
        }
        assert(self@.take(i as int) =~= self@);
        keys
    }

    /// Whether no two objects of the manifest describe one entity in two
    /// ways: see [`consistent`].
    pub fn is_consistent(&self) -> (yes: bool)
        ensures
            yes == consistent(self@),
    {
        let n = self.objects.len();
        let mut i: usize = 0;
        while i < n
            invariant
                n == self.objects@.len(),
                i <= n,
                forall|a: int, b: int|
                    0 <= a < i && 0 <= b < n ==> agree(#[trigger] self@[a], #[trigger] self@[b]),
            decreases n - i,
        {
            let mut j: usize = 0;
            while j < n
                invariant
                    n == self.objects@.len(),
                    i < n,
                    j <= n,
                    forall|b: int| 0 <= b < j ==> agree(self@[i as int], #[trigger] self@[b]),
                decreases n - j,
            {
                let first = &self.objects[i];
                let second = &self.objects[j];
                let both = match (first.kind, second.kind) {
                    (ObjectKind::Namespace, _) => false,
                    (_, ObjectKind::Namespace) => false,
                    _ => true,
                };
                if both && same_text(first.key().as_str(), second.key().as_str())
                    && !documents_agree(first.spec.as_str(), second.spec.as_str()) {
                    assert(!agree(self@[i as int], self@[j as int]));
                    return false;
                }
                j += 1;
            }
            i += 1;
        }
        true
    }

    /// The objects in the order in which they are applied: see [`ordered`].
    pub fn ordered(&self) -> (objects: Vec<ManifestObject>)
        ensures
            object_models(objects@) == ordered(self@),
    {
        let mut objects: Vec<ManifestObject> = Vec::new();
        self.collect(0, &mut objects);
        self.collect(1, &mut objects);
        self.collect(2, &mut objects);
        objects
    }
}

} // verus!
