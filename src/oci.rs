//! The OCI image documents: descriptors, image manifests and indexes, and
//! the references from a manifest to the artifacts it depends on.

use std::collections::HashMap;
use vstd::prelude::*;

use crate::channel::{DataType, Ref, RefView};
use crate::digest::wire_form;
use crate::types::MediaType;

verus! {

/// The platform that an image in an index runs on.
#[derive(Debug, Clone)]
pub struct Platform {
    pub architecture: String,
    pub os: String,
    pub os_version: Option<String>,
    pub os_features: Option<Vec<String>>,
    pub variant: Option<String>,
    pub features: Option<Vec<String>>,
}

/// A pointer to content: its media type, size and digest.
#[derive(Debug, Clone)]
pub struct Descriptor {
    pub media_type: MediaType,
    pub size: i64,
    pub digest: crate::digest::Hash,
    pub urls: Option<Vec<String>>,
    pub annotations: Option<HashMap<String, String>>,
    pub platform: Option<Platform>,
}

/// A single-image manifest: a config blob and an ordered list of layers.
#[derive(Debug)]
pub struct Manifest {
    pub schema_version: i64,
    pub media_type: Option<MediaType>,
    pub config: Descriptor,
    pub layers: Vec<Descriptor>,
    pub annotations: Option<HashMap<String, String>>,
}

/// A multi-platform index: a list of manifests.
#[derive(Debug)]
pub struct IndexManifest {
    pub schema_version: i64,
    pub media_type: Option<MediaType>,
    pub manifests: Vec<Descriptor>,
    pub annotations: Option<HashMap<String, String>>,
}

/// The reference, in repository `ns`, to the content that `d` points at.
pub open spec fn descriptor_ref(ns: Seq<char>, kind: DataType, d: Descriptor) -> RefView {
    RefView { data_type: kind, repo: ns, identifier: wire_form(d.digest.algorithm@, d.digest.hex@) }
}

/// The blobs an image manifest depends on: its layers in order, then its
/// config.
pub open spec fn image_refs(ns: Seq<char>, m: Manifest) -> Seq<RefView> {
    m.layers@.map_values(|d: Descriptor| descriptor_ref(ns, DataType::Blob, d)).push(
        descriptor_ref(ns, DataType::Blob, m.config),
    )
}

/// The manifests an index depends on, in order.
pub open spec fn index_refs(ns: Seq<char>, m: IndexManifest) -> Seq<RefView> {
    m.manifests@.map_values(|d: Descriptor| descriptor_ref(ns, DataType::Manifest, d))
}

/// The references, of kind `kind` in repository `ns`, to the content that
/// each of `ds` points at.
pub fn descriptor_refs(ns: &String, kind: DataType, ds: &Vec<Descriptor>) -> (r: Vec<Ref>)
    ensures
        r@.map_values(|x: Ref| x@) == ds@.map_values(|d: Descriptor| descriptor_ref(ns@, kind, d)),
{
    let mut r: Vec<Ref> = Vec::new();
    let mut i: usize = 0;
    while i < ds.len()
        invariant
            i <= ds.len(),
            r.len() == i,
            forall|j: int| 0 <= j < i ==> (#[trigger] r@[j])@ == descriptor_ref(ns@, kind, ds@[j]),
        decreases ds.len() - i,
    {
        let identifier = ds[i].digest.serialize();
        r.push(Ref { data_type: kind, repo: ns.clone(), identifier });
        i = i + 1;
    }
    proof {
        assert(r@.map_values(|x: Ref| x@) =~= ds@.map_values(
            |d: Descriptor| descriptor_ref(ns@, kind, d),
        ));
    }
    r
}

impl Manifest {
    /// The blobs this manifest depends on, in repository `ns`.
    pub fn refs(&self, ns: &String) -> (r: Vec<Ref>)
        ensures
            r@.map_values(|x: Ref| x@) == image_refs(ns@, *self),
    {
        let mut r = descriptor_refs(ns, DataType::Blob, &self.layers);
        let ghost front = r@;
        let identifier = self.config.digest.serialize();
        r.push(Ref { data_type: DataType::Blob, repo: ns.clone(), identifier });
        proof {
            assert(r@.map_values(|x: Ref| x@) =~= front.map_values(|x: Ref| x@).push(
                descriptor_ref(ns@, DataType::Blob, self.config),
            ));
        }
        r
    }
}

impl IndexManifest {
    /// The manifests this index depends on, in repository `ns`.
    pub fn refs(&self, ns: &String) -> (r: Vec<Ref>)
        ensures
            r@.map_values(|x: Ref| x@) == index_refs(ns@, *self),
    {
        descriptor_refs(ns, DataType::Manifest, &self.manifests)
    }
}

} // verus!
