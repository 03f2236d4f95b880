//! The closed set of OCI and Docker media types, with the predicates that
//! decide how a manifest is read.

use vstd::prelude::*;

use crate::text::same_text;

verus! {

/// What a media type is used for.
pub trait Media {
    spec fn non_distributable_kind(&self) -> bool;

    spec fn image_kind(&self) -> bool;

    spec fn index_kind(&self) -> bool;

    /// Whether this is one of the layer types that may not be distributed.
    fn is_distributable(&self) -> (r: bool)
        ensures
            r == self.non_distributable_kind(),
    ;

    /// Whether this is a single-image manifest type.
    fn is_image(&self) -> (r: bool)
        ensures
            r == self.image_kind(),
    ;

    /// Whether this is a multi-platform index type.
    fn is_index(&self) -> (r: bool)
        ensures
            r == self.index_kind(),
    ;
}

/// An OCI or Docker content type.
#[derive(Debug, Clone, Copy, PartialEq, Eq, Structural)]
pub enum MediaType {
    OCIContentDescriptor,
    OCIImageIndex,
    OCIManifestSchema1,
    OCIConfigJSON,
    OCILayer,
    OCIRestrictedLayer,
    OCIUncompressedLayer,
    OCIUncompressedRestrictedLayer,
    DockerManifestSchema1,
    DockerManifestSchema1Signed,
    DockerManifestSchema2,
    DockerManifestList,
    DockerLayer,
    DockerConfigJSON,
    DockerPluginConfig,
    DockerForeignLayer,
    DockerUncompressedLayer,
}

/// The media type's name on the wire.
pub open spec fn media_type_text(m: MediaType) -> Seq<char> {
    match m {
        MediaType::OCIContentDescriptor => "application/vnd.oci.descriptor.v1+json"@,
        MediaType::OCIImageIndex => "application/vnd.oci.image.index.v1+json"@,
        MediaType::OCIManifestSchema1 => "application/vnd.oci.image.manifest.v1+json"@,
        MediaType::OCIConfigJSON => "application/vnd.oci.image.config.v1+json"@,
        MediaType::OCILayer => "application/vnd.oci.image.layer.v1.tar+gzip"@,
        MediaType::OCIRestrictedLayer => "application/vnd.oci.image.layer.nondistributable.v1.tar+gzip"@,
        MediaType::OCIUncompressedLayer => "application/vnd.oci.image.layer.v1.tar"@,
        MediaType::OCIUncompressedRestrictedLayer => "application/vnd.oci.image.layer.nondistributable.v1.tar"@,
        MediaType::DockerManifestSchema1 => "application/vnd.docker.distribution.manifest.v1+json"@,
        MediaType::DockerManifestSchema1Signed => "application/vnd.docker.distribution.manifest.v1+prettyjws"@,
        MediaType::DockerManifestSchema2 => "application/vnd.docker.distribution.manifest.v2+json"@,
        MediaType::DockerManifestList => "application/vnd.docker.distribution.manifest.list.v2+json"@,
        MediaType::DockerLayer => "application/vnd.docker.image.rootfs.diff.tar.gzip"@,
        MediaType::DockerConfigJSON => "application/vnd.docker.container.image.v1+json"@,
        MediaType::DockerPluginConfig => "application/vnd.docker.plugin.v1+json"@,
        MediaType::DockerForeignLayer => "application/vnd.docker.image.rootfs.foreign.diff.tar.gzip"@,
        MediaType::DockerUncompressedLayer => "application/vnd.docker.image.rootfs.diff.tar"@,
    }
}

/// The media type whose wire name is `s`, if any.
pub open spec fn media_type_from_text(s: Seq<char>) -> Option<MediaType> {
    if s == "application/vnd.oci.descriptor.v1+json"@ {
        Some(MediaType::OCIContentDescriptor)
    } else if s == "application/vnd.oci.image.index.v1+json"@ {
        Some(MediaType::OCIImageIndex)
    } else if s == "application/vnd.oci.image.manifest.v1+json"@ {
        Some(MediaType::OCIManifestSchema1)
    } else if s == "application/vnd.oci.image.config.v1+json"@ {
        Some(MediaType::OCIConfigJSON)
    } else if s == "application/vnd.oci.image.layer.v1.tar+gzip"@ {
        Some(MediaType::OCILayer)
    } else if s == "application/vnd.oci.image.layer.nondistributable.v1.tar+gzip"@ {
        Some(MediaType::OCIRestrictedLayer)
    } else if s == "application/vnd.oci.image.layer.v1.tar"@ {
        Some(MediaType::OCIUncompressedLayer)
    } else if s == "application/vnd.oci.image.layer.nondistributable.v1.tar"@ {
        Some(MediaType::OCIUncompressedRestrictedLayer)
    } else if s == "application/vnd.docker.distribution.manifest.v1+json"@ {
        Some(MediaType::DockerManifestSchema1)
    } else if s == "application/vnd.docker.distribution.manifest.v1+prettyjws"@ {
        Some(MediaType::DockerManifestSchema1Signed)
    } else if s == "application/vnd.docker.distribution.manifest.v2+json"@ {
        Some(MediaType::DockerManifestSchema2)
    } else if s == "application/vnd.docker.distribution.manifest.list.v2+json"@ {
        Some(MediaType::DockerManifestList)
    } else if s == "application/vnd.docker.image.rootfs.diff.tar.gzip"@ {
        Some(MediaType::DockerLayer)
    } else if s == "application/vnd.docker.container.image.v1+json"@ {
        Some(MediaType::DockerConfigJSON)
    } else if s == "application/vnd.docker.plugin.v1+json"@ {
        Some(MediaType::DockerPluginConfig)
    } else if s == "application/vnd.docker.image.rootfs.foreign.diff.tar.gzip"@ {
        Some(MediaType::DockerForeignLayer)
    } else if s == "application/vnd.docker.image.rootfs.diff.tar"@ {
        Some(MediaType::DockerUncompressedLayer)
    } else {
        None
    }
}

/// The text named no media type.
#[derive(Debug, Clone, Copy, PartialEq, Eq, Structural)]
pub struct UnknownMediaType;

impl MediaType {
    /// The media type's name on the wire.
    pub fn as_str(&self) -> (r: &'static str)
        ensures
            r@ == media_type_text(*self),
    {
        match self {
            MediaType::OCIContentDescriptor => "application/vnd.oci.descriptor.v1+json",
            MediaType::OCIImageIndex => "application/vnd.oci.image.index.v1+json",
            MediaType::OCIManifestSchema1 => "application/vnd.oci.image.manifest.v1+json",
            MediaType::OCIConfigJSON => "application/vnd.oci.image.config.v1+json",
            MediaType::OCILayer => "application/vnd.oci.image.layer.v1.tar+gzip",
            MediaType::OCIRestrictedLayer => "application/vnd.oci.image.layer.nondistributable.v1.tar+gzip",
            MediaType::OCIUncompressedLayer => "application/vnd.oci.image.layer.v1.tar",
            MediaType::OCIUncompressedRestrictedLayer => "application/vnd.oci.image.layer.nondistributable.v1.tar",
            MediaType::DockerManifestSchema1 => "application/vnd.docker.distribution.manifest.v1+json",
            MediaType::DockerManifestSchema1Signed => "application/vnd.docker.distribution.manifest.v1+prettyjws",
            MediaType::DockerManifestSchema2 => "application/vnd.docker.distribution.manifest.v2+json",
            MediaType::DockerManifestList => "application/vnd.docker.distribution.manifest.list.v2+json",
            MediaType::DockerLayer => "application/vnd.docker.image.rootfs.diff.tar.gzip",
            MediaType::DockerConfigJSON => "application/vnd.docker.container.image.v1+json",
            MediaType::DockerPluginConfig => "application/vnd.docker.plugin.v1+json",
            MediaType::DockerForeignLayer => "application/vnd.docker.image.rootfs.foreign.diff.tar.gzip",
            MediaType::DockerUncompressedLayer => "application/vnd.docker.image.rootfs.diff.tar",
        }
    }

    /// The media type named `s`.
    pub fn try_from(s: &str) -> (r: Result<MediaType, UnknownMediaType>)
        ensures
            match r {
                Ok(m) => media_type_from_text(s@) == Some(m),
                Err(_) => media_type_from_text(s@) is None,
            },
    {
        if same_text(s, "application/vnd.oci.descriptor.v1+json") {
            return Ok(MediaType::OCIContentDescriptor);
        }
        if same_text(s, "application/vnd.oci.image.index.v1+json") {
            return Ok(MediaType::OCIImageIndex);
        }
        if same_text(s, "application/vnd.oci.image.manifest.v1+json") {
            return Ok(MediaType::OCIManifestSchema1);
        }
        if same_text(s, "application/vnd.oci.image.config.v1+json") {
            return Ok(MediaType::OCIConfigJSON);
        }
        if same_text(s, "application/vnd.oci.image.layer.v1.tar+gzip") {
            return Ok(MediaType::OCILayer);
        }
        if same_text(s, "application/vnd.oci.image.layer.nondistributable.v1.tar+gzip") {
            return Ok(MediaType::OCIRestrictedLayer);
        }
        if same_text(s, "application/vnd.oci.image.layer.v1.tar") {
            return Ok(MediaType::OCIUncompressedLayer);
        }
        if same_text(s, "application/vnd.oci.image.layer.nondistributable.v1.tar") {
            return Ok(MediaType::OCIUncompressedRestrictedLayer);
        }
        if same_text(s, "application/vnd.docker.distribution.manifest.v1+json") {
            return Ok(MediaType::DockerManifestSchema1);
        }
        if same_text(s, "application/vnd.docker.distribution.manifest.v1+prettyjws") {
            return Ok(MediaType::DockerManifestSchema1Signed);
        }
        if same_text(s, "application/vnd.docker.distribution.manifest.v2+json") {
            return Ok(MediaType::DockerManifestSchema2);
        }
        if same_text(s, "application/vnd.docker.distribution.manifest.list.v2+json") {
            return Ok(MediaType::DockerManifestList);
        }
        if same_text(s, "application/vnd.docker.image.rootfs.diff.tar.gzip") {
            return Ok(MediaType::DockerLayer);
        }
        if same_text(s, "application/vnd.docker.container.image.v1+json") {
            return Ok(MediaType::DockerConfigJSON);
        }
        if same_text(s, "application/vnd.docker.plugin.v1+json") {
            return Ok(MediaType::DockerPluginConfig);
        }
        if same_text(s, "application/vnd.docker.image.rootfs.foreign.diff.tar.gzip") {
            return Ok(MediaType::DockerForeignLayer);
        }
        if same_text(s, "application/vnd.docker.image.rootfs.diff.tar") {
            return Ok(MediaType::DockerUncompressedLayer);
        }
        Err(UnknownMediaType)
    }
}

impl Media for MediaType {
    open spec fn non_distributable_kind(&self) -> bool {
        match *self {
            MediaType::DockerForeignLayer => true,
            MediaType::OCIUncompressedRestrictedLayer => true,
            MediaType::OCIRestrictedLayer => true,
            _ => false,
        }
    }

    open spec fn image_kind(&self) -> bool {
        match *self {
            MediaType::DockerManifestSchema1 => true,
            MediaType::DockerManifestSchema2 => true,
            _ => false,
        }
    }

    open spec fn index_kind(&self) -> bool {
        match *self {
            MediaType::DockerManifestList => true,
            MediaType::OCIImageIndex => true,
            _ => false,
        }
    }

    fn is_distributable(&self) -> (r: bool) {
        match *self {
            MediaType::DockerForeignLayer => true,
            MediaType::OCIUncompressedRestrictedLayer => true,
            MediaType::OCIRestrictedLayer => true,
            _ => false,
        }
    }

    fn is_image(&self) -> (r: bool) {
        match *self {
            MediaType::DockerManifestSchema1 => true,
            MediaType::DockerManifestSchema2 => true,
            _ => false,
        }
    }

    fn is_index(&self) -> (r: bool) {
        match *self {
            MediaType::DockerManifestList => true,
            MediaType::OCIImageIndex => true,
            _ => false,
        }
    }
}

} // verus!
