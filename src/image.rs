//! Building an image from content: a layer is a gzip-compressed tar archive
//! holding one file; an image pairs one layer with its config and manifest.

use std::collections::HashMap;
use std::io::Write;
use std::time::Duration;
use vstd::prelude::*;

use crate::digest::{sha256_hash, sha256_hex, sha256_name};
use crate::oci::{Descriptor, Manifest};
use crate::types::MediaType;

verus! {

#[verifier::external_type_specification]
#[verifier::external_body]
pub struct ExIoError(std::io::Error);

#[verifier::external_type_specification]
#[verifier::external_body]
pub struct ExJsonValue(serde_json::Value);

/// A moment in UTC: seconds and nanoseconds since the Unix epoch.
#[derive(Debug, Clone, Copy, PartialEq, Eq, Structural)]
pub struct Timestamp {
    pub secs: i64,
    pub nanos: u32,
}

/// The layers of an image's root file system, by their uncompressed
/// digests.
#[derive(Debug)]
pub struct RootFS {
    pub root_fs_type: String,
    pub diff_ids: Vec<crate::digest::Hash>,
}

impl Default for RootFS {
    fn default() -> (r: Self)
        ensures
            r.root_fs_type@ == "layers"@,
            r.diff_ids@.len() == 0,
    {
        RootFS { root_fs_type: String::from_str("layers"), diff_ids: Vec::new() }
    }
}

/// One step of an image's history.
#[derive(Debug, Default)]
pub struct History {
    pub author: Option<String>,
    pub created: Option<Timestamp>,
    pub created_by: Option<String>,
    pub comment: Option<String>,
    pub empty_layer: Option<bool>,
}

/// How a container's health is checked.
#[derive(Debug, Default)]
pub struct HealthConfig {
    pub test: Option<Vec<String>>,
    pub interval: Option<Duration>,
    pub timeout: Option<Duration>,
    pub start_period: Option<Duration>,
    pub retries: Option<i32>,
}

/// How a container of the image runs.
#[derive(Debug, Default)]
pub struct Config {
    pub attach_stderr: Option<bool>,
    pub attach_stdin: Option<bool>,
    pub attach_stdout: Option<bool>,
    pub cmd: Option<Vec<String>>,
    pub healthcheck: Option<HealthConfig>,
    pub domainnname: Option<String>,
    pub entrypoint: Option<Vec<String>>,
    pub env: Option<Vec<String>>,
    pub hostname: Option<String>,
    pub image: Option<String>,
    pub labels: Option<HashMap<String, String>>,
    pub on_build: Option<Vec<String>>,
    pub open_stdin: Option<bool>,
    pub stdin_once: Option<bool>,
    pub tty: Option<bool>,
    pub user: Option<String>,
    pub volumes: Option<HashMap<String, serde_json::Value>>,
    pub working_dir: Option<String>,
    pub exposed_ports: Option<HashMap<String, serde_json::Value>>,
    pub args_escaped: Option<bool>,
    pub network_disabled: Option<bool>,
    pub mac_address: Option<String>,
    pub stop_signal: Option<String>,
    pub shell: Option<Vec<String>>,
}

/// An image's config file.
#[derive(Debug, Default)]
pub struct ConfigFile {
    pub architecture: String,
    pub author: Option<String>,
    pub container: Option<String>,
    pub created: Option<Timestamp>,
    pub docker_version: Option<String>,
    pub history: Option<Vec<History>>,
    pub os: String,
    pub rootfs: RootFS,
    pub config: Option<Config>,
    pub os_version: Option<String>,
}

impl ConfigFile {
    /// The config of an image made of the one layer whose uncompressed
    /// digest is `diff_id`; every other field is empty.
    pub fn for_layer(diff_id: crate::digest::Hash) -> (r: ConfigFile)
        ensures
            r.rootfs.root_fs_type@ == "layers"@,
            r.rootfs.diff_ids@ == seq![diff_id],
            r.architecture@.len() == 0 && r.os@.len() == 0,
            r.author is None && r.container is None && r.created is None,
            r.docker_version is None && r.history is None,
            r.config is None && r.os_version is None,
    {
        let mut rootfs = RootFS::default();
        rootfs.diff_ids.push(diff_id);
        proof {
            assert(rootfs.diff_ids@ =~= seq![diff_id]);
        }
        ConfigFile {
            architecture: String::new(),
            author: None,
            container: None,
            created: None,
            docker_version: None,
            history: None,
            os: String::new(),
            rootfs,
            config: None,
            os_version: None,
        }
    }
}

/// The tar archive holding one file at `path` with permission bits `mode`
/// and the bytes `content`; `None` where the path cannot be written in a
/// tar header.
pub uninterp spec fn tar_of(content: Seq<u8>, path: Seq<char>, mode: u32) -> Option<Seq<u8>>;

/// Relies on tar's `Header::new_gnu`, `Header::set_path`, `set_size`,
/// `set_mode`, `set_cksum`, `Builder::append` and `Builder::into_inner`: the
/// archive of one file, built in memory. A GNU header starts zeroed, so the
/// archive depends on the arguments alone; `set_path` fails on a path that a
/// header cannot hold.
#[verifier::external_body]
fn tar_one_file(content: &[u8], path: &str, mode: u32) -> (r: Result<Vec<u8>, std::io::Error>)
    ensures
        match r {
            Ok(t) => tar_of(content@, path@, mode) == Some(t@),
            Err(_) => tar_of(content@, path@, mode) is None,
        },
{
    let mut header = tar::Header::new_gnu();
    header.set_path(path)?;
    header.set_size(content.len() as u64);
    header.set_mode(mode);
    header.set_cksum();
    let mut builder = tar::Builder::new(Vec::new());
    builder.append(&header, content)?;
    builder.into_inner()
}

/// The gzip stream of `b` at flate2's fast compression level.
pub uninterp spec fn gzip_fast_of(b: Seq<u8>) -> Seq<u8>;

/// Relies on flate2's `GzEncoder::new` with `Compression::fast()`,
/// `write_all` and `finish`: the gzip stream of `b`. The default gzip header
/// carries no time and a fixed system byte, so the stream depends on `b`
/// alone.
#[verifier::external_body]
fn gzip_fast(b: &[u8]) -> (r: Result<Vec<u8>, std::io::Error>)
    ensures
        r matches Ok(g) ==> g@ == gzip_fast_of(b@),
{
    let mut enc = flate2::write::GzEncoder::new(Vec::new(), flate2::Compression::fast());
    enc.write_all(b)?;
    enc.finish()
}

/// The permission bits of the file in a layer: `rw-r--r--`.
pub const LAYER_FILE_MODE: u32 = 0o644;

/// Why a layer could not be built.
#[derive(Debug, Clone, Copy, PartialEq, Eq, Structural)]
pub enum LayerError {
    /// The path cannot be written in a tar header.
    Archive,
    /// Compressing the archive failed.
    Compression,
}

impl Descriptor {
    /// A copy of this descriptor.
    pub fn duplicate(&self) -> (r: Descriptor)
        ensures
            r.media_type == self.media_type,
            r.size == self.size,
            r.digest.algorithm@ == self.digest.algorithm@,
            r.digest.hex@ == self.digest.hex@,
    {
        Descriptor {
            media_type: self.media_type,
            size: self.size,
            digest: self.digest.duplicate(),
            urls: self.urls.clone(),
            annotations: self.annotations.clone(),
            platform: self.platform.clone(),
        }
    }
}

/// A layer: the compressed archive, the digest of the archive before
/// compression, and the descriptor of the compressed archive.
#[derive(Debug)]
pub struct Layer {
    pub content: Vec<u8>,
    pub diff_id: crate::digest::Hash,
    pub descriptor: Descriptor,
}

impl Layer {
    /// The layer holding one file at `path` with bytes `content`: a tar
    /// archive of the file, compressed with gzip.
    pub fn new_for_content(content: &[u8], path: &str) -> (r: Result<Layer, LayerError>)
        ensures
            match r {
                Ok(l) => {
                    &&& tar_of(content@, path@, LAYER_FILE_MODE) matches Some(t)
                    &&& l.content@ == gzip_fast_of(t)
                    &&& l.diff_id.algorithm@ == sha256_name()
                    &&& l.diff_id.hex@ == sha256_hex(t)
                    &&& l.descriptor.media_type == MediaType::DockerLayer
                    &&& l.descriptor.size == l.content@.len() as i64
                    &&& l.descriptor.digest.algorithm@ == sha256_name()
                    &&& l.descriptor.digest.hex@ == sha256_hex(l.content@)
                    &&& l.descriptor.urls is None
                    &&& l.descriptor.annotations is None
                    &&& l.descriptor.platform is None
                },
                Err(LayerError::Archive) => tar_of(content@, path@, LAYER_FILE_MODE) is None,
                Err(LayerError::Compression) => tar_of(content@, path@, LAYER_FILE_MODE) is Some,
            },
    {
        let t = match tar_one_file(content, path, LAYER_FILE_MODE) {
            Ok(t) => t,
            Err(_) => {
                return Err(LayerError::Archive);
            },
        };
        let diff_id = sha256_hash(t.as_slice());
        let tar_gz = match gzip_fast(t.as_slice()) {
            Ok(g) => g,
            Err(_) => {
                return Err(LayerError::Compression);
            },
        };
        let digest = sha256_hash(tar_gz.as_slice());
        let size = tar_gz.len() as i64;
        Ok(
            Layer {
                descriptor: Descriptor {
                    media_type: MediaType::DockerLayer,
                    size,
                    digest,
                    urls: None,
                    annotations: None,
                    platform: None,
                },
                content: tar_gz,
                diff_id,
            },
        )
    }
}

/// An image: its manifest, its config, and its layers.
#[derive(Debug)]
pub struct Image {
    pub manifest: Manifest,
    pub config: ConfigFile,
    pub layers: Vec<Layer>,
}

impl Image {
    /// The image made of `layer` alone. `raw_config` is the JSON encoding of
    /// `ConfigFile::for_layer` of the layer's `diff_id`, the config that the
    /// image holds; the manifest points at those bytes.
    pub fn new_from_layer(layer: Layer, raw_config: &[u8]) -> (r: Image)
        ensures
            r.config.rootfs.root_fs_type@ == "layers"@,
            r.config.rootfs.diff_ids@.len() == 1,
            r.config.rootfs.diff_ids@[0].algorithm@ == layer.diff_id.algorithm@,
            r.config.rootfs.diff_ids@[0].hex@ == layer.diff_id.hex@,
            r.manifest.schema_version == 2,
            r.manifest.media_type == Some(MediaType::DockerManifestSchema2),
            r.manifest.config.media_type == MediaType::DockerConfigJSON,
            r.manifest.config.size == raw_config@.len() as i64,
            r.manifest.config.digest.algorithm@ == sha256_name(),
            r.manifest.config.digest.hex@ == sha256_hex(raw_config@),
            r.manifest.config.urls is None,
            r.manifest.config.annotations is None,
            r.manifest.config.platform is None,
            r.manifest.layers@.len() == 1,
            r.manifest.layers@[0].media_type == layer.descriptor.media_type,
            r.manifest.layers@[0].size == layer.descriptor.size,
            r.manifest.layers@[0].digest.algorithm@ == layer.descriptor.digest.algorithm@,
            r.manifest.layers@[0].digest.hex@ == layer.descriptor.digest.hex@,
            r.manifest.annotations is None,
            r.layers@ == seq![layer],
    {
        let config = ConfigFile::for_layer(layer.diff_id.duplicate());
        let mut layers_desc: Vec<Descriptor> = Vec::new();
        layers_desc.push(layer.descriptor.duplicate());
        let manifest = Manifest {
            schema_version: 2,
            media_type: Some(MediaType::DockerManifestSchema2),
            config: Descriptor {
                media_type: MediaType::DockerConfigJSON,
                size: raw_config.len() as i64,
                digest: sha256_hash(raw_config),
                urls: None,
                annotations: None,
                platform: None,
            },
            layers: layers_desc,
            annotations: None,
        };
        let mut layers: Vec<Layer> = Vec::new();
        layers.push(layer);
        proof {
            assert(layers@ =~= seq![layer]);
        }
        Image { manifest, config, layers }
    }

    /// The image's manifest.
    pub fn get_manifest(&self) -> (r: &Manifest)
        ensures
            r == &self.manifest,
    {
        &self.manifest
    }

    /// The image's config.
    pub fn get_config(&self) -> (r: &ConfigFile)
        ensures
            r == &self.config,
    {
        &self.config
    }
}

} // verus!
