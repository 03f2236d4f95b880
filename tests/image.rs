use eocker_registry::digest::sha256_hash;
use eocker_registry::image::{ConfigFile, Image, Layer, RootFS};
use eocker_registry::types::MediaType;

#[test]
fn layer_is_compressed_tarball() {
    let layer = Layer::new_for_content(b"hello", "hello.txt").unwrap();
    assert_eq!(&layer.content[..2], &[0x1f, 0x8b]);
    assert_eq!(layer.descriptor.media_type, MediaType::DockerLayer);
    assert_eq!(layer.descriptor.size, layer.content.len() as i64);
    assert_eq!(layer.descriptor.digest.algorithm, "sha256");
    assert_eq!(layer.descriptor.digest.hex, sha256_hash(&layer.content).hex);
    assert_eq!(layer.diff_id.algorithm, "sha256");
    assert_ne!(layer.diff_id.hex, layer.descriptor.digest.hex);
    assert!(layer.descriptor.urls.is_none());
}

#[test]
fn layer_is_reproducible() {
    let a = Layer::new_for_content(b"same", "f").unwrap();
    let b = Layer::new_for_content(b"same", "f").unwrap();
    assert_eq!(a.content, b.content);
    assert_eq!(a.diff_id.hex, b.diff_id.hex);
}

#[test]
fn rootfs_default_is_layers() {
    let r = RootFS::default();
    assert_eq!(r.root_fs_type, "layers");
    assert!(r.diff_ids.is_empty());
}

#[test]
fn config_for_layer_lists_diff_id() {
    let layer = Layer::new_for_content(b"x", "x").unwrap();
    let c = ConfigFile::for_layer(layer.diff_id.duplicate());
    assert_eq!(c.rootfs.diff_ids.len(), 1);
    assert_eq!(c.rootfs.diff_ids[0].hex, layer.diff_id.hex);
    assert!(c.created.is_none());
}

#[test]
fn image_from_layer() {
    let layer = Layer::new_for_content(b"hello", "hello.txt").unwrap();
    let layer_digest = layer.descriptor.digest.hex.clone();
    let diff = layer.diff_id.hex.clone();
    let raw = b"{\"rootfs\":{}}";
    let image = Image::new_from_layer(layer, raw);
    let m = image.get_manifest();
    assert_eq!(m.schema_version, 2);
    assert_eq!(m.media_type, Some(MediaType::DockerManifestSchema2));
    assert_eq!(m.config.media_type, MediaType::DockerConfigJSON);
    assert_eq!(m.config.size, raw.len() as i64);
    assert_eq!(m.config.digest.hex, sha256_hash(raw).hex);
    assert_eq!(m.layers.len(), 1);
    assert_eq!(m.layers[0].digest.hex, layer_digest);
    assert_eq!(image.get_config().rootfs.diff_ids[0].hex, diff);
    assert_eq!(image.layers.len(), 1);
}
