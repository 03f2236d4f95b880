use bytes::Bytes;
use eocker_registry::channel::{new_channel_map, ChannelMap, DataType, Event, Method};
use eocker_registry::handlers::{
    blob_exists, blob_location, get_blob, get_manifest, manifest_exists, push_blob_location,
    send_events, store_blob, store_chunk, store_manifest, ManifestBody, ManifestError, ACCEPTED,
    CREATED, NOT_FOUND, OK, RANGE_NOT_SATISFIABLE,
};
use eocker_registry::oci::{Descriptor, IndexManifest, Manifest};
use eocker_registry::store::{
    new_blob_store, new_manifest_store, new_upload_store, BlobStore, PushQuery, UploadStore,
};
use eocker_registry::types::MediaType;

const HELLO_PUSH_DIGEST: &str =
    "sha256:2c26b46b68ffc68ff99b453c1d30413413422d706483bfa0f98a5e886266e7ae";
const HELLOWORLD_DIGEST: &str =
    "sha256:936a185caaa266bb9cbe981e9e05cb78cd732b0b3280eb944412bb6f8f8f07af";
const UPLOAD_ID: &str = "3f1c2f4e-8a43-4d7b-9a5e-0c1d2e3f4a5b";

fn s(x: &str) -> String {
    x.to_string()
}

fn descriptor(media_type: MediaType, digest: &str) -> Descriptor {
    let h = eocker_registry::digest::Hash::deserialize(digest).unwrap();
    Descriptor {
        media_type,
        size: 1,
        digest: h,
        urls: None,
        annotations: None,
        platform: None,
    }
}

fn image_manifest(layers: &[&str], config: &str) -> Manifest {
    Manifest {
        schema_version: 2,
        media_type: Some(MediaType::DockerManifestSchema2),
        config: descriptor(MediaType::DockerConfigJSON, config),
        layers: layers
            .iter()
            .map(|d| descriptor(MediaType::DockerLayer, d))
            .collect(),
        annotations: None,
    }
}

fn drain(cm: &mut ChannelMap, id: u64) -> Vec<Event> {
    let mut out = Vec::new();
    while let Some(e) = cm.next_event(id) {
        out.push(e);
    }
    out
}

fn chunk(
    uploads: &mut UploadStore,
    cm: &mut ChannelMap,
    range: Option<&str>,
    body: &'static str,
) -> eocker_registry::handlers::Response {
    store_chunk(
        s("hello"),
        s(UPLOAD_ID),
        range.map(s),
        Bytes::from(body),
        uploads,
        cm,
    )
}

fn finish(
    blobs: &mut BlobStore,
    uploads: &mut UploadStore,
    cm: &mut ChannelMap,
    digest: &str,
    body: &'static str,
) -> eocker_registry::handlers::Response {
    store_blob(
        s("hello"),
        s(UPLOAD_ID),
        PushQuery { digest: s(digest) },
        Bytes::from(body),
        blobs,
        uploads,
        cm,
    )
}

#[test]
fn push_monolithic_blob() {
    let mut blobs = new_blob_store();
    let mut uploads = new_upload_store();
    let mut cm = new_channel_map();
    let r = push_blob_location(s("hello"), PushQuery { digest: s(HELLO_PUSH_DIGEST) });
    assert_eq!(r.status, ACCEPTED);
    let loc = r.location.unwrap();
    assert!(loc.starts_with("/v2/hello/blobs/uploads/"));
    let r = finish(&mut blobs, &mut uploads, &mut cm, HELLO_PUSH_DIGEST, "hello");
    assert_eq!(r.status, CREATED);
    let r = get_blob(s("hello"), s(HELLO_PUSH_DIGEST), &blobs, &mut cm);
    assert_eq!(r.status, OK);
    assert_eq!(&r.body[..], b"hello");
    assert_eq!(r.content_length, Some(5));
    assert_eq!(r.content_digest.as_deref(), Some(HELLO_PUSH_DIGEST));
}

#[test]
fn blob_round_trip_keeps_bytes_and_headers() {
    let mut blobs = new_blob_store();
    let mut uploads = new_upload_store();
    let mut cm = new_channel_map();
    let body: Vec<u8> = (0u8..=255).collect();
    let r = store_blob(
        s("repo"),
        s("id-1"),
        PushQuery { digest: s("sha256:abc") },
        Bytes::from(body.clone()),
        &mut blobs,
        &mut uploads,
        &mut cm,
    );
    assert_eq!(r.status, CREATED);
    let r = get_blob(s("repo"), s("sha256:abc"), &blobs, &mut cm);
    assert_eq!(r.status, OK);
    assert_eq!(r.body.to_vec(), body);
    assert_eq!(r.content_length, Some(256));
    assert_eq!(r.content_digest.as_deref(), Some("sha256:abc"));
}

#[test]
fn chunked_push_of_two_chunks() {
    let mut blobs = new_blob_store();
    let mut uploads = new_upload_store();
    let mut cm = new_channel_map();
    assert_eq!(blob_location(s("hello")).status, ACCEPTED);
    let r = chunk(&mut uploads, &mut cm, Some("0-4"), "hello");
    assert_eq!(r.status, ACCEPTED);
    assert_eq!(r.range_end, Some(4));
    assert_eq!(
        r.location.as_deref(),
        Some(format!("/v2/hello/blobs/uploads/{}", UPLOAD_ID).as_str())
    );
    let r = chunk(&mut uploads, &mut cm, Some("5-9"), "world");
    assert_eq!(r.status, ACCEPTED);
    assert_eq!(r.range_end, None);
    let r = finish(&mut blobs, &mut uploads, &mut cm, HELLOWORLD_DIGEST, "");
    assert_eq!(r.status, CREATED);
    let r = get_blob(s("hello"), s(HELLOWORLD_DIGEST), &blobs, &mut cm);
    assert_eq!(r.status, OK);
    assert_eq!(&r.body[..], b"helloworld");
}

#[test]
fn chunks_concatenate_in_order() {
    let mut blobs = new_blob_store();
    let mut uploads = new_upload_store();
    let mut cm = new_channel_map();
    assert_eq!(chunk(&mut uploads, &mut cm, None, "ab").status, ACCEPTED);
    assert_eq!(chunk(&mut uploads, &mut cm, Some("2-4"), "cde").status, ACCEPTED);
    assert_eq!(chunk(&mut uploads, &mut cm, Some("5-5"), "f").status, ACCEPTED);
    assert_eq!(&uploads.get(&s(UPLOAD_ID)).unwrap()[..], b"abcdef");
    finish(&mut blobs, &mut uploads, &mut cm, "sha256:x", "gh");
    assert_eq!(&blobs.get(&s("sha256:x")).unwrap()[..], b"abcdefgh");
}

#[test]
fn out_of_order_chunk_is_refused() {
    let mut uploads = new_upload_store();
    let mut cm = new_channel_map();
    assert_eq!(chunk(&mut uploads, &mut cm, Some("0-4"), "hello").status, ACCEPTED);
    let r = chunk(&mut uploads, &mut cm, Some("10-14"), "world");
    assert_eq!(r.status, RANGE_NOT_SATISFIABLE);
    assert!(r.location.is_none());
    assert_eq!(uploads.get(&s(UPLOAD_ID)).unwrap().len(), 5);
}

#[test]
fn chunk_without_range_after_first_is_refused() {
    let mut uploads = new_upload_store();
    let mut cm = new_channel_map();
    assert_eq!(chunk(&mut uploads, &mut cm, None, "hello").status, ACCEPTED);
    let r = chunk(&mut uploads, &mut cm, None, "world");
    assert_eq!(r.status, RANGE_NOT_SATISFIABLE);
    assert_eq!(&uploads.get(&s(UPLOAD_ID)).unwrap()[..], b"hello");
}

#[test]
fn first_chunk_must_start_at_zero() {
    let mut uploads = new_upload_store();
    let mut cm = new_channel_map();
    let r = chunk(&mut uploads, &mut cm, Some("3-7"), "hello");
    assert_eq!(r.status, RANGE_NOT_SATISFIABLE);
    assert!(!uploads.contains(&s(UPLOAD_ID)));
}

#[test]
fn malformed_ranges_are_refused() {
    let mut uploads = new_upload_store();
    let mut cm = new_channel_map();
    for range in ["0", "0-1-2", "a-4", "-4", "", "+-3"] {
        let r = chunk(&mut uploads, &mut cm, Some(range), "hello");
        assert_eq!(r.status, RANGE_NOT_SATISFIABLE, "range {:?}", range);
    }
    assert!(!uploads.contains(&s(UPLOAD_ID)));
    let r = chunk(&mut uploads, &mut cm, Some("+0-4"), "hello");
    assert_eq!(r.status, ACCEPTED);
}

#[test]
fn empty_first_chunk_has_no_range_header() {
    let mut uploads = new_upload_store();
    let mut cm = new_channel_map();
    let r = chunk(&mut uploads, &mut cm, None, "");
    assert_eq!(r.status, ACCEPTED);
    assert_eq!(r.range_end, None);
    assert_eq!(uploads.get(&s(UPLOAD_ID)).unwrap().len(), 0);
}

#[test]
fn finished_upload_is_consumed() {
    let mut blobs = new_blob_store();
    let mut uploads = new_upload_store();
    let mut cm = new_channel_map();
    chunk(&mut uploads, &mut cm, Some("0-4"), "hello");
    finish(&mut blobs, &mut uploads, &mut cm, "sha256:a", "");
    assert!(!uploads.contains(&s(UPLOAD_ID)));
    // A chunk at the old offset is now refused: the upload is unknown.
    let r = chunk(&mut uploads, &mut cm, Some("5-9"), "world");
    assert_eq!(r.status, RANGE_NOT_SATISFIABLE);
    // A second PUT stores its body alone.
    finish(&mut blobs, &mut uploads, &mut cm, "sha256:b", "again");
    assert_eq!(&blobs.get(&s("sha256:b")).unwrap()[..], b"again");
    // A chunk at offset 0 starts a new upload.
    assert_eq!(chunk(&mut uploads, &mut cm, Some("0-2"), "new").status, ACCEPTED);
}

#[test]
fn missing_blob_is_not_found() {
    let blobs = new_blob_store();
    let mut cm = new_channel_map();
    let sub = send_events(s("repo"), &mut cm).unwrap();
    let r = get_blob(s("repo"), s("sha256:none"), &blobs, &mut cm);
    assert_eq!(r.status, NOT_FOUND);
    assert!(r.body.is_empty());
    let r = blob_exists(s("repo"), s("sha256:none"), &blobs, &mut cm);
    assert_eq!(r.status, NOT_FOUND);
    let events = drain(&mut cm, sub);
    assert_eq!(events.len(), 2);
    assert_eq!(events[0].method, Method::Get);
    assert_eq!(events[0].status, NOT_FOUND);
    assert_eq!(events[1].method, Method::Head);
    assert_eq!(events[1].status, NOT_FOUND);
}

#[test]
fn head_blob_finds_stored_blob() {
    let mut blobs = new_blob_store();
    let mut uploads = new_upload_store();
    let mut cm = new_channel_map();
    finish(&mut blobs, &mut uploads, &mut cm, "sha256:h", "x");
    let r = blob_exists(s("hello"), s("sha256:h"), &blobs, &mut cm);
    assert_eq!(r.status, OK);
    assert!(r.body.is_empty());
}

const MANIFEST_JSON: &str = "{\"schemaVersion\":2}";
const DOCKER_V2: &str = "application/vnd.docker.distribution.manifest.v2+json";
const OCI_INDEX: &str = "application/vnd.oci.image.index.v1+json";

#[test]
fn manifest_push_with_two_layers() {
    let mut manifests = new_manifest_store();
    let mut cm = new_channel_map();
    let sub = send_events(s("repo"), &mut cm).unwrap();
    let body = image_manifest(&["sha256:A", "sha256:B"], "sha256:C");
    let r = store_manifest(
        s("repo"),
        s("tag"),
        s(DOCKER_V2),
        Bytes::from(MANIFEST_JSON),
        Some(ManifestBody::Image(body)),
        &mut manifests,
        &mut cm,
    )
    .unwrap();
    assert_eq!(r.status, CREATED);
    let events = drain(&mut cm, sub);
    assert_eq!(events.len(), 1);
    let e = &events[0];
    assert_eq!(e.data_type, DataType::Manifest);
    assert_eq!(e.method, Method::Put);
    assert_eq!(e.status, 200);
    assert_eq!(e.repo, "repo");
    assert_eq!(e.identifier, "tag");
    let refs = e.refs.as_ref().unwrap();
    let got: Vec<(DataType, &str, &str)> = refs
        .iter()
        .map(|r| (r.data_type, r.repo.as_str(), r.identifier.as_str()))
        .collect();
    assert_eq!(
        got,
        vec![
            (DataType::Blob, "repo", "sha256:A"),
            (DataType::Blob, "repo", "sha256:B"),
            (DataType::Blob, "repo", "sha256:C"),
        ]
    );
}

#[test]
fn index_manifest_refs_are_manifests() {
    let mut manifests = new_manifest_store();
    let mut cm = new_channel_map();
    let sub = send_events(s("repo"), &mut cm).unwrap();
    let index = IndexManifest {
        schema_version: 2,
        media_type: Some(MediaType::OCIImageIndex),
        manifests: vec![
            descriptor(MediaType::OCIManifestSchema1, "sha256:m1"),
            descriptor(MediaType::OCIManifestSchema1, "sha256:m2"),
        ],
        annotations: None,
    };
    let r = store_manifest(
        s("repo"),
        s("multi"),
        s(OCI_INDEX),
        Bytes::from(MANIFEST_JSON),
        Some(ManifestBody::Index(index)),
        &mut manifests,
        &mut cm,
    )
    .unwrap();
    assert_eq!(r.status, CREATED);
    let events = drain(&mut cm, sub);
    let refs = events[0].refs.as_ref().unwrap();
    assert_eq!(refs.len(), 2);
    assert!(refs.iter().all(|r| r.data_type == DataType::Manifest));
    assert_eq!(refs[0].identifier, "sha256:m1");
    assert_eq!(refs[1].identifier, "sha256:m2");
}

#[test]
fn manifest_is_stored_under_reference_and_digest() {
    let mut manifests = new_manifest_store();
    let mut cm = new_channel_map();
    let content = "{\"schemaVersion\":2,\"layers\":[]}";
    let r = store_manifest(
        s("repo"),
        s("latest"),
        s(DOCKER_V2),
        Bytes::from(content),
        Some(ManifestBody::Image(image_manifest(&[], "sha256:C"))),
        &mut manifests,
        &mut cm,
    )
    .unwrap();
    let digest = r.content_digest.unwrap();
    assert!(digest.starts_with("sha256:"));
    assert_eq!(digest.len(), 7 + 64);
    let by_tag = get_manifest(s("repo"), s("latest"), &manifests, &mut cm);
    let by_digest = get_manifest(s("repo"), digest.clone(), &manifests, &mut cm);
    assert_eq!(by_tag.status, OK);
    assert_eq!(by_digest.status, OK);
    assert_eq!(&by_tag.body[..], content.as_bytes());
    assert_eq!(&by_digest.body[..], content.as_bytes());
    assert_eq!(by_tag.content_type.as_deref(), Some(DOCKER_V2));
    assert_eq!(by_digest.content_type.as_deref(), Some(DOCKER_V2));
    assert_eq!(by_tag.content_length, Some(content.len()));
    assert_eq!(
        manifest_exists(s("repo"), digest, &manifests, &mut cm).status,
        OK
    );
}

#[test]
fn manifest_digest_is_sha256_of_bytes() {
    let mut manifests = new_manifest_store();
    let mut cm = new_channel_map();
    let r = store_manifest(
        s("hello"),
        s("v1"),
        s(DOCKER_V2),
        Bytes::from("helloworld"),
        Some(ManifestBody::Image(image_manifest(&[], "sha256:C"))),
        &mut manifests,
        &mut cm,
    )
    .unwrap();
    assert_eq!(r.content_digest.as_deref(), Some(HELLOWORLD_DIGEST));
}

#[test]
fn same_manifest_pushed_twice_is_idempotent() {
    let mut manifests = new_manifest_store();
    let mut cm = new_channel_map();
    let mut digests = Vec::new();
    for _ in 0..2 {
        let r = store_manifest(
            s("repo"),
            s("tag"),
            s(DOCKER_V2),
            Bytes::from(MANIFEST_JSON),
            Some(ManifestBody::Image(image_manifest(&["sha256:A"], "sha256:C"))),
            &mut manifests,
            &mut cm,
        )
        .unwrap();
        digests.push(r.content_digest.unwrap());
        let m = manifests.get(&s("repo"), &s("tag")).unwrap();
        assert_eq!(&m.content[..], MANIFEST_JSON.as_bytes());
        assert_eq!(m.content_type, DOCKER_V2);
    }
    assert_eq!(digests[0], digests[1]);
}

#[test]
fn manifest_with_unknown_content_type_is_refused() {
    let mut manifests = new_manifest_store();
    let mut cm = new_channel_map();
    let r = store_manifest(
        s("repo"),
        s("tag"),
        s("text/plain"),
        Bytes::from(MANIFEST_JSON),
        Some(ManifestBody::Image(image_manifest(&[], "sha256:C"))),
        &mut manifests,
        &mut cm,
    );
    assert_eq!(r.unwrap_err(), ManifestError::UnknownMediaType);
    assert!(!manifests.contains(&s("repo"), &s("tag")));
}

#[test]
fn manifest_that_does_not_decode_is_refused() {
    let mut manifests = new_manifest_store();
    let mut cm = new_channel_map();
    let r = store_manifest(
        s("repo"),
        s("tag"),
        s(DOCKER_V2),
        Bytes::from("not json"),
        None,
        &mut manifests,
        &mut cm,
    );
    assert_eq!(r.unwrap_err(), ManifestError::Undecodable);
    let index = IndexManifest {
        schema_version: 2,
        media_type: None,
        manifests: vec![],
        annotations: None,
    };
    let r = store_manifest(
        s("repo"),
        s("tag"),
        s(DOCKER_V2),
        Bytes::from(MANIFEST_JSON),
        Some(ManifestBody::Index(index)),
        &mut manifests,
        &mut cm,
    );
    assert_eq!(r.unwrap_err(), ManifestError::Undecodable);
    assert!(!manifests.contains(&s("repo"), &s("tag")));
}

#[test]
fn missing_manifest_is_not_found() {
    let manifests = new_manifest_store();
    let mut cm = new_channel_map();
    let r = get_manifest(s("repo"), s("tag"), &manifests, &mut cm);
    assert_eq!(r.status, NOT_FOUND);
    assert!(r.body.is_empty());
    assert_eq!(manifest_exists(s("repo"), s("tag"), &manifests, &mut cm).status, NOT_FOUND);
}

#[test]
fn event_fan_out_to_two_subscribers() {
    let mut blobs = new_blob_store();
    let mut uploads = new_upload_store();
    let mut manifests = new_manifest_store();
    let mut cm = new_channel_map();
    let a = send_events(s("foo"), &mut cm).unwrap();
    let b = send_events(s("foo"), &mut cm).unwrap();
    assert_ne!(a, b);
    store_chunk(
        s("foo"),
        s("u1"),
        Some(s("0-2")),
        Bytes::from("abc"),
        &mut uploads,
        &mut cm,
    );
    store_blob(
        s("foo"),
        s("u1"),
        PushQuery { digest: s("sha256:abc") },
        Bytes::new(),
        &mut blobs,
        &mut uploads,
        &mut cm,
    );
    store_manifest(
        s("foo"),
        s("latest"),
        s(DOCKER_V2),
        Bytes::from(MANIFEST_JSON),
        Some(ManifestBody::Image(image_manifest(&["sha256:abc"], "sha256:C"))),
        &mut manifests,
        &mut cm,
    )
    .unwrap();
    for sub in [a, b] {
        let events = drain(&mut cm, sub);
        let kinds: Vec<(DataType, Method, u16)> = events
            .iter()
            .map(|e| (e.data_type, e.method, e.status))
            .collect();
        assert_eq!(
            kinds,
            vec![
                (DataType::Upload, Method::Patch, 202),
                (DataType::Blob, Method::Put, 201),
                (DataType::Manifest, Method::Put, 200),
            ]
        );
        let blob_refs = events[1].refs.as_ref().unwrap();
        assert_eq!(blob_refs.len(), 1);
        assert_eq!(blob_refs[0].data_type, DataType::Upload);
        assert_eq!(blob_refs[0].identifier, "u1");
    }
}
