//! The registry operations: each reads or changes the store, publishes one
//! event on the repository's topic, and answers with a response.

use bytes::Bytes;
use vstd::prelude::*;

use crate::buffer::{bytes_len, bytes_view, concat_bytes, empty_bytes, share_bytes};
use crate::channel::{
    event_view, publish, refs_view, send, ChannelMap, DataType, Method, Ref, RefView,
};
use crate::digest::{content_digest, sha256_hex, sha256_prefix};
use crate::oci::{image_refs, index_refs, IndexManifest, Manifest as ImageManifest};
use crate::store::{BlobStore, Manifest, ManifestStore, PushQuery, UploadStore};
use crate::text::{parse_usize, usize_of_text};
use crate::types::{media_type_from_text, Media, MediaType};

verus! {

pub const OK: u16 = 200;

pub const CREATED: u16 = 201;

pub const ACCEPTED: u16 = 202;

pub const NOT_FOUND: u16 = 404;

pub const RANGE_NOT_SATISFIABLE: u16 = 416;

/// An answer to a request: its status, the headers that are set, and the
/// body.
#[derive(Debug)]
pub struct Response {
    pub status: u16,
    /// `Location`.
    pub location: Option<String>,
    /// The last byte offset of `Range: 0-<end>`.
    pub range_end: Option<usize>,
    /// `Docker-Content-Digest`.
    pub content_digest: Option<String>,
    /// `Content-Type`.
    pub content_type: Option<String>,
    /// `Content-Length`.
    pub content_length: Option<usize>,
    pub body: Bytes,
}

/// A response with status `status`, no headers and an empty body.
pub open spec fn is_bare(r: Response, status: u16) -> bool {
    &&& r.status == status
    &&& r.location is None
    &&& r.range_end is None
    &&& r.content_digest is None
    &&& r.content_type is None
    &&& r.content_length is None
    &&& bytes_view(r.body).len() == 0
}

impl Response {
    /// A response with status `status` alone.
    pub fn bare(status: u16) -> (r: Response)
        ensures
            is_bare(r, status),
    {
        Response {
            status,
            location: None,
            range_end: None,
            content_digest: None,
            content_type: None,
            content_length: None,
            body: empty_bytes(),
        }
    }
}

/// The path of upload `id` in repository `ns`.
pub open spec fn upload_location(ns: Seq<char>, id: Seq<char>) -> Seq<char> {
    "/v2/"@ + ns + "/blobs/uploads/"@ + id
}

/// The path of upload `id` in repository `ns`.
pub fn location_of(ns: &String, id: &String) -> (r: String)
    ensures
        r@ == upload_location(ns@, id@),
{
    String::from_str("/v2/").concat(ns.as_str()).concat("/blobs/uploads/").concat(id.as_str())
}

pub open spec fn text_option(o: Option<String>) -> Option<Seq<char>> {
    match o {
        Some(s) => Some(s@),
        None => None,
    }
}

/// Relies on uuid's `Uuid::new_v4`, written out by its `Display` impl: a
/// fresh random id. Nothing is promised of its value.
#[verifier::external_body]
fn new_upload_id() -> (r: String) {
    uuid::Uuid::new_v4().to_string()
}

/// The answer that starts upload `id` in repository `name`: `Accepted`, with
/// the upload's location.
pub fn upload_started(name: &String, id: &String) -> (r: Response)
    ensures
        r.status == ACCEPTED,
        r.location matches Some(l) && l@ == upload_location(name@, id@),
        r.range_end is None && r.content_digest is None,
        r.content_type is None && r.content_length is None,
        bytes_view(r.body).len() == 0,
{
    Response {
        status: ACCEPTED,
        location: Some(location_of(name, id)),
        range_end: None,
        content_digest: None,
        content_type: None,
        content_length: None,
        body: empty_bytes(),
    }
}

/// POST that begins an upload in repository `name`: a fresh upload id is
/// allocated, and the answer gives its location. Nothing is stored.
pub fn blob_location(name: String) -> (r: Response)
    ensures
        r.status == ACCEPTED,
        r.location matches Some(l) && exists|id: Seq<char>| l@ == upload_location(name@, id),
        r.range_end is None && r.content_digest is None,
        r.content_type is None && r.content_length is None,
        bytes_view(r.body).len() == 0,
{
    let id = new_upload_id();
    upload_started(&name, &id)
}

/// POST that announces a push in one piece, with the digest in the query:
/// answered as `blob_location` answers; the bytes come with the PUT that
/// follows.
pub fn push_blob_location(name: String, _query: PushQuery) -> (r: Response)
    ensures
        r.status == ACCEPTED,
        r.location matches Some(l) && exists|id: Seq<char>| l@ == upload_location(name@, id),
        r.range_end is None && r.content_digest is None,
        r.content_type is None && r.content_length is None,
        bytes_view(r.body).len() == 0,
{
    blob_location(name)
}

// ---- chunked uploads

/// `k` is the position of the one `-` in `s`.
pub open spec fn single_dash_at(s: Seq<char>, k: int) -> bool {
    &&& 0 <= k < s.len()
    &&& s[k] == '-'
    &&& forall|j: int| 0 <= j < s.len() && j != k ==> s[j] != '-'
}

/// The start offset of a `Content-Range` of the form `start-end`: the text
/// must hold exactly one `-`, and what precedes it must read as a `usize`.
pub open spec fn range_start(s: Seq<char>) -> Option<nat> {
    if exists|k: int| single_dash_at(s, k) {
        usize_of_text(s.take(choose|k: int| single_dash_at(s, k)))
    } else {
        None
    }
}

/// Reads the start offset of a `Content-Range`.
pub fn parse_range_start(s: &str) -> (r: Option<usize>)
    ensures
        match r {
            Some(v) => range_start(s@) == Some(v as nat),
            None => range_start(s@) is None,
        },
{
    let n = s.unicode_len();
    let mut first: Option<usize> = None;
    let mut i: usize = 0;
    while i < n
        invariant
            n == s@.len(),
            i <= n,
            match first {
                None => forall|j: int| 0 <= j < i ==> s@[j] != '-',
                Some(a) => a < i && s@[a as int] == '-' && forall|j: int|
                    0 <= j < i && j != a ==> s@[j] != '-',
            },
        decreases n - i,
    {
        if s.get_char(i) == '-' {
            match first {
                None => {
                    first = Some(i);
                },
                Some(a) => {
                    proof {
                        assert forall|k: int| !single_dash_at(s@, k) by {
                            if single_dash_at(s@, k) {
                                assert(k == a as int || k == i as int);
                            }
                        }
                    }
                    return None;
                },
            }
        }
        i = i + 1;
    }
    match first {
        None => {
            proof {
                assert forall|k: int| !single_dash_at(s@, k) by {}
            }
            None
        },
        Some(a) => {
            proof {
                assert(single_dash_at(s@, a as int));
                let k = choose|k: int| single_dash_at(s@, k);
                assert(k == a as int);
            }
            let head = s.substring_char(0, a);
            proof {
                assert(head@ =~= s@.take(a as int));
            }
            parse_usize(head)
        },
    }
}

/// Where a chunk says it starts: `Some(None)` without a range,
/// `Some(Some(start))` for a well-formed one, `None` for a malformed one.
pub open spec fn chunk_start(range: Option<Seq<char>>) -> Option<Option<nat>> {
    match range {
        None => Some(None),
        Some(r) => match range_start(r) {
            Some(v) => Some(Some(v)),
            None => None,
        },
    }
}

/// Whether a chunk that starts at `start` continues upload `id`: a new
/// upload takes a chunk without a range or at offset 0; one in progress
/// takes only a chunk at its current length.
pub open spec fn chunk_fits(uploads: Map<Seq<char>, Seq<u8>>, id: Seq<char>, start: Option<nat>) -> bool {
    if uploads.contains_key(id) {
        start == Some(uploads[id].len())
    } else {
        start is None || start == Some(0nat)
    }
}

/// Whether a chunk with `Content-Range` `range` is accepted for upload `id`.
pub open spec fn chunk_accepted(
    uploads: Map<Seq<char>, Seq<u8>>,
    id: Seq<char>,
    range: Option<Seq<char>>,
) -> bool {
    match chunk_start(range) {
        Some(start) => chunk_fits(uploads, id, start),
        None => false,
    }
}

/// The bytes of upload `id` followed by `body`; `body` alone if there is no
/// such upload.
pub open spec fn appended(uploads: Map<Seq<char>, Seq<u8>>, id: Seq<char>, body: Seq<u8>) -> Seq<u8> {
    if uploads.contains_key(id) {
        uploads[id] + body
    } else {
        body
    }
}

/// The uploads after a chunk at `start` is sent for upload `id`.
pub open spec fn chunk_effect(
    uploads: Map<Seq<char>, Seq<u8>>,
    id: Seq<char>,
    start: Option<nat>,
    body: Seq<u8>,
) -> Map<Seq<char>, Seq<u8>> {
    if chunk_fits(uploads, id, start) {
        uploads.insert(id, appended(uploads, id, body))
    } else {
        uploads
    }
}

/// PATCH of a chunk of upload `id` in repository `ns`.
pub fn store_chunk(
    ns: String,
    id: String,
    content_range: Option<String>,
    content: Bytes,
    store: &mut UploadStore,
    cm: &mut ChannelMap,
) -> (r: Response)
    requires
        old(store).wf(),
        old(cm).wf(),
    ensures
        final(store).wf(),
        final(cm).wf(),
        chunk_accepted(old(store)@, id@, text_option(content_range)) ==> {
            &&& r.status == ACCEPTED
            &&& r.location matches Some(l) && l@ == upload_location(ns@, id@)
            &&& r.range_end == if !old(store)@.contains_key(id@) && bytes_view(content).len() > 0 {
                Some((bytes_view(content).len() - 1) as usize)
            } else {
                None
            }
            &&& r.content_digest is None && r.content_type is None && r.content_length is None
            &&& bytes_view(r.body).len() == 0
            &&& final(store)@ == old(store)@.insert(id@, appended(old(store)@, id@, bytes_view(content)))
            &&& final(cm)@ == publish(
                old(cm)@,
                ns@,
                event_view(DataType::Upload, Method::Patch, ACCEPTED, ns@, id@, None),
            )
        },
        chunk_start(text_option(content_range)) matches Some(start)
            ==> final(store)@ == chunk_effect(old(store)@, id@, start, bytes_view(content)),
        !chunk_accepted(old(store)@, id@, text_option(content_range)) ==> {
            &&& is_bare(r, RANGE_NOT_SATISFIABLE)
            &&& final(store)@ == old(store)@
            &&& final(cm)@ == old(cm)@
        },
{
    let start: Option<usize> = match &content_range {
        None => None,
        Some(cr) => match parse_range_start(cr.as_str()) {
            None => {
                return Response::bare(RANGE_NOT_SATISFIABLE);
            },
            Some(v) => Some(v),
        },
    };
    let content_len = bytes_len(&content);
    match store.get(&id) {
        None => {
            if let Some(st) = start {
                if st != 0 {
                    return Response::bare(RANGE_NOT_SATISFIABLE);
                }
            }
            store.put(id.clone(), content);
            send(&ns, DataType::Upload, Method::Patch, ACCEPTED, id.clone(), None, cm);
            let range_end = if content_len > 0 {
                Some(content_len - 1)
            } else {
                None
            };
            Response {
                status: ACCEPTED,
                location: Some(location_of(&ns, &id)),
                range_end,
                content_digest: None,
                content_type: None,
                content_length: None,
                body: empty_bytes(),
            }
        },
        Some(b) => {
            let current = bytes_len(&b);
            let fits = match start {
                Some(st) => st == current,
                None => false,
            };
            if !fits {
                return Response::bare(RANGE_NOT_SATISFIABLE);
            }
            store.put(id.clone(), concat_bytes(&b, &content));
            send(&ns, DataType::Upload, Method::Patch, ACCEPTED, id.clone(), None, cm);
            Response {
                status: ACCEPTED,
                location: Some(location_of(&ns, &id)),
                range_end: None,
                content_digest: None,
                content_type: None,
                content_length: None,
                body: empty_bytes(),
            }
        },
    }
}

// ---- blobs

/// The reference from a finished blob to the upload it came from.
pub open spec fn upload_ref(ns: Seq<char>, id: Seq<char>) -> Seq<RefView> {
    seq![RefView { data_type: DataType::Upload, repo: ns, identifier: id }]
}

/// PUT that finishes upload `id` in repository `ns`: the blob is what the
/// upload held followed by `content` (or `content` alone, for a push in one
/// piece), stored under the query's digest, and the upload is removed.
pub fn store_blob(
    ns: String,
    id: String,
    query: PushQuery,
    content: Bytes,
    blob_store: &mut BlobStore,
    upload_store: &mut UploadStore,
    cm: &mut ChannelMap,
) -> (r: Response)
    requires
        old(blob_store).wf(),
        old(upload_store).wf(),
        old(cm).wf(),
    ensures
        final(blob_store).wf(),
        final(upload_store).wf(),
        final(cm).wf(),
        is_bare(r, CREATED),
        final(blob_store)@ == old(blob_store)@.insert(
            query.digest@,
            appended(old(upload_store)@, id@, bytes_view(content)),
        ),
        final(upload_store)@ == old(upload_store)@.remove(id@),
        final(cm)@ == publish(
            old(cm)@,
            ns@,
            event_view(DataType::Blob, Method::Put, CREATED, ns@, query.digest@, Some(upload_ref(ns@, id@))),
        ),
{
    match upload_store.take(&id) {
        None => {
            blob_store.put(query.digest.clone(), content);
        },
        Some(b) => {
            blob_store.put(query.digest.clone(), concat_bytes(&b, &content));
        },
    }
    let mut refs: Vec<Ref> = Vec::new();
    refs.push(Ref { data_type: DataType::Upload, repo: ns.clone(), identifier: id });
    proof {
        assert(refs_view(Some(refs)) == Some(upload_ref(ns@, id@))) by {
            assert(refs@.map_values(|x: Ref| x@) =~= upload_ref(ns@, id@));
        }
    }
    send(&ns, DataType::Blob, Method::Put, CREATED, query.digest, Some(refs), cm);
    Response::bare(CREATED)
}

/// GET of blob `digest`.
pub fn get_blob(ns: String, digest: String, store: &BlobStore, cm: &mut ChannelMap) -> (r: Response)
    requires
        store.wf(),
        old(cm).wf(),
    ensures
        final(cm).wf(),
        store@.contains_key(digest@) ==> {
            &&& r.status == OK
            &&& r.content_digest matches Some(d) && d@ == digest@
            &&& r.content_length == Some(store@[digest@].len() as usize)
            &&& bytes_view(r.body) == store@[digest@]
            &&& r.location is None && r.range_end is None && r.content_type is None
        },
        !store@.contains_key(digest@) ==> is_bare(r, NOT_FOUND),
        final(cm)@ == publish(old(cm)@, ns@, event_view(DataType::Blob, Method::Get, r.status, ns@, digest@, None)),
{
    match store.get(&digest) {
        None => {
            send(&ns, DataType::Blob, Method::Get, NOT_FOUND, digest, None, cm);
            Response::bare(NOT_FOUND)
        },
        Some(b) => {
            send(&ns, DataType::Blob, Method::Get, OK, digest.clone(), None, cm);
            let len = bytes_len(&b);
            Response {
                status: OK,
                location: None,
                range_end: None,
                content_digest: Some(digest),
                content_type: None,
                content_length: Some(len),
                body: b,
            }
        },
    }
}

/// HEAD of blob `digest`.
pub fn blob_exists(ns: String, digest: String, store: &BlobStore, cm: &mut ChannelMap) -> (r: Response)
    requires
        store.wf(),
        old(cm).wf(),
    ensures
        final(cm).wf(),
        is_bare(r, if store@.contains_key(digest@) { OK } else { NOT_FOUND }),
        final(cm)@ == publish(old(cm)@, ns@, event_view(DataType::Blob, Method::Head, r.status, ns@, digest@, None)),
{
    let status = if store.contains(&digest) {
        OK
    } else {
        NOT_FOUND
    };
    send(&ns, DataType::Blob, Method::Head, status, digest, None, cm);
    Response::bare(status)
}

// ---- manifests

/// A manifest's bytes, decoded in the shape its content type calls for.
#[derive(Debug)]
pub enum ManifestBody {
    Image(ImageManifest),
    Index(IndexManifest),
}

/// Why a manifest was refused.
#[derive(Debug, Clone, Copy, PartialEq, Eq, Structural)]
pub enum ManifestError {
    /// The content type names no known media type.
    UnknownMediaType,
    /// The bytes do not decode in the shape that the content type calls for.
    Undecodable,
}

/// Whether the content type `content_type` calls for an index; an error if
/// it names no media type.
pub open spec fn index_expected(content_type: Seq<char>) -> Option<bool> {
    match media_type_from_text(content_type) {
        Some(m) => Some(m.index_kind()),
        None => None,
    }
}

/// Whether a manifest of content type `content_type` is to be decoded as an
/// index (`Ok(true)`) or as an image manifest (`Ok(false)`).
pub fn expects_index(content_type: &str) -> (r: Result<bool, ManifestError>)
    ensures
        match index_expected(content_type@) {
            Some(b) => r == Ok::<bool, ManifestError>(b),
            None => r == Err::<bool, ManifestError>(ManifestError::UnknownMediaType),
        },
{
    match MediaType::try_from(content_type) {
        Ok(m) => Ok(m.is_index()),
        Err(_) => Err(ManifestError::UnknownMediaType),
    }
}

/// How a manifest push with content type `content_type` and decoded body
/// `body` fails, if it does.
pub open spec fn manifest_refusal(content_type: Seq<char>, body: Option<ManifestBody>) -> Option<ManifestError> {
    match index_expected(content_type) {
        None => Some(ManifestError::UnknownMediaType),
        Some(true) => match body {
            Some(ManifestBody::Index(_)) => None,
            _ => Some(ManifestError::Undecodable),
        },
        Some(false) => match body {
            Some(ManifestBody::Image(_)) => None,
            _ => Some(ManifestError::Undecodable),
        },
    }
}

/// The artifacts a decoded manifest depends on, in repository `ns`.
pub open spec fn body_refs(ns: Seq<char>, body: ManifestBody) -> Seq<RefView> {
    match body {
        ManifestBody::Image(m) => image_refs(ns, m),
        ManifestBody::Index(m) => index_refs(ns, m),
    }
}

/// The digest the registry gives to manifest bytes `content`.
pub open spec fn manifest_digest(content: Seq<u8>) -> Seq<char> {
    sha256_prefix() + sha256_hex(content)
}

/// The manifests after `content` is pushed to `reference` in `ns`: the
/// record is stored under the reference and under its digest.
pub open spec fn manifest_put(
    s: Map<(Seq<char>, Seq<char>), (Seq<char>, Seq<u8>)>,
    ns: Seq<char>,
    reference: Seq<char>,
    content_type: Seq<char>,
    content: Seq<u8>,
) -> Map<(Seq<char>, Seq<char>), (Seq<char>, Seq<u8>)> {
    s.insert((ns, reference), (content_type, content)).insert(
        (ns, manifest_digest(content)),
        (content_type, content),
    )
}

/// PUT of manifest `content` to `reference` in repository `ns`. `body` is
/// the content decoded in the shape that `expects_index` gives for the
/// content type, or `None` where it did not decode.
pub fn store_manifest(
    ns: String,
    reference: String,
    content_type: String,
    content: Bytes,
    body: Option<ManifestBody>,
    store: &mut ManifestStore,
    cm: &mut ChannelMap,
) -> (r: Result<Response, ManifestError>)
    requires
        old(store).wf(),
        old(cm).wf(),
    ensures
        final(store).wf(),
        final(cm).wf(),
        match r {
            Ok(resp) => {
                &&& manifest_refusal(content_type@, body) is None
                &&& resp.status == CREATED
                &&& resp.content_digest matches Some(d) && d@ == manifest_digest(bytes_view(content))
                &&& resp.location is None && resp.range_end is None
                &&& resp.content_type is None && resp.content_length is None
                &&& bytes_view(resp.body).len() == 0
                &&& final(store)@ == manifest_put(
                    old(store)@,
                    ns@,
                    reference@,
                    content_type@,
                    bytes_view(content),
                )
                &&& final(cm)@ == publish(
                    old(cm)@,
                    ns@,
                    event_view(
                        DataType::Manifest,
                        Method::Put,
                        OK,
                        ns@,
                        reference@,
                        Some(body_refs(ns@, body->Some_0)),
                    ),
                )
            },
            Err(e) => {
                &&& manifest_refusal(content_type@, body) == Some(e)
                &&& final(store)@ == old(store)@
                &&& final(cm)@ == old(cm)@
            },
        },
{
    let index = match expects_index(content_type.as_str()) {
        Ok(b) => b,
        Err(e) => {
            return Err(e);
        },
    };
    let refs = match &body {
        Some(ManifestBody::Index(m)) => {
            if !index {
                return Err(ManifestError::Undecodable);
            }
            m.refs(&ns)
        },
        Some(ManifestBody::Image(m)) => {
            if index {
                return Err(ManifestError::Undecodable);
            }
            m.refs(&ns)
        },
        None => {
            return Err(ManifestError::Undecodable);
        },
    };
    let digest = content_digest(&content);
    let by_reference = Manifest { content_type: content_type.clone(), content: share_bytes(&content) };
    let by_digest = Manifest { content_type, content };
    store.put(ns.clone(), reference.clone(), by_reference);
    store.put(ns.clone(), digest.clone(), by_digest);
    send(&ns, DataType::Manifest, Method::Put, OK, reference, Some(refs), cm);
    Ok(
        Response {
            status: CREATED,
            location: None,
            range_end: None,
            content_digest: Some(digest),
            content_type: None,
            content_length: None,
            body: empty_bytes(),
        },
    )
}

/// GET of manifest `reference` in repository `ns`.
pub fn get_manifest(ns: String, reference: String, store: &ManifestStore, cm: &mut ChannelMap) -> (r: Response)
    requires
        store.wf(),
        old(cm).wf(),
    ensures
        final(cm).wf(),
        store@.contains_key((ns@, reference@)) ==> {
            &&& r.status == OK
            &&& r.content_type matches Some(t) && t@ == store@[(ns@, reference@)].0
            &&& r.content_length == Some(store@[(ns@, reference@)].1.len() as usize)
            &&& bytes_view(r.body) == store@[(ns@, reference@)].1
            &&& r.location is None && r.range_end is None && r.content_digest is None
        },
        !store@.contains_key((ns@, reference@)) ==> is_bare(r, NOT_FOUND),
        final(cm)@ == publish(
            old(cm)@,
            ns@,
            event_view(DataType::Manifest, Method::Get, r.status, ns@, reference@, None),
        ),
{
    match store.get(&ns, &reference) {
        None => {
            send(&ns, DataType::Manifest, Method::Get, NOT_FOUND, reference, None, cm);
            Response::bare(NOT_FOUND)
        },
        Some(m) => {
            send(&ns, DataType::Manifest, Method::Get, OK, reference, None, cm);
            let len = bytes_len(&m.content);
            Response {
                status: OK,
                location: None,
                range_end: None,
                content_digest: None,
                content_type: Some(m.content_type),
                content_length: Some(len),
                body: m.content,
            }
        },
    }
}

/// HEAD of manifest `reference` in repository `ns`.
pub fn manifest_exists(ns: String, reference: String, store: &ManifestStore, cm: &mut ChannelMap) -> (r: Response)
    requires
        store.wf(),
        old(cm).wf(),
    ensures
        final(cm).wf(),
        is_bare(r, if store@.contains_key((ns@, reference@)) { OK } else { NOT_FOUND }),
        final(cm)@ == publish(
            old(cm)@,
            ns@,
            event_view(DataType::Manifest, Method::Head, r.status, ns@, reference@, None),
        ),
{
    let status = if store.contains(&ns, &reference) {
        OK
    } else {
        NOT_FOUND
    };
    send(&ns, DataType::Manifest, Method::Head, status, reference, None, cm);
    Response::bare(status)
}

/// GET of the event stream of repository `ns`: joins a new subscription to
/// its topic, creating the topic if needed, and returns the subscription's
/// id; `None`, with nothing changed, once ids are used up.
pub fn send_events(ns: String, cm: &mut ChannelMap) -> (r: Option<u64>)
    requires
        old(cm).wf(),
    ensures
        final(cm).wf(),
        match r {
            Some(id) => old(cm)@.next_id < u64::MAX && id == old(cm)@.next_id
                && final(cm)@ == crate::channel::subscribe(old(cm)@, ns@),
            None => old(cm)@.next_id == u64::MAX && final(cm)@ == old(cm)@,
        },
{
    cm.subscribe(ns)
}

// ---- laws

/// A blob pushed in one piece (no upload in progress under its id) is
/// stored unchanged under the digest it was pushed with.
pub proof fn lemma_blob_round_trip(
    blobs: Map<Seq<char>, Seq<u8>>,
    uploads: Map<Seq<char>, Seq<u8>>,
    id: Seq<char>,
    digest: Seq<char>,
    body: Seq<u8>,
)
    requires
        !uploads.contains_key(id),
    ensures
        blobs.insert(digest, appended(uploads, id, body)).contains_key(digest),
        blobs.insert(digest, appended(uploads, id, body))[digest] == body,
{
}

/// A pushed manifest can be read back both under the reference it was
/// pushed to and under its digest, with the same bytes and content type.
pub proof fn lemma_manifest_dual_index(
    s: Map<(Seq<char>, Seq<char>), (Seq<char>, Seq<u8>)>,
    ns: Seq<char>,
    reference: Seq<char>,
    content_type: Seq<char>,
    content: Seq<u8>,
)
    ensures
        manifest_put(s, ns, reference, content_type, content).contains_key((ns, reference)),
        manifest_put(s, ns, reference, content_type, content)[(ns, reference)] == (content_type, content),
        manifest_put(s, ns, reference, content_type, content).contains_key((ns, manifest_digest(content))),
        manifest_put(s, ns, reference, content_type, content)[(ns, manifest_digest(content))] == (
            content_type,
            content,
        ),
{
}

/// Pushing the same manifest bytes to the same reference twice leaves the
/// store as one push does; both pushes answer with the same digest.
pub proof fn lemma_manifest_put_idempotent(
    s: Map<(Seq<char>, Seq<char>), (Seq<char>, Seq<u8>)>,
    ns: Seq<char>,
    reference: Seq<char>,
    content_type: Seq<char>,
    content: Seq<u8>,
)
    ensures
        manifest_put(manifest_put(s, ns, reference, content_type, content), ns, reference, content_type, content)
            == manifest_put(s, ns, reference, content_type, content),
{
    let once = manifest_put(s, ns, reference, content_type, content);
    let twice = manifest_put(once, ns, reference, content_type, content);
    assert(twice =~= once);
}

/// The bytes of a list of chunks, one after another.
pub open spec fn joined(chunks: Seq<Seq<u8>>) -> Seq<u8>
    decreases chunks.len(),
{
    if chunks.len() == 0 {
        Seq::empty()
    } else {
        joined(chunks.drop_last()) + chunks.last()
    }
}

/// The uploads after each of `chunks` is sent for upload `id`, each with a
/// range that starts where the chunks before it end.
pub open spec fn send_chunks(
    uploads: Map<Seq<char>, Seq<u8>>,
    id: Seq<char>,
    chunks: Seq<Seq<u8>>,
) -> Map<Seq<char>, Seq<u8>>
    decreases chunks.len(),
{
    if chunks.len() == 0 {
        uploads
    } else {
        let front = chunks.drop_last();
        chunk_effect(send_chunks(uploads, id, front), id, Some(joined(front).len()), chunks.last())
    }
}

/// Chunks sent for a new upload, each starting where the previous ones end,
/// are all accepted, and the upload then holds their concatenation; no
/// other upload changes.
pub proof fn lemma_chunks_concatenate(uploads: Map<Seq<char>, Seq<u8>>, id: Seq<char>, chunks: Seq<Seq<u8>>)
    requires
        !uploads.contains_key(id),
        chunks.len() > 0,
    ensures
        send_chunks(uploads, id, chunks).contains_key(id),
        send_chunks(uploads, id, chunks)[id] == joined(chunks),
        send_chunks(uploads, id, chunks).remove(id) == uploads,
    decreases chunks.len(),
{
    let front = chunks.drop_last();
    let last = chunks.last();
    if front.len() == 0 {
        assert(send_chunks(uploads, id, front) == uploads);
        assert(joined(front) =~= Seq::<u8>::empty());
        assert(chunk_fits(uploads, id, Some(joined(front).len())));
        assert(send_chunks(uploads, id, chunks) == uploads.insert(id, last));
        assert(joined(chunks) =~= last);
        assert(uploads.insert(id, last).remove(id) =~= uploads);
    } else {
        lemma_chunks_concatenate(uploads, id, front);
        let p = send_chunks(uploads, id, front);
        assert(chunk_fits(p, id, Some(joined(front).len())));
        assert(send_chunks(uploads, id, chunks) == p.insert(id, p[id] + last));
        assert(joined(chunks) == joined(front) + last);
        assert(p.insert(id, p[id] + last).remove(id) =~= p.remove(id));
    }
}

/// A chunk whose range does not start at the current length of an upload
/// in progress leaves every upload unchanged.
pub proof fn lemma_misplaced_chunk(
    uploads: Map<Seq<char>, Seq<u8>>,
    id: Seq<char>,
    start: nat,
    body: Seq<u8>,
)
    requires
        uploads.contains_key(id),
        start != uploads[id].len(),
    ensures
        chunk_effect(uploads, id, Some(start), body) == uploads,
{
}

/// Once a PUT has finished upload `id`, the id is unknown again: a chunk for
/// it is taken only as the start of a new upload, and a PUT stores its body
/// alone.
pub proof fn lemma_upload_consumed(
    uploads: Map<Seq<char>, Seq<u8>>,
    id: Seq<char>,
    start: Option<nat>,
    body: Seq<u8>,
)
    ensures
        !uploads.remove(id).contains_key(id),
        chunk_fits(uploads.remove(id), id, start) == (start is None || start == Some(0nat)),
        appended(uploads.remove(id), id, body) == body,
{
}

} // verus!
