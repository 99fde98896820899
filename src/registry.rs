//! The registry protocol: where to ask for a token, a manifest and a blob;
//! checking the registry's answers; choosing the manifest for the host's
//! architecture; and where each downloaded blob goes.
use vstd::prelude::*;
use crate::arch::arch_token;
use crate::image::ImageReference;
use crate::text::{child_path, replace_char, replaced, str_eq};

verus! {

/// The registry's authentication endpoint.
pub open spec fn auth_endpoint() -> Seq<char> {
    "https://auth.docker.io/token"@
}

/// The registry's base address.
pub open spec fn registry_base() -> Seq<char> {
    "https://registry-1.docker.io"@
}

pub open spec fn token_url_spec(ns: Seq<char>, repo: Seq<char>) -> Seq<char> {
    auth_endpoint() + "?service=registry.docker.io&scope=repository:"@ + ns + "/"@ + repo
        + ":pull"@
}

pub open spec fn manifest_url_spec(ns: Seq<char>, repo: Seq<char>, reference: Seq<char>) -> Seq<
    char,
> {
    registry_base() + "/v2/"@ + ns + "/"@ + repo + "/manifests/"@ + reference
}

pub open spec fn blob_url_spec(ns: Seq<char>, repo: Seq<char>, digest: Seq<char>) -> Seq<char> {
    registry_base() + "/v2/"@ + ns + "/"@ + repo + "/blobs/"@ + digest
}

/// The address of a pull token scoped to the image's repository.
pub fn token_url(img: &ImageReference) -> (r: String)
    ensures
        r@ == token_url_spec(img.namespace@, img.repository@),
{
    let mut s = String::from_str("https://auth.docker.io/token");
    s.append("?service=registry.docker.io&scope=repository:");
    s.append(img.namespace.as_str());
    s.append("/");
    s.append(img.repository.as_str());
    s.append(":pull");
    s
}

/// The address of the image's manifest for `reference`, a tag or a digest.
pub fn manifest_url(img: &ImageReference, reference: &str) -> (r: String)
    ensures
        r@ == manifest_url_spec(img.namespace@, img.repository@, reference@),
{
    let mut s = String::from_str("https://registry-1.docker.io");
    s.append("/v2/");
    s.append(img.namespace.as_str());
    s.append("/");
    s.append(img.repository.as_str());
    s.append("/manifests/");
    s.append(reference);
    s
}

/// The address of the blob with `digest` in the image's repository.
pub fn blob_url(img: &ImageReference, digest: &str) -> (r: String)
    ensures
        r@ == blob_url_spec(img.namespace@, img.repository@, digest@),
{
    let mut s = String::from_str("https://registry-1.docker.io");
    s.append("/v2/");
    s.append(img.namespace.as_str());
    s.append("/");
    s.append(img.repository.as_str());
    s.append("/blobs/");
    s.append(digest);
    s
}

/// The `Authorization` header value for a token.
pub fn bearer(token: &str) -> (r: String)
    ensures
        r@ == "Bearer "@ + token@,
{
    let mut s = String::from_str("Bearer ");
    s.append(token);
    s
}

/// The `Accept` header of a manifest request: manifest list, manifest, and
/// their OCI counterparts.
pub fn manifest_accept() -> (r: &'static str)
    ensures
        r@ == "application/vnd.docker.distribution.manifest.list.v2+json,application/vnd.docker.distribution.manifest.v2+json,application/vnd.oci.image.manifest.v1+json,application/vnd.oci.image.index.v1+json"@,
{
    "application/vnd.docker.distribution.manifest.list.v2+json,application/vnd.docker.distribution.manifest.v2+json,application/vnd.oci.image.manifest.v1+json,application/vnd.oci.image.index.v1+json"
}

/// A pull failure that the registry's answers cause.
#[derive(Debug, Clone, Copy, PartialEq, Eq, Structural)]
pub enum PullError {
    /// The token response has no `token`.
    MissingToken,
    /// No manifest-list entry is for the host's architecture.
    UnsupportedArchitecture,
    /// The chosen manifest-list entry has no `digest`.
    MissingEntryDigest,
    /// The manifest has no `config.digest`.
    MissingConfigDigest,
    /// The manifest has no `layers`.
    MissingLayers,
    /// A layer of the manifest has no `digest`.
    MissingLayerDigest,
    /// An answer came that the pull was not waiting for.
    OutOfOrder,
}

/// The fields of the token response that the pull reads.
pub struct TokenResponse {
    pub token: Option<String>,
}

/// Takes the token out of the token response.
pub fn read_token(resp: TokenResponse) -> (r: Result<String, PullError>)
    ensures
        match resp.token {
            Some(t) => r == Ok::<String, PullError>(t),
            None => r == Err::<String, PullError>(PullError::MissingToken),
        },
{
    match resp.token {
        Some(t) => Ok(t),
        None => Err(PullError::MissingToken),
    }
}

/// One entry of a manifest list: `platform.architecture` and `digest`.
pub struct PlatformEntry {
    pub architecture: Option<String>,
    pub digest: Option<String>,
}

/// The fields of a manifest response that the pull reads. `manifests` is
/// present when the response is a manifest list.
pub struct ManifestDocument {
    pub manifests: Option<Vec<PlatformEntry>>,
    pub config_digest: Option<String>,
    pub layers: Option<Vec<Option<String>>>,
}

/// A single manifest: the digests of the config blob and of the layers, in order.
pub struct ImageManifest {
    pub config_digest: String,
    pub layers: Vec<String>,
}

/// Where the manifest stands after the first manifest response.
pub enum Resolution {
    /// The response was a single manifest.
    Manifest(ImageManifest),
    /// The response was a list: fetch the manifest with this digest.
    FetchByDigest(String),
}

/// Every layer of the manifest names its digest.
pub open spec fn layers_complete(ls: Seq<Option<String>>) -> bool {
    forall|i: int| 0 <= i < ls.len() ==> (#[trigger] ls[i]) is Some
}

/// The error, if any, in reading a single manifest.
pub open spec fn manifest_error(doc: ManifestDocument) -> Option<PullError> {
    if doc.config_digest is None {
        Some(PullError::MissingConfigDigest)
    } else if doc.layers is None {
        Some(PullError::MissingLayers)
    } else if !layers_complete(doc.layers->0@) {
        Some(PullError::MissingLayerDigest)
    } else {
        None
    }
}

/// `m` holds the digests that `doc` names.
pub open spec fn manifest_of(doc: ManifestDocument, m: ImageManifest) -> bool {
    &&& doc.config_digest == Some(m.config_digest)
    &&& doc.layers matches Some(ls) && ls@.len() == m.layers@.len() && forall|i: int|
        0 <= i < ls@.len() ==> #[trigger] ls@[i] == Some(m.layers@[i])
}

/// Reads a single manifest: its config digest and its layer digests.
pub fn read_manifest(doc: &ManifestDocument) -> (r: Result<ImageManifest, PullError>)
    ensures
        match r {
            Ok(m) => manifest_error(*doc).is_none() && manifest_of(*doc, m),
            Err(e) => manifest_error(*doc) == Some(e),
        },
{
    let config_digest = match &doc.config_digest {
        Some(c) => c.clone(),
        None => return Err(PullError::MissingConfigDigest),
    };
    let ls = match &doc.layers {
        Some(ls) => ls,
        None => return Err(PullError::MissingLayers),
    };
    let mut layers: Vec<String> = Vec::new();
    let mut i: usize = 0;
    while i < ls.len()
        invariant
            doc.layers == Some(*ls),
            doc.config_digest == Some(config_digest),
            i <= ls@.len(),
            layers@.len() == i,
            forall|j: int| 0 <= j < i ==> #[trigger] ls@[j] == Some(layers@[j]),
        decreases ls@.len() - i,
    {
        match &ls[i] {
            Some(digest) => {
                layers.push(digest.clone());
            },
            None => {
                assert(!layers_complete(ls@)) by {
                    assert(ls@[i as int] is None);
                }
                return Err(PullError::MissingLayerDigest);
            },
        }
        i = i + 1;
    }
    assert(layers_complete(ls@));
    Ok(ImageManifest { config_digest, layers })
}

/// The entry is for architecture `arch`.
pub open spec fn entry_matches(e: PlatformEntry, arch: Seq<char>) -> bool {
    e.architecture matches Some(a) && a@ == arch
}

/// Index of the first entry for `arch`, or the length when there is none.
pub open spec fn first_match(es: Seq<PlatformEntry>, arch: Seq<char>) -> int
    decreases es.len(),
{
    if es.len() == 0 {
        0
    } else if entry_matches(es[0], arch) {
        0
    } else {
        1 + first_match(es.drop_first(), arch)
    }
}

proof fn lemma_first_match(es: Seq<PlatformEntry>, arch: Seq<char>, k: int)
    requires
        0 <= k <= es.len(),
        forall|j: int| 0 <= j < k ==> !entry_matches(#[trigger] es[j], arch),
        k < es.len() ==> entry_matches(es[k], arch),
    ensures
        first_match(es, arch) == k,
    decreases es.len(),
{
    if es.len() > 0 && !entry_matches(es[0], arch) {
        let t = es.drop_first();
        assert forall|j: int| 0 <= j < k - 1 implies !entry_matches(#[trigger] t[j], arch) by {
            assert(t[j] == es[j + 1]);
        }
        if k - 1 < t.len() {
            assert(t[k - 1] == es[k]);
        }
        lemma_first_match(t, arch, k - 1);
    }
}

/// The sentinel architecture token of an unrecognised host.
pub open spec fn unknown_arch() -> Seq<char> {
    "unknown"@
}

/// The error, if any, in resolving a manifest response for architecture
/// `arch`. The sentinel token matches no entry.
pub open spec fn resolve_error(doc: ManifestDocument, arch: Seq<char>) -> Option<PullError> {
    match doc.manifests {
        Some(es) => {
            let k = first_match(es@, arch);
            if arch == unknown_arch() || k >= es@.len() {
                Some(PullError::UnsupportedArchitecture)
            } else if es@[k].digest is None {
                Some(PullError::MissingEntryDigest)
            } else {
                None
            }
        },
        None => manifest_error(doc),
    }
}

/// Resolves the first manifest response for the host architecture token
/// `arch`: a manifest list gives the digest of its first entry for `arch`;
/// a single manifest is read as it is.
pub fn resolve_manifest(doc: &ManifestDocument, arch: &str) -> (r: Result<Resolution, PullError>)
    ensures
        match r {
            Ok(Resolution::FetchByDigest(d)) => {
                &&& resolve_error(*doc, arch@).is_none()
                &&& doc.manifests matches Some(es) && es@[first_match(es@, arch@)].digest == Some(d)
            },
            Ok(Resolution::Manifest(m)) => {
                &&& resolve_error(*doc, arch@).is_none()
                &&& doc.manifests is None
                &&& manifest_of(*doc, m)
            },
            Err(e) => resolve_error(*doc, arch@) == Some(e),
        },
{
    match &doc.manifests {
        Some(es) => {
            if str_eq(arch, "unknown") {
                return Err(PullError::UnsupportedArchitecture);
            }
            let mut i: usize = 0;
            while i < es.len()
                invariant
                    doc.manifests == Some(*es),
                    arch@ != unknown_arch(),
                    i <= es@.len(),
                    forall|j: int| 0 <= j < i ==> !entry_matches(#[trigger] es@[j], arch@),
                decreases es@.len() - i,
            {
                let e = &es[i];
                let hit = match &e.architecture {
                    Some(a) => str_eq(a.as_str(), arch),
                    None => false,
                };
                if hit {
                    proof {
                        lemma_first_match(es@, arch@, i as int);
                    }
                    assert(es@[i as int] == *e);
                    return match &e.digest {
                        Some(dg) => {
                            let dd = dg.clone();
                            assert(es@[first_match(es@, arch@)].digest == Some(dd));
                            Ok(Resolution::FetchByDigest(dd))
                        },
                        None => Err(PullError::MissingEntryDigest),
                    };
                }
                i = i + 1;
            }
            proof {
                lemma_first_match(es@, arch@, es@.len() as int);
            }
            Err(PullError::UnsupportedArchitecture)
        },
        None => {
            match read_manifest(doc) {
                Ok(m) => Ok(Resolution::Manifest(m)),
                Err(e) => Err(e),
            }
        },
    }
}

/// A host whose CPU identifier has no registry token finds no manifest in
/// any manifest list: the pull fails with `UnsupportedArchitecture`.
pub proof fn lemma_unknown_host_unsupported(host: Seq<char>, doc: ManifestDocument)
    requires
        arch_token(host) == unknown_arch(),
        doc.manifests is Some,
    ensures
        resolve_error(doc, arch_token(host)) == Some(PullError::UnsupportedArchitecture),
{
}

pub open spec fn config_path_spec(repo: Seq<char>) -> Seq<char> {
    repo + "_config.json"@
}

pub open spec fn layers_dir_spec(repo: Seq<char>) -> Seq<char> {
    repo + "_layers"@
}

/// The file of a layer: its digest with `:` replaced by `_`, and `.tar.gz`,
/// in the repository's layer directory.
pub open spec fn layer_path_spec(repo: Seq<char>, digest: Seq<char>) -> Seq<char> {
    child_path(layers_dir_spec(repo), replaced(digest, ':', '_') + ".tar.gz"@)
}

/// The directory that receives the layer blobs of `repo`.
pub fn layers_dir(repo: &str) -> (r: String)
    ensures
        r@ == layers_dir_spec(repo@),
{
    let mut s = String::from_str(repo);
    s.append("_layers");
    s
}

/// One blob to fetch and the file that receives its bytes verbatim.
pub struct Download {
    pub url: String,
    pub path: String,
}

/// The blobs of a manifest, in order: the config blob into
/// `<repository>_config.json`, then each layer into its file under
/// `<repository>_layers/`.
pub fn download_plan(img: &ImageReference, m: &ImageManifest) -> (r: Vec<Download>)
    ensures
        r@.len() == m.layers@.len() + 1,
        r@[0].url@ == blob_url_spec(img.namespace@, img.repository@, m.config_digest@),
        r@[0].path@ == config_path_spec(img.repository@),
        forall|i: int|
            0 <= i < m.layers@.len() ==> {
                &&& (#[trigger] r@[i + 1]).url@ == blob_url_spec(
                    img.namespace@,
                    img.repository@,
                    m.layers@[i]@,
                )
                &&& r@[i + 1].path@ == layer_path_spec(img.repository@, m.layers@[i]@)
            },
{
    let mut out: Vec<Download> = Vec::new();
    let mut config = String::from_str(img.repository.as_str());
    config.append("_config.json");
    out.push(Download { url: blob_url(img, m.config_digest.as_str()), path: config });
    let dir = layers_dir(img.repository.as_str());
    let mut i: usize = 0;
    while i < m.layers.len()
        invariant
            i <= m.layers@.len(),
            dir@ == layers_dir_spec(img.repository@),
            out@.len() == i + 1,
            out@[0].url@ == blob_url_spec(img.namespace@, img.repository@, m.config_digest@),
            out@[0].path@ == config_path_spec(img.repository@),
            forall|j: int|
                0 <= j < i ==> {
                    &&& (#[trigger] out@[j + 1]).url@ == blob_url_spec(
                        img.namespace@,
                        img.repository@,
                        m.layers@[j]@,
                    )
                    &&& out@[j + 1].path@ == layer_path_spec(img.repository@, m.layers@[j]@)
                },
        decreases m.layers@.len() - i,
    {
        let digest = m.layers[i].as_str();
        let mut path = String::from_str(dir.as_str());
        path.append("/");
        let underscore = "_";
        proof {
            reveal_strlit("_");
            assert(underscore@ =~= seq!['_']);
        }
        let name = replace_char(digest, ':', '_', underscore);
        path.append(name.as_str());
        path.append(".tar.gz");
        out.push(Download { url: blob_url(img, digest), path });
        i = i + 1;
    }
    out
}

} // verus!
