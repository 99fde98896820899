//! A pull as a session: each registry answer or finished write moves the
//! session on and names the next piece of outside work.
use vstd::prelude::*;
use crate::image::ImageReference;
use crate::registry::{
    bearer, blob_url_spec, config_path_spec, download_plan, layer_path_spec, layers_dir,
    layers_dir_spec, manifest_error, manifest_of, manifest_url, manifest_url_spec, read_manifest,
    read_token, resolve_error, resolve_manifest, token_url, token_url_spec, Download,
    ImageManifest, ManifestDocument, PullError, Resolution, TokenResponse,
};

verus! {

/// Where a pull stands.
#[derive(Debug, Clone, Copy, PartialEq, Eq, Structural)]
pub enum PullPhase {
    /// Waiting for the token response.
    AwaitToken,
    /// Waiting for the manifest fetched by tag.
    AwaitManifest,
    /// Waiting for the architecture's manifest, fetched by digest.
    AwaitArchManifest,
    /// Waiting for the layer directory to be created.
    AwaitLayersDir,
    /// Waiting for the blob at position `written` of the plan to be stored.
    AwaitBlob,
    /// Every blob is stored.
    Done,
    /// The pull failed.
    Failed(PullError),
}

/// What the registry or the store answered to the last action.
pub enum PullEvent {
    /// The body of the token response.
    Token(TokenResponse),
    /// The body of a manifest response.
    Manifest(ManifestDocument),
    /// The directory was created, or the blob's bytes were written.
    Stored,
}

/// The next piece of outside work.
pub enum PullAction {
    /// GET the token response at `url`.
    GetToken { url: String },
    /// GET the manifest at `url`, with `auth_header` as the `Authorization`
    /// header and the manifest `Accept` header.
    GetManifest { url: String, auth_header: String },
    /// Create this directory and its parents.
    CreateDir(String),
    /// GET the blob at `download.url` with `auth_header` as the `Authorization` header and
    /// write its bytes verbatim to `download.path`.
    Fetch { download: Download, auth_header: String },
    /// The pull is complete.
    Finish,
    /// The pull failed.
    Fail(PullError),
}

/// The state of one pull.
pub struct PullSession {
    pub image: ImageReference,
    /// The host's registry architecture token.
    pub arch: String,
    /// The `Authorization` header value, once the token is known.
    pub authorization: String,
    /// The manifest, once known.
    pub manifest: Option<ImageManifest>,
    /// The blobs to fetch, in order, once the manifest is known.
    pub plan: Vec<Download>,
    /// How many blobs of the plan are stored.
    pub written: usize,
    pub phase: PullPhase,
}

/// `plan` is the download plan of manifest `m` for `img`.
pub open spec fn plan_of(img: ImageReference, m: ImageManifest, plan: Seq<Download>) -> bool {
    &&& plan.len() == m.layers@.len() + 1
    &&& plan[0].url@ == blob_url_spec(img.namespace@, img.repository@, m.config_digest@)
    &&& plan[0].path@ == config_path_spec(img.repository@)
    &&& forall|i: int|
        0 <= i < m.layers@.len() ==> {
            &&& (#[trigger] plan[i + 1]).url@ == blob_url_spec(
                img.namespace@,
                img.repository@,
                m.layers@[i]@,
            )
            &&& plan[i + 1].path@ == layer_path_spec(img.repository@, m.layers@[i]@)
        }
}

/// `a` fetches the blob at position `i` of the session's plan.
pub open spec fn fetches(s: PullSession, a: PullAction, i: int) -> bool {
    a matches PullAction::Fetch { download, auth_header } && 0 <= i < s.plan@.len()
        && download.url == s.plan@[i].url && download.path == s.plan@[i].path && auth_header
        == s.authorization
}

impl PullSession {
    /// The session's invariant: the plan belongs to the manifest once there
    /// is one, and blobs are counted within it.
    pub open spec fn wf(&self) -> bool {
        &&& self.written <= self.plan@.len()
        &&& (self.phase == PullPhase::AwaitLayersDir || self.phase == PullPhase::AwaitBlob
            || self.phase == PullPhase::Done) ==> (self.manifest matches Some(m) && plan_of(
            self.image,
            m,
            self.plan@,
        ))
        &&& self.phase == PullPhase::AwaitLayersDir ==> self.written == 0
        &&& self.phase == PullPhase::AwaitBlob ==> self.written < self.plan@.len()
        &&& self.phase == PullPhase::Done ==> self.written == self.plan@.len()
    }

    /// Starts a pull of `image` for the architecture token `arch`: the
    /// first action asks for a pull token.
    pub fn start(image: ImageReference, arch: &str) -> (r: (PullSession, PullAction))
        ensures
            r.0.wf(),
            r.0.image == image,
            r.0.arch@ == arch@,
            r.0.phase == PullPhase::AwaitToken,
            r.1 matches PullAction::GetToken { url } && url@ == token_url_spec(
                image.namespace@,
                image.repository@,
            ),
    {
        let url = token_url(&image);
        (
            PullSession {
                image,
                arch: String::from_str(arch),
                authorization: String::new(),
                manifest: None,
                plan: Vec::new(),
                written: 0,
                phase: PullPhase::AwaitToken,
            },
            PullAction::GetToken { url },
        )
    }

    fn fail(&mut self, e: PullError) -> (r: PullAction)
        requires
            old(self).wf(),
        ensures
            final(self).wf(),
            final(self).phase == PullPhase::Failed(e),
            final(self).image == old(self).image,
            final(self).arch == old(self).arch,
            r == PullAction::Fail(e),
    {
        self.phase = PullPhase::Failed(e);
        PullAction::Fail(e)
    }

    fn begin_downloads(&mut self, m: ImageManifest) -> (r: PullAction)
        requires
            old(self).wf(),
        ensures
            final(self).wf(),
            final(self).image == old(self).image,
            final(self).arch == old(self).arch,
            final(self).authorization == old(self).authorization,
            final(self).manifest == Some(m),
            final(self).phase == PullPhase::AwaitLayersDir,
            r matches PullAction::CreateDir(d) && d@ == layers_dir_spec(old(self).image.repository@),
    {
        let plan = download_plan(&self.image, &m);
        let dir = layers_dir(self.image.repository.as_str());
        self.plan = plan;
        self.manifest = Some(m);
        self.written = 0;
        self.phase = PullPhase::AwaitLayersDir;
        PullAction::CreateDir(dir)
    }

    fn next_fetch(&self) -> (r: PullAction)
        requires
            self.written < self.plan@.len(),
        ensures
            fetches(*self, r, self.written as int),
    {
        let d = &self.plan[self.written];
        PullAction::Fetch {
            download: Download { url: d.url.clone(), path: d.path.clone() },
            auth_header: self.authorization.clone(),
        }
    }

    /// Moves the pull on by one answer and returns the next action. The
    /// token gives the `Authorization` header and the manifest request by
    /// tag; a manifest list leads to the request of its entry for the
    /// architecture, a single manifest to the layer directory and then to
    /// the blobs of its plan, one at a time, in order. Each error of the
    /// registry's answers ends the pull, as does an answer that does not
    /// fit the phase; an ended pull stays as it is.
    pub fn step(&mut self, ev: PullEvent) -> (r: PullAction)
        requires
            old(self).wf(),
        ensures
            final(self).wf(),
            final(self).image == old(self).image,
            final(self).arch == old(self).arch,
            match (old(self).phase, ev) {
                (PullPhase::AwaitToken, PullEvent::Token(resp)) => match resp.token {
                    Some(t) => {
                        &&& final(self).authorization@ == "Bearer "@ + t@
                        &&& final(self).phase == PullPhase::AwaitManifest
                        &&& r matches PullAction::GetManifest { url, auth_header } && url@
                            == manifest_url_spec(
                            old(self).image.namespace@,
                            old(self).image.repository@,
                            old(self).image.tag@,
                        ) && auth_header == final(self).authorization
                    },
                    None => final(self).phase == PullPhase::Failed(PullError::MissingToken) && r
                        == PullAction::Fail(PullError::MissingToken),
                },
                (PullPhase::AwaitManifest, PullEvent::Manifest(doc)) => match resolve_error(
                    doc,
                    old(self).arch@,
                ) {
                    Some(e) => final(self).phase == PullPhase::Failed(e) && r == PullAction::Fail(
                        e,
                    ),
                    None => match doc.manifests {
                        Some(es) => {
                            &&& final(self).phase == PullPhase::AwaitArchManifest
                            &&& final(self).authorization == old(self).authorization
                            &&& r matches PullAction::GetManifest { url, auth_header } && es@[crate::registry::first_match(
                                es@,
                                old(self).arch@,
                            )].digest matches Some(d) && url@ == manifest_url_spec(
                                old(self).image.namespace@,
                                old(self).image.repository@,
                                d@,
                            ) && auth_header == old(self).authorization
                        },
                        None => {
                            &&& final(self).phase == PullPhase::AwaitLayersDir
                            &&& final(self).authorization == old(self).authorization
                            &&& final(self).manifest matches Some(m) && manifest_of(doc, m)
                            &&& r matches PullAction::CreateDir(d) && d@ == layers_dir_spec(
                                old(self).image.repository@,
                            )
                        },
                    },
                },
                (PullPhase::AwaitArchManifest, PullEvent::Manifest(doc)) => match manifest_error(
                    doc,
                ) {
                    Some(e) => final(self).phase == PullPhase::Failed(e) && r == PullAction::Fail(
                        e,
                    ),
                    None => {
                        &&& final(self).phase == PullPhase::AwaitLayersDir
                        &&& final(self).authorization == old(self).authorization
                        &&& final(self).manifest matches Some(m) && manifest_of(doc, m)
                        &&& r matches PullAction::CreateDir(d) && d@ == layers_dir_spec(
                            old(self).image.repository@,
                        )
                    },
                },
                (PullPhase::AwaitLayersDir, PullEvent::Stored) => {
                    &&& final(self).phase == PullPhase::AwaitBlob
                    &&& final(self).plan == old(self).plan
                    &&& final(self).written == 0
                    &&& fetches(*final(self), r, 0)
                },
                (PullPhase::AwaitBlob, PullEvent::Stored) => {
                    &&& final(self).plan == old(self).plan
                    &&& final(self).written == old(self).written + 1
                    &&& if final(self).written == final(self).plan@.len() {
                        final(self).phase == PullPhase::Done && r == PullAction::Finish
                    } else {
                        final(self).phase == PullPhase::AwaitBlob && fetches(
                            *final(self),
                            r,
                            final(self).written as int,
                        )
                    }
                },
                (PullPhase::Done, _) => *final(self) == *old(self) && r == PullAction::Finish,
                (PullPhase::Failed(e), _) => *final(self) == *old(self) && r == PullAction::Fail(e),
                _ => final(self).phase == PullPhase::Failed(PullError::OutOfOrder) && r
                    == PullAction::Fail(PullError::OutOfOrder),
            },
    {
        match self.phase {
            PullPhase::AwaitToken => match ev {
                PullEvent::Token(resp) => match read_token(resp) {
                    Ok(t) => {
                        self.authorization = bearer(t.as_str());
                        self.phase = PullPhase::AwaitManifest;
                        let url = manifest_url(&self.image, self.image.tag.as_str());
                        PullAction::GetManifest { url, auth_header: self.authorization.clone() }
                    },
                    Err(e) => self.fail(e),
                },
                _ => self.fail(PullError::OutOfOrder),
            },
            PullPhase::AwaitManifest => match ev {
                PullEvent::Manifest(doc) => match resolve_manifest(&doc, self.arch.as_str()) {
                    Ok(Resolution::FetchByDigest(d)) => {
                        self.phase = PullPhase::AwaitArchManifest;
                        let url = manifest_url(&self.image, d.as_str());
                        PullAction::GetManifest { url, auth_header: self.authorization.clone() }
                    },
                    Ok(Resolution::Manifest(m)) => self.begin_downloads(m),
                    Err(e) => self.fail(e),
                },
                _ => self.fail(PullError::OutOfOrder),
            },
            PullPhase::AwaitArchManifest => match ev {
                PullEvent::Manifest(doc) => match read_manifest(&doc) {
                    Ok(m) => self.begin_downloads(m),
                    Err(e) => self.fail(e),
                },
                _ => self.fail(PullError::OutOfOrder),
            },
            PullPhase::AwaitLayersDir => match ev {
                PullEvent::Stored => {
                    self.written = 0;
                    self.phase = PullPhase::AwaitBlob;
                    self.next_fetch()
                },
                _ => self.fail(PullError::OutOfOrder),
            },
            PullPhase::AwaitBlob => match ev {
                PullEvent::Stored => {
                    let n = self.plan.len();
                    self.written = self.written + 1;
                    if self.written == n {
                        self.phase = PullPhase::Done;
                        PullAction::Finish
                    } else {
                        self.next_fetch()
                    }
                },
                _ => self.fail(PullError::OutOfOrder),
            },
            PullPhase::Done => PullAction::Finish,
            PullPhase::Failed(e) => PullAction::Fail(e),
        }
    }
}

/// A pull that reports success has stored every blob of its plan, in order:
/// the config blob and then each layer of its manifest.
pub proof fn lemma_finished_pull_stored_all(s: PullSession)
    requires
        s.wf(),
        s.phase == PullPhase::Done,
    ensures
        s.written == s.plan@.len(),
        s.manifest matches Some(m) && s.plan@.len() == m.layers@.len() + 1 && plan_of(
            s.image,
            m,
            s.plan@,
        ),
{
}

} // verus!
