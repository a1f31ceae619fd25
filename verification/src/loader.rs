//! The decisions of the resource loader: where a resource is cached, when
//! the network is asked, how a failure is classified and what comes back.
//!
//! Reading the disk and talking to the network are left to the caller. A
//! load is a short exchange: the loader hands out an action, the caller
//! performs it and reports what happened, until the loader hands out the
//! result.

use crate::texture::{empty_texture, fresh_texture, TextureHolderInterfaceImpl, TextureView};
use vstd::prelude::*;

verus! {

/// Why a load did not produce an image.
#[derive(Clone, Copy, Debug, PartialEq, Eq, Structural)]
pub enum LoaderFailure {
    /// The server answered 400.
    BadRequest,
    /// The server answered 404.
    NotFound,
    /// The server could not be reached.
    NetworkFailure,
    /// The bytes are not an image.
    DecodeFailure,
    /// Anything else.
    Other,
}

/// What a load stands for: an image and no failure, or a failure and the
/// empty texture.
pub struct TextureLoaderResultView {
    pub texture: TextureView,
    pub failure: Option<LoaderFailure>,
}

/// The result of a load that produced an image.
pub open spec fn loaded(width: nat, height: nat, data: Seq<u8>) -> TextureLoaderResultView {
    TextureLoaderResultView { texture: fresh_texture(width, height, data), failure: None }
}

/// The result of a load that failed.
pub open spec fn failed(kind: LoaderFailure) -> TextureLoaderResultView {
    TextureLoaderResultView { texture: empty_texture(), failure: Some(kind) }
}

/// The outcome of a load. A failure always comes with the empty texture, so
/// that the texture can be used without looking at the status first.
pub struct TextureLoaderResult {
    texture: TextureHolderInterfaceImpl,
    failure: Option<LoaderFailure>,
}

impl View for TextureLoaderResult {
    type V = TextureLoaderResultView;

    closed spec fn view(&self) -> TextureLoaderResultView {
        TextureLoaderResultView { texture: self.texture@, failure: self.failure }
    }
}

impl TextureLoaderResult {
    #[verifier::type_invariant]
    spec fn never_partial(&self) -> bool {
        self.failure is Some ==> self.texture@ == empty_texture()
    }

    /// The result of a load that produced `texture`.
    pub fn success(texture: TextureHolderInterfaceImpl) -> (result: Self)
        ensures
            result@ == (TextureLoaderResultView { texture: texture@, failure: None }),
    {
        TextureLoaderResult { texture, failure: None }
    }

    /// The result of a load that failed for the reason `kind`.
    pub fn failure(kind: LoaderFailure) -> (result: Self)
        ensures
            result@ == failed(kind),
    {
        TextureLoaderResult { texture: TextureHolderInterfaceImpl::default(), failure: Some(kind) }
    }

    /// Whether the load produced an image.
    pub fn is_ok(&self) -> (ok: bool)
        ensures
            ok == (self@.failure is None),
    {
        self.failure.is_none()
    }

    /// Why the load failed, if it did.
    pub fn status(&self) -> (failure: Option<LoaderFailure>)
        ensures
            failure == self@.failure,
            failure is Some ==> self@.texture == empty_texture(),
    {
        proof {
            use_type_invariant(self);
        }
        self.failure
    }

    /// The texture: the image of a successful load, the empty texture
    /// otherwise.
    pub fn texture(&self) -> (texture: &TextureHolderInterfaceImpl)
        ensures
            texture@ == self@.texture,
            self@.failure is Some ==> texture@ == empty_texture(),
    {
        proof {
            use_type_invariant(self);
        }
        &self.texture
    }

    /// Gives up the result for its texture.
    pub fn into_texture(self) -> (texture: TextureHolderInterfaceImpl)
        ensures
            texture@ == self@.texture,
            self@.failure is Some ==> texture@ == empty_texture(),
    {
        proof {
            use_type_invariant(&self);
        }
        self.texture
    }
}

/// What a request for a resource names: its address and, optionally, the
/// validation token of a copy the caller already knows. The token is carried
/// along and never looked at.
pub struct LoaderRequest {
    pub url: String,
    pub etag: Option<String>,
}

/// The path component of `url`, as the `url` crate reads it; `None` when it
/// does not accept `url` as an absolute address.
pub uninterp spec fn url_path(url: Seq<char>) -> Option<Seq<char>>;

/// The view of an optional string.
pub open spec fn text_view(text: Option<String>) -> Option<Seq<char>> {
    match text {
        Some(t) => Some(t@),
        None => None,
    }
}

/// Calls `url::Url::parse` and, where it succeeds, `Url::path` on what it
/// returns. Nothing is claimed about the path but that it is a function of
/// the address.
#[verifier::external_body]
fn parse_url_path(url: &str) -> (path: Option<String>)
    ensures
        text_view(path) == url_path(url@),
{
    match url::Url::parse(url) {
        Ok(parsed) => Some(parsed.path().to_string()),
        Err(_) => None,
    }
}

/// Where the resource at `url` is cached: the cache root followed by the
/// path component of the address.
pub open spec fn cache_path_spec(url: Seq<char>) -> Option<Seq<char>> {
    match url_path(url) {
        Some(path) => Some("tiles/"@ + path),
        None => None,
    }
}

/// The file in which the resource at `url` is cached, or nothing when `url`
/// is not an absolute address.
pub fn cache_path(url: &str) -> (path: Option<String>)
    ensures
        text_view(path) == cache_path_spec(url@),
{
    match parse_url_path(url) {
        Some(component) => {
            let mut path = String::from_str("tiles/");
            path.append(component.as_str());
            Some(path)
        },
        None => None,
    }
}

/// The view of an optional decoded image: width, height and pixels.
pub open spec fn decoded_view(decoded: Option<(u32, u32, Vec<u8>)>) -> Option<(u32, u32, Seq<u8>)> {
    match decoded {
        Some((width, height, data)) => Some((width, height, data@)),
        None => None,
    }
}

/// Whether a decoded image, if there is one, holds four bytes for each of
/// its pixels.
pub open spec fn whole_image(decoded: Option<(u32, u32, Seq<u8>)>) -> bool {
    decoded matches Some((width, height, data)) ==> data.len() == width * height * 4
}

/// Calls `image::load_from_memory` and, where it succeeds, takes the pixels
/// of the image through `DynamicImage::to_rgba8` and hands out their buffer
/// with its width and height. The buffer that `to_rgba8` makes holds four
/// bytes for each pixel; nothing else is claimed, and in particular not that
/// the same bytes give the same pixels on every machine.
#[verifier::external_body]
fn decode_rgba8(bytes: &[u8]) -> (decoded: Option<(u32, u32, Vec<u8>)>)
    ensures
        whole_image(decoded_view(decoded)),
{
    match image::load_from_memory(bytes) {
        Ok(picture) => {
            let pixels = picture.to_rgba8();
            Some((pixels.width(), pixels.height(), pixels.into_raw()))
        },
        Err(_) => None,
    }
}

/// The result for what a decoder made of some bytes: the image where there
/// is one with four bytes for each pixel, a decode failure otherwise.
pub open spec fn texture_result_spec(decoded: Option<(u32, u32, Seq<u8>)>) -> TextureLoaderResultView {
    match decoded {
        Some((width, height, data)) => if data.len() == width * height * 4 {
            loaded(width as nat, height as nat, data)
        } else {
            failed(LoaderFailure::DecodeFailure)
        },
        None => failed(LoaderFailure::DecodeFailure),
    }
}

/// Turns what a decoder made of some bytes into the result of a load.
pub fn texture_from_decoded(decoded: Option<(u32, u32, Vec<u8>)>) -> (result: TextureLoaderResult)
    ensures
        result@ == texture_result_spec(decoded_view(decoded)),
{
    match decoded {
        Some((width, height, data)) => {
            match TextureHolderInterfaceImpl::new(width as usize, height as usize, data) {
                Some(texture) => TextureLoaderResult::success(texture),
                None => TextureLoaderResult::failure(LoaderFailure::DecodeFailure),
            }
        },
        None => TextureLoaderResult::failure(LoaderFailure::DecodeFailure),
    }
}

/// Decodes `bytes` as an image. What the decoder makes of the bytes is its
/// own affair; the result is what `texture_result_spec` says of it, so it is
/// either a decode failure or an image with four bytes for each pixel.
pub fn decode_texture(bytes: &[u8]) -> (result: TextureLoaderResult)
    ensures
        exists|decoded: Option<(u32, u32, Seq<u8>)>|
            whole_image(decoded) && result@ == #[trigger] texture_result_spec(decoded),
{
    let decoded = decode_rgba8(bytes);
    let ghost seen = decoded_view(decoded);
    let result = texture_from_decoded(decoded);
    assert(whole_image(seen) && result@ == texture_result_spec(seen));
    result
}

/// The failure that an HTTP error status stands for.
pub open spec fn classify_status_spec(code: u16) -> LoaderFailure {
    if code == 400 {
        LoaderFailure::BadRequest
    } else if code == 404 {
        LoaderFailure::NotFound
    } else {
        LoaderFailure::Other
    }
}

/// Classifies an HTTP error status.
pub fn classify_status(code: u16) -> (kind: LoaderFailure)
    ensures
        kind == classify_status_spec(code),
{
    if code == 400 {
        LoaderFailure::BadRequest
    } else if code == 404 {
        LoaderFailure::NotFound
    } else {
        LoaderFailure::Other
    }
}

/// What came of asking the network for a resource.
pub enum FetchOutcome {
    /// The server sent the resource.
    Body(Vec<u8>),
    /// The server answered with an error status.
    Status(u16),
    /// The server could not be reached.
    Transport,
    /// The server answered, and the connection broke before the resource had
    /// arrived in full.
    Truncated,
}

pub enum FetchOutcomeView {
    Body(Seq<u8>),
    Status(u16),
    Transport,
    Truncated,
}

impl View for FetchOutcome {
    type V = FetchOutcomeView;

    open spec fn view(&self) -> FetchOutcomeView {
        match self {
            FetchOutcome::Body(bytes) => FetchOutcomeView::Body(bytes@),
            FetchOutcome::Status(code) => FetchOutcomeView::Status(*code),
            FetchOutcome::Transport => FetchOutcomeView::Transport,
            FetchOutcome::Truncated => FetchOutcomeView::Truncated,
        }
    }
}

/// What the caller reports back to a load.
pub enum LoadEvent {
    /// Whether the cache file exists.
    CacheProbed(bool),
    /// The contents of the cache file, or nothing when it could not be read.
    CacheRead(Option<Vec<u8>>),
    /// What came of asking the network.
    Fetched(FetchOutcome),
}

pub enum LoadEventView {
    CacheProbed(bool),
    CacheRead(Option<Seq<u8>>),
    Fetched(FetchOutcomeView),
}

impl View for LoadEvent {
    type V = LoadEventView;

    open spec fn view(&self) -> LoadEventView {
        match self {
            LoadEvent::CacheProbed(exists) => LoadEventView::CacheProbed(*exists),
            LoadEvent::CacheRead(Some(bytes)) => LoadEventView::CacheRead(Some(bytes@)),
            LoadEvent::CacheRead(None) => LoadEventView::CacheRead(None),
            LoadEvent::Fetched(outcome) => LoadEventView::Fetched(outcome@),
        }
    }
}

/// What a load asks of the caller.
pub enum LoadAction {
    /// Find out whether the file at `path` exists.
    ProbeCache { path: String },
    /// Read the file at `path`.
    ReadCache { path: String },
    /// Ask the network for the resource at `url`.
    Fetch { url: String },
    /// The load is over. Where `store` names a file and its contents, write
    /// them to disk, with the directories that lead to the file; whether
    /// that works does not change the result.
    Finish { result: TextureLoaderResult, store: Option<(String, Vec<u8>)> },
}

pub enum LoadActionView {
    ProbeCache { path: Seq<char> },
    ReadCache { path: Seq<char> },
    Fetch { url: Seq<char> },
    Finish { result: TextureLoaderResultView, store: Option<(Seq<char>, Seq<u8>)> },
}

impl View for LoadAction {
    type V = LoadActionView;

    open spec fn view(&self) -> LoadActionView {
        match self {
            LoadAction::ProbeCache { path } => LoadActionView::ProbeCache { path: path@ },
            LoadAction::ReadCache { path } => LoadActionView::ReadCache { path: path@ },
            LoadAction::Fetch { url } => LoadActionView::Fetch { url: url@ },
            LoadAction::Finish { result, store: Some((path, bytes)) } => LoadActionView::Finish {
                result: result@,
                store: Some((path@, bytes@)),
            },
            LoadAction::Finish { result, store: None } => LoadActionView::Finish {
                result: result@,
                store: None,
            },
        }
    }
}

/// What a load is waiting for.
#[derive(Clone, Copy, Debug, PartialEq, Eq, Structural)]
pub enum LoadPhase {
    /// To learn whether the cache file exists.
    Probing,
    /// The contents of the cache file.
    Reading,
    /// The answer of the network.
    Fetching,
    /// Nothing: the result was handed out.
    Done,
}

/// What a load in progress stands for.
pub struct TextureLoadView {
    pub url: Seq<char>,
    /// The cache file of the resource.
    pub path: Seq<char>,
    pub phase: LoadPhase,
}

/// A load that handed out `result` and is over.
pub open spec fn finished(load: TextureLoadView, result: TextureLoaderResultView) -> (
    TextureLoadView,
    LoadActionView,
) {
    (
        TextureLoadView { phase: LoadPhase::Done, ..load },
        LoadActionView::Finish { result, store: None },
    )
}

/// How a load starts: with a look at the cache, or, for an address that has no
/// cache path, with a failure.
pub open spec fn begin_spec(url: Seq<char>) -> (TextureLoadView, LoadActionView) {
    match cache_path_spec(url) {
        Some(path) => (
            TextureLoadView { url, path, phase: LoadPhase::Probing },
            LoadActionView::ProbeCache { path },
        ),
        None => finished(
            TextureLoadView { url, path: Seq::empty(), phase: LoadPhase::Done },
            failed(LoaderFailure::Other),
        ),
    }
}

/// The bytes that a load hands to the decoder when the caller reports
/// `event`: the contents of the cache file, or what the network sent.
pub open spec fn bytes_to_decode_spec(load: TextureLoadView, event: LoadEventView) -> Option<Seq<u8>> {
    match (load.phase, event) {
        (LoadPhase::Reading, LoadEventView::CacheRead(Some(bytes))) => Some(bytes),
        (LoadPhase::Fetching, LoadEventView::Fetched(FetchOutcomeView::Body(bytes))) => Some(bytes),
        _ => None,
    }
}

/// How a load goes on when the caller reports `event`. `decoded` is what the
/// decoder made of the bytes of `bytes_to_decode_spec`; where there are none
/// it counts for nothing.
///
/// - A cache file that exists is read, and the network is not asked.
/// - A cache file that does not exist makes the load ask the network.
/// - Bytes from the cache are decoded. A cache file that cannot be read is a
///   failure of the kind `Other`.
/// - Bytes from the network are decoded and, whatever comes of that, stored
///   in the cache file. Status 400 is `BadRequest`, 404 is `NotFound`, any
///   other error status is `Other`; a server that cannot be reached is
///   `NetworkFailure`, a connection that breaks is `Other`.
/// - A report that the load was not waiting for ends it with `Other`.
pub open spec fn step_spec(
    load: TextureLoadView,
    event: LoadEventView,
    decoded: Option<(u32, u32, Seq<u8>)>,
) -> (TextureLoadView, LoadActionView) {
    match (load.phase, event) {
        (LoadPhase::Probing, LoadEventView::CacheProbed(true)) => (
            TextureLoadView { phase: LoadPhase::Reading, ..load },
            LoadActionView::ReadCache { path: load.path },
        ),
        (LoadPhase::Probing, LoadEventView::CacheProbed(false)) => (
            TextureLoadView { phase: LoadPhase::Fetching, ..load },
            LoadActionView::Fetch { url: load.url },
        ),
        (LoadPhase::Reading, LoadEventView::CacheRead(Some(bytes))) => finished(
            load,
            texture_result_spec(decoded),
        ),
        (LoadPhase::Fetching, LoadEventView::Fetched(FetchOutcomeView::Body(bytes))) => (
            TextureLoadView { phase: LoadPhase::Done, ..load },
            LoadActionView::Finish {
                result: texture_result_spec(decoded),
                store: Some((load.path, bytes)),
            },
        ),
        (LoadPhase::Fetching, LoadEventView::Fetched(FetchOutcomeView::Status(code))) => finished(
            load,
            failed(classify_status_spec(code)),
        ),
        (LoadPhase::Fetching, LoadEventView::Fetched(FetchOutcomeView::Transport)) => finished(
            load,
            failed(LoaderFailure::NetworkFailure),
        ),
        _ => finished(load, failed(LoaderFailure::Other)),
    }
}

/// A load in progress.
pub struct TextureLoad {
    url: String,
    path: String,
    phase: LoadPhase,
}

impl View for TextureLoad {
    type V = TextureLoadView;

    closed spec fn view(&self) -> TextureLoadView {
        TextureLoadView { url: self.url@, path: self.path@, phase: self.phase }
    }
}

impl TextureLoad {
    /// What the load is waiting for.
    pub fn phase(&self) -> (phase: LoadPhase)
        ensures
            phase == self@.phase,
    {
        self.phase
    }

    fn finish(&mut self, result: TextureLoaderResult) -> (action: LoadAction)
        ensures
            (final(self)@, action@) == finished(old(self)@, result@),
    {
        self.phase = LoadPhase::Done;
        LoadAction::Finish { result, store: None }
    }

    /// The bytes that the load hands to the decoder when the caller reports
    /// `event`, if it hands it any.
    pub fn bytes_to_decode<'a>(&self, event: &'a LoadEvent) -> (bytes: Option<&'a Vec<u8>>)
        ensures
            match bytes {
                Some(bytes) => bytes_to_decode_spec(self@, event@) == Some(bytes@),
                None => bytes_to_decode_spec(self@, event@) is None,
            },
    {
        match (self.phase, event) {
            (LoadPhase::Reading, LoadEvent::CacheRead(Some(bytes))) => Some(bytes),
            (LoadPhase::Fetching, LoadEvent::Fetched(FetchOutcome::Body(bytes))) => Some(bytes),
            _ => None,
        }
    }

    /// Takes the caller's report, together with what the decoder made of the
    /// bytes of `bytes_to_decode`, and says what to do next.
    pub fn step_decoded(&mut self, event: LoadEvent, decoded: Option<(u32, u32, Vec<u8>)>) -> (action:
        LoadAction)
        ensures
            (final(self)@, action@) == step_spec(old(self)@, event@, decoded_view(decoded)),
    {
        match self.phase {
            LoadPhase::Probing => match event {
                LoadEvent::CacheProbed(true) => {
                    self.phase = LoadPhase::Reading;
                    LoadAction::ReadCache { path: self.path.clone() }
                },
                LoadEvent::CacheProbed(false) => {
                    self.phase = LoadPhase::Fetching;
                    LoadAction::Fetch { url: self.url.clone() }
                },
                _ => self.finish(TextureLoaderResult::failure(LoaderFailure::Other)),
            },
            LoadPhase::Reading => match event {
                LoadEvent::CacheRead(Some(bytes)) => {
                    let result = texture_from_decoded(decoded);
                    self.finish(result)
                },
                _ => self.finish(TextureLoaderResult::failure(LoaderFailure::Other)),
            },
            LoadPhase::Fetching => match event {
                LoadEvent::Fetched(FetchOutcome::Body(bytes)) => {
                    let result = texture_from_decoded(decoded);
                    self.phase = LoadPhase::Done;
                    LoadAction::Finish { result, store: Some((self.path.clone(), bytes)) }
                },
                LoadEvent::Fetched(FetchOutcome::Status(code)) => {
                    let kind = classify_status(code);
                    self.finish(TextureLoaderResult::failure(kind))
                },
                LoadEvent::Fetched(FetchOutcome::Transport) => self.finish(
                    TextureLoaderResult::failure(LoaderFailure::NetworkFailure),
                ),
                _ => self.finish(TextureLoaderResult::failure(LoaderFailure::Other)),
            },
            LoadPhase::Done => self.finish(TextureLoaderResult::failure(LoaderFailure::Other)),
        }
    }

    /// Takes the caller's report and says what to do next. Where the report
    /// brings bytes, they are handed to the decoder as `bytes_to_decode` names
    /// them, and the load goes on as `step_decoded` says of what came back;
    /// where it brings none, nothing is decoded.
    pub fn step(&mut self, event: LoadEvent) -> (action: LoadAction)
        ensures
            exists|decoded: Option<(u32, u32, Seq<u8>)>|
                whole_image(decoded) && (final(self)@, action@) == #[trigger] step_spec(
                    old(self)@,
                    event@,
                    decoded,
                ),
            bytes_to_decode_spec(old(self)@, event@) is None ==> (final(self)@, action@)
                == step_spec(old(self)@, event@, None),
    {
        let decoded = match self.bytes_to_decode(&event) {
            Some(bytes) => decode_rgba8(bytes.as_slice()),
            None => None,
        };
        let ghost seen = decoded_view(decoded);
        let action = self.step_decoded(event, decoded);
        assert(whole_image(seen) && (self@, action@) == step_spec(old(self)@, event@, seen));
        action
    }
}

/// The loader that keeps every resource it fetched in a file under `tiles/`
/// and never asks the network for a resource it has a file for.
pub struct DefaultLoaderInterface;

impl DefaultLoaderInterface {
    /// Starts a load of the texture that `request` names.
    pub fn begin(&self, request: &LoaderRequest) -> (started: (TextureLoad, LoadAction))
        ensures
            (started.0@, started.1@) == begin_spec(request.url@),
    {
        match cache_path(request.url.as_str()) {
            Some(path) => {
                let action = LoadAction::ProbeCache { path: path.clone() };
                (TextureLoad { url: request.url.clone(), path, phase: LoadPhase::Probing }, action)
            },
            None => {
                let mut load = TextureLoad {
                    url: request.url.clone(),
                    path: String::new(),
                    phase: LoadPhase::Done,
                };
                let action = load.finish(TextureLoaderResult::failure(LoaderFailure::Other));
                (load, action)
            },
        }
    }
}

/// What the disk, the network and the decoder hold for one load.
pub struct LoadAnswers {
    /// Whether the cache file exists.
    pub cached: bool,
    /// What reading the cache file gives.
    pub cache_contents: Option<Seq<u8>>,
    /// What asking the network gives.
    pub fetched: FetchOutcomeView,
    /// What the decoder makes of the bytes it is handed.
    pub decoded: Option<(u32, u32, Seq<u8>)>,
}

/// The report with which a caller answers `action`.
pub open spec fn answer(action: LoadActionView, world: LoadAnswers) -> LoadEventView {
    match action {
        LoadActionView::ReadCache { .. } => LoadEventView::CacheRead(world.cache_contents),
        LoadActionView::Fetch { .. } => LoadEventView::Fetched(world.fetched),
        _ => LoadEventView::CacheProbed(world.cached),
    }
}

/// The actions that a load of `url` hands out, in order, when the caller
/// answers each of them from `world` and stops at the first `Finish`.
pub open spec fn load_run(url: Seq<char>, world: LoadAnswers) -> Seq<LoadActionView> {
    let (load0, action0) = begin_spec(url);
    if action0 is Finish {
        seq![action0]
    } else {
        let (load1, action1) = step_spec(load0, answer(action0, world), world.decoded);
        if action1 is Finish {
            seq![action0, action1]
        } else {
            let (load2, action2) = step_spec(load1, answer(action1, world), world.decoded);
            seq![action0, action1, action2]
        }
    }
}

/// The result that a load of `url` hands out in `world`.
pub open spec fn load_result(url: Seq<char>, world: LoadAnswers) -> TextureLoaderResultView {
    load_run(url, world).last()->result
}

/// The load of `url` at the point where it waits for `phase`.
pub open spec fn waiting(url: Seq<char>, phase: LoadPhase) -> TextureLoadView {
    TextureLoadView { url, path: cache_path_spec(url)->0, phase }
}

/// Every load comes to an end: it hands out at most three actions, the last
/// of them is the one and only `Finish`, and a result that reports a failure
/// carries the empty texture.
pub proof fn lemma_load_finishes_once(url: Seq<char>, world: LoadAnswers)
    ensures
        1 <= load_run(url, world).len() <= 3,
        load_run(url, world).last() is Finish,
        forall|i: int|
            0 <= i < load_run(url, world).len() - 1 ==> !(#[trigger] load_run(url, world)[i] is Finish),
        load_result(url, world).failure is Some ==> load_result(url, world).texture
            == empty_texture(),
{
}

/// A resource whose cache file exists is never fetched: the load looks at the
/// cache, reads the file, hands the decoder exactly the bytes of the file
/// and finishes with what the decoder made of them, without asking the
/// network and without writing to the cache. Where the decoder makes an
/// image of the bytes, that image is the result.
pub proof fn lemma_cache_hit_skips_network(url: Seq<char>, world: LoadAnswers, bytes: Seq<u8>)
    requires
        cache_path_spec(url) is Some,
        world.cached,
        world.cache_contents == Some(bytes),
    ensures
        load_run(url, world) == seq![
            LoadActionView::ProbeCache { path: cache_path_spec(url)->0 },
            LoadActionView::ReadCache { path: cache_path_spec(url)->0 },
            LoadActionView::Finish { result: texture_result_spec(world.decoded), store: None },
        ],
        forall|i: int|
            0 <= i < load_run(url, world).len() ==> !(#[trigger] load_run(url, world)[i] is Fetch),
        bytes_to_decode_spec(waiting(url, LoadPhase::Reading), answer(load_run(url, world)[1], world))
            == Some(bytes),
        whole_image(world.decoded) ==> (world.decoded matches Some((width, height, data))
            ==> load_result(url, world) == loaded(width as nat, height as nat, data)),
{
}

/// A resource whose cache file does not exist is fetched from its address.
/// What the network sends is handed to the decoder and stored in the cache
/// file, decodable or not.
pub proof fn lemma_cache_miss_fetches_and_stores(url: Seq<char>, world: LoadAnswers, bytes: Seq<u8>)
    requires
        cache_path_spec(url) is Some,
        !world.cached,
        world.fetched == FetchOutcomeView::Body(bytes),
    ensures
        load_run(url, world) == seq![
            LoadActionView::ProbeCache { path: cache_path_spec(url)->0 },
            LoadActionView::Fetch { url },
            LoadActionView::Finish {
                result: texture_result_spec(world.decoded),
                store: Some((cache_path_spec(url)->0, bytes)),
            },
        ],
        bytes_to_decode_spec(
            waiting(url, LoadPhase::Fetching),
            answer(load_run(url, world)[1], world),
        ) == Some(bytes),
{
}

/// How failures are told apart, for a resource that is not in the cache:
/// status 404 is `NotFound`, status 400 is `BadRequest`, a server that cannot
/// be reached is `NetworkFailure`, and bytes that the decoder refuses are
/// `DecodeFailure`. Each of them comes with the empty texture.
pub proof fn lemma_failure_classification(url: Seq<char>, world: LoadAnswers)
    requires
        cache_path_spec(url) is Some,
        !world.cached,
    ensures
        world.fetched == FetchOutcomeView::Status(404) ==> load_result(url, world) == failed(
            LoaderFailure::NotFound,
        ),
        world.fetched == FetchOutcomeView::Status(400) ==> load_result(url, world) == failed(
            LoaderFailure::BadRequest,
        ),
        world.fetched == FetchOutcomeView::Transport ==> load_result(url, world) == failed(
            LoaderFailure::NetworkFailure,
        ),
        world.fetched is Body && world.decoded is None ==> load_result(url, world) == failed(
            LoaderFailure::DecodeFailure,
        ),
        forall|kind: LoaderFailure| (#[trigger] failed(kind)).texture == empty_texture(),
{
}

} // verus!
