use openmobilemaps_rs::loader::{
    cache_path, classify_status, decode_texture, texture_from_decoded, DefaultLoaderInterface,
    FetchOutcome, LoadAction, LoadEvent, LoadPhase, LoaderFailure, LoaderRequest, TextureLoad,
    TextureLoaderResult,
};
use std::io::Cursor;

const TILE: &str = "https://a.tile.openstreetmap.org/3/4/5.png";

fn png_2x2() -> (Vec<u8>, Vec<u8>) {
    let pixels: Vec<u8> = vec![255, 0, 0, 255, 0, 255, 0, 128, 0, 0, 255, 0, 9, 8, 7, 6];
    let picture = image::RgbaImage::from_raw(2, 2, pixels.clone()).unwrap();
    let mut encoded = Vec::new();
    image::DynamicImage::ImageRgba8(picture)
        .write_to(&mut Cursor::new(&mut encoded), image::ImageOutputFormat::Png)
        .unwrap();
    (encoded, pixels)
}

fn request(url: &str) -> LoaderRequest {
    LoaderRequest { url: url.to_string(), etag: None }
}

fn begin_probing(url: &str) -> (TextureLoad, String) {
    let (load, action) = DefaultLoaderInterface.begin(&request(url));
    match action {
        LoadAction::ProbeCache { path } => (load, path),
        _ => panic!("a load starts with a look at the cache"),
    }
}

fn finished(action: LoadAction) -> (TextureLoaderResult, Option<(String, Vec<u8>)>) {
    match action {
        LoadAction::Finish { result, store } => (result, store),
        _ => panic!("the load should be over"),
    }
}

fn assert_failed(result: &TextureLoaderResult, kind: LoaderFailure) {
    assert!(!result.is_ok());
    assert_eq!(result.status(), Some(kind));
    assert_eq!(result.texture().getImageWidth(), 0);
    assert_eq!(result.texture().getImageHeight(), 0);
    assert!(result.texture().texture_data().is_empty());
    assert!(!result.texture().is_attached());
}

#[test]
fn cache_path_is_root_and_url_path() {
    assert_eq!(cache_path(TILE), Some("tiles//3/4/5.png".to_string()));
    assert_eq!(cache_path("https://example.com"), Some("tiles//".to_string()));
    assert_eq!(
        cache_path("https://example.com/api/versions?page=2#top"),
        Some("tiles//api/versions".to_string())
    );
    assert_eq!(cache_path("http://example.com/a b"), Some("tiles//a%20b".to_string()));
}

#[test]
fn cache_path_needs_an_absolute_address() {
    assert_eq!(cache_path("3/4/5.png"), None);
    assert_eq!(cache_path(""), None);
    assert_eq!(cache_path("https://"), None);
}

#[test]
fn status_classification() {
    assert_eq!(classify_status(400), LoaderFailure::BadRequest);
    assert_eq!(classify_status(404), LoaderFailure::NotFound);
    assert_eq!(classify_status(401), LoaderFailure::Other);
    assert_eq!(classify_status(500), LoaderFailure::Other);
    assert_eq!(classify_status(0), LoaderFailure::Other);
}

#[test]
fn decode_gives_size_and_rgba_pixels() {
    let (encoded, pixels) = png_2x2();
    let result = decode_texture(&encoded);
    assert!(result.is_ok());
    assert_eq!(result.status(), None);
    assert_eq!(result.texture().getImageWidth(), 2);
    assert_eq!(result.texture().getImageHeight(), 2);
    assert_eq!(result.texture().getTextureWidth(), 2);
    assert_eq!(result.texture().getTextureHeight(), 2);
    assert_eq!(result.texture().texture_data(), &pixels);
    assert_eq!(result.texture().usage_counter(), 0);
    assert!(!result.texture().is_attached());
}

#[test]
fn decode_adds_the_alpha_channel() {
    let picture = image::RgbImage::from_raw(1, 2, vec![10, 20, 30, 40, 50, 60]).unwrap();
    let mut encoded = Vec::new();
    image::DynamicImage::ImageRgb8(picture)
        .write_to(&mut Cursor::new(&mut encoded), image::ImageOutputFormat::Png)
        .unwrap();
    let texture = decode_texture(&encoded).into_texture();
    assert_eq!(texture.getImageWidth(), 1);
    assert_eq!(texture.getImageHeight(), 2);
    assert_eq!(texture.texture_data(), &vec![10, 20, 30, 255, 40, 50, 60, 255]);
}

#[test]
fn malformed_bytes_are_a_decode_failure() {
    assert_failed(&decode_texture(b"this is not an image"), LoaderFailure::DecodeFailure);
    assert_failed(&decode_texture(b""), LoaderFailure::DecodeFailure);
    let (encoded, _) = png_2x2();
    assert_failed(&decode_texture(&encoded[..encoded.len() / 2]), LoaderFailure::DecodeFailure);
}

#[test]
fn decoded_image_must_have_four_bytes_per_pixel() {
    let result = texture_from_decoded(Some((2, 1, vec![1, 2, 3, 4, 5, 6, 7, 8])));
    assert!(result.is_ok());
    assert_eq!(result.texture().texture_data(), &vec![1, 2, 3, 4, 5, 6, 7, 8]);
    assert_failed(&texture_from_decoded(Some((2, 1, vec![1, 2, 3, 4]))), LoaderFailure::DecodeFailure);
    assert_failed(&texture_from_decoded(Some((1, 1, vec![1, 2, 3, 4, 5]))), LoaderFailure::DecodeFailure);
    assert_failed(&texture_from_decoded(None), LoaderFailure::DecodeFailure);
    let empty = texture_from_decoded(Some((0, 5, vec![])));
    assert!(empty.is_ok());
    assert_eq!(empty.texture().getImageHeight(), 5);
}

#[test]
fn failure_carries_the_empty_texture() {
    for kind in [
        LoaderFailure::BadRequest,
        LoaderFailure::NotFound,
        LoaderFailure::NetworkFailure,
        LoaderFailure::DecodeFailure,
        LoaderFailure::Other,
    ] {
        assert_failed(&TextureLoaderResult::failure(kind), kind);
    }
}

#[test]
fn load_starts_with_a_look_at_the_cache() {
    let (load, path) = begin_probing(TILE);
    assert_eq!(path, "tiles//3/4/5.png");
    assert_eq!(load.phase(), LoadPhase::Probing);
}

#[test]
fn load_of_a_malformed_address_fails_at_once() {
    let (load, action) = DefaultLoaderInterface.begin(&request("not an address"));
    assert_eq!(load.phase(), LoadPhase::Done);
    let (result, store) = finished(action);
    assert_failed(&result, LoaderFailure::Other);
    assert!(store.is_none());
}

#[test]
fn cache_hit_reads_the_file_and_asks_no_network() {
    let (encoded, pixels) = png_2x2();
    for _ in 0..2 {
        let (mut load, path) = begin_probing(TILE);
        match load.step(LoadEvent::CacheProbed(true)) {
            LoadAction::ReadCache { path: read } => assert_eq!(read, path),
            _ => panic!("a file in the cache is read"),
        }
        assert_eq!(load.phase(), LoadPhase::Reading);
        let (result, store) = finished(load.step(LoadEvent::CacheRead(Some(encoded.clone()))));
        assert_eq!(load.phase(), LoadPhase::Done);
        assert!(store.is_none());
        assert!(result.is_ok());
        assert_eq!(result.texture().getImageWidth(), 2);
        assert_eq!(result.texture().getImageHeight(), 2);
        assert_eq!(result.texture().texture_data(), &pixels);
    }
}

#[test]
fn cache_hit_with_an_unreadable_file_fails() {
    let (mut load, _) = begin_probing(TILE);
    load.step(LoadEvent::CacheProbed(true));
    let (result, store) = finished(load.step(LoadEvent::CacheRead(None)));
    assert_failed(&result, LoaderFailure::Other);
    assert!(store.is_none());
}

#[test]
fn cache_hit_with_garbage_is_a_decode_failure() {
    let (mut load, _) = begin_probing(TILE);
    load.step(LoadEvent::CacheProbed(true));
    let (result, store) = finished(load.step(LoadEvent::CacheRead(Some(vec![1, 2, 3]))));
    assert_failed(&result, LoaderFailure::DecodeFailure);
    assert!(store.is_none());
}

#[test]
fn cache_miss_fetches_and_stores() {
    let (encoded, pixels) = png_2x2();
    let (mut load, path) = begin_probing(TILE);
    match load.step(LoadEvent::CacheProbed(false)) {
        LoadAction::Fetch { url } => assert_eq!(url, TILE),
        _ => panic!("a resource that is not cached is fetched"),
    }
    assert_eq!(load.phase(), LoadPhase::Fetching);
    let (result, store) =
        finished(load.step(LoadEvent::Fetched(FetchOutcome::Body(encoded.clone()))));
    assert_eq!(load.phase(), LoadPhase::Done);
    assert_eq!(store, Some((path, encoded)));
    assert!(result.is_ok());
    assert_eq!(result.texture().texture_data(), &pixels);
}

#[test]
fn fetched_garbage_is_stored_and_fails_to_decode() {
    let (mut load, path) = begin_probing(TILE);
    load.step(LoadEvent::CacheProbed(false));
    let (result, store) =
        finished(load.step(LoadEvent::Fetched(FetchOutcome::Body(b"<html>".to_vec()))));
    assert_failed(&result, LoaderFailure::DecodeFailure);
    assert_eq!(store, Some((path, b"<html>".to_vec())));
}

fn failure_of(outcome: FetchOutcome) -> TextureLoaderResult {
    let (mut load, _) = begin_probing(TILE);
    load.step(LoadEvent::CacheProbed(false));
    let (result, store) = finished(load.step(LoadEvent::Fetched(outcome)));
    assert_eq!(load.phase(), LoadPhase::Done);
    assert!(store.is_none());
    result
}

#[test]
fn fetch_failures_are_told_apart() {
    assert_failed(&failure_of(FetchOutcome::Status(404)), LoaderFailure::NotFound);
    assert_failed(&failure_of(FetchOutcome::Status(400)), LoaderFailure::BadRequest);
    assert_failed(&failure_of(FetchOutcome::Status(503)), LoaderFailure::Other);
    assert_failed(&failure_of(FetchOutcome::Transport), LoaderFailure::NetworkFailure);
    assert_failed(&failure_of(FetchOutcome::Truncated), LoaderFailure::Other);
}

#[test]
fn unexpected_report_ends_the_load() {
    let (mut load, _) = begin_probing(TILE);
    let (result, store) = finished(load.step(LoadEvent::Fetched(FetchOutcome::Status(404))));
    assert_failed(&result, LoaderFailure::Other);
    assert!(store.is_none());
    assert_eq!(load.phase(), LoadPhase::Done);

    let (mut load, _) = begin_probing(TILE);
    load.step(LoadEvent::CacheProbed(true));
    let (result, _) = finished(load.step(LoadEvent::CacheProbed(true)));
    assert_failed(&result, LoaderFailure::Other);

    let (mut load, _) = begin_probing(TILE);
    load.step(LoadEvent::CacheProbed(false));
    let (result, _) = finished(load.step(LoadEvent::CacheRead(Some(png_2x2().0))));
    assert_failed(&result, LoaderFailure::Other);
}

#[test]
fn finished_load_stays_finished() {
    let (mut load, _) = begin_probing(TILE);
    load.step(LoadEvent::CacheProbed(false));
    load.step(LoadEvent::Fetched(FetchOutcome::Transport));
    let (result, store) = finished(load.step(LoadEvent::CacheProbed(false)));
    assert_failed(&result, LoaderFailure::Other);
    assert!(store.is_none());
    assert_eq!(load.phase(), LoadPhase::Done);
}

#[test]
fn etag_is_not_looked_at() {
    let with_tag = LoaderRequest { url: TILE.to_string(), etag: Some("\"abc\"".to_string()) };
    let (mut load, action) = DefaultLoaderInterface.begin(&with_tag);
    assert!(matches!(action, LoadAction::ProbeCache { ref path } if path == "tiles//3/4/5.png"));
    assert!(matches!(load.step(LoadEvent::CacheProbed(true)), LoadAction::ReadCache { .. }));
}

#[test]
fn bytes_from_the_cache_go_to_the_decoder() {
    let (mut load, _) = begin_probing(TILE);
    assert_eq!(load.bytes_to_decode(&LoadEvent::CacheProbed(true)), None);
    assert_eq!(load.bytes_to_decode(&LoadEvent::CacheRead(Some(vec![1, 2]))), None);
    load.step(LoadEvent::CacheProbed(true));
    assert_eq!(load.bytes_to_decode(&LoadEvent::CacheRead(Some(vec![1, 2]))), Some(&vec![1, 2]));
    assert_eq!(load.bytes_to_decode(&LoadEvent::CacheRead(None)), None);
    assert_eq!(
        load.bytes_to_decode(&LoadEvent::Fetched(FetchOutcome::Body(vec![1, 2]))),
        None
    );
}

#[test]
fn bytes_from_the_network_go_to_the_decoder() {
    let (mut load, _) = begin_probing(TILE);
    load.step(LoadEvent::CacheProbed(false));
    assert_eq!(
        load.bytes_to_decode(&LoadEvent::Fetched(FetchOutcome::Body(vec![3, 4]))),
        Some(&vec![3, 4])
    );
    assert_eq!(load.bytes_to_decode(&LoadEvent::Fetched(FetchOutcome::Status(404))), None);
    assert_eq!(load.bytes_to_decode(&LoadEvent::Fetched(FetchOutcome::Transport)), None);
    assert_eq!(load.bytes_to_decode(&LoadEvent::CacheRead(Some(vec![3, 4]))), None);
}

#[test]
fn step_with_a_decoded_image_from_the_cache() {
    let (mut load, _) = begin_probing(TILE);
    load.step_decoded(LoadEvent::CacheProbed(true), None);
    assert_eq!(load.phase(), LoadPhase::Reading);
    let decoded = Some((1, 2, vec![1, 2, 3, 4, 5, 6, 7, 8]));
    let (result, store) =
        finished(load.step_decoded(LoadEvent::CacheRead(Some(vec![0; 3])), decoded));
    assert!(store.is_none());
    assert!(result.is_ok());
    assert_eq!(result.texture().getImageWidth(), 1);
    assert_eq!(result.texture().getImageHeight(), 2);
    assert_eq!(result.texture().texture_data(), &vec![1, 2, 3, 4, 5, 6, 7, 8]);
}

#[test]
fn step_with_a_decoded_image_from_the_network() {
    let (mut load, path) = begin_probing(TILE);
    match load.step_decoded(LoadEvent::CacheProbed(false), Some((1, 1, vec![9; 4]))) {
        LoadAction::Fetch { url } => assert_eq!(url, TILE),
        _ => panic!("a resource that is not cached is fetched"),
    }
    let body = LoadEvent::Fetched(FetchOutcome::Body(vec![7; 5]));
    let (result, store) = finished(load.step_decoded(body, Some((1, 1, vec![9; 4]))));
    assert_eq!(store, Some((path, vec![7; 5])));
    assert!(result.is_ok());
    assert_eq!(result.texture().texture_data(), &vec![9; 4]);
}

#[test]
fn step_with_what_the_decoder_refused() {
    let (mut load, path) = begin_probing(TILE);
    load.step_decoded(LoadEvent::CacheProbed(false), None);
    let body = LoadEvent::Fetched(FetchOutcome::Body(vec![7; 5]));
    let (result, store) = finished(load.step_decoded(body, None));
    assert_failed(&result, LoaderFailure::DecodeFailure);
    assert_eq!(store, Some((path, vec![7; 5])));

    let (mut load, _) = begin_probing(TILE);
    load.step_decoded(LoadEvent::CacheProbed(true), None);
    let short = Some((2, 2, vec![0; 15]));
    let (result, _) = finished(load.step_decoded(LoadEvent::CacheRead(Some(vec![1])), short));
    assert_failed(&result, LoaderFailure::DecodeFailure);
}

#[test]
fn decoded_image_counts_only_where_bytes_were_decoded() {
    let picture = Some((1, 1, vec![9; 4]));
    let (mut load, _) = begin_probing(TILE);
    load.step_decoded(LoadEvent::CacheProbed(false), None);
    let status = LoadEvent::Fetched(FetchOutcome::Status(404));
    let (result, store) = finished(load.step_decoded(status, picture.clone()));
    assert_failed(&result, LoaderFailure::NotFound);
    assert!(store.is_none());

    let (mut load, _) = begin_probing(TILE);
    load.step_decoded(LoadEvent::CacheProbed(true), None);
    let (result, _) = finished(load.step_decoded(LoadEvent::CacheRead(None), picture.clone()));
    assert_failed(&result, LoaderFailure::Other);
    let (result, _) = finished(load.step_decoded(LoadEvent::CacheRead(Some(vec![1])), picture));
    assert_failed(&result, LoaderFailure::Other);
}
