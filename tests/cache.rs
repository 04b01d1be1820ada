use std::sync::{Arc, Mutex};
use pomodoro_core::cache::{Asset, AudioCache, PathLookup, ResourceResolutionError};

fn resolve_name(name: &str) -> Result<String, ResourceResolutionError> {
    Ok(format!("/opt/app/resources/{}", name))
}

/// Obtains a path the way a handler does, counting resolver calls.
fn get_path(
    cache: &mut AudioCache,
    asset: Asset,
    calls: &mut usize,
    resolver: &dyn Fn(&str) -> Result<String, ResourceResolutionError>,
) -> Result<String, ResourceResolutionError> {
    match cache.lookup(asset) {
        PathLookup::Cached(p) => Ok(p),
        PathLookup::Resolve(name) => {
            *calls += 1;
            cache.record(asset, resolver(name))
        }
    }
}

#[test]
fn new_cache_is_empty() {
    let cache = AudioCache::new();
    assert_eq!(
        cache.lookup(Asset::ButtonPress),
        PathLookup::Resolve("audio/button-press.wav")
    );
    assert_eq!(
        cache.lookup(Asset::Transition),
        PathLookup::Resolve("audio/alarm-kitchen.mp3")
    );
}

#[test]
fn resource_names() {
    assert_eq!(Asset::ButtonPress.resource_name(), "audio/button-press.wav");
    assert_eq!(Asset::Transition.resource_name(), "audio/alarm-kitchen.mp3");
}

#[test]
fn repeated_requests_resolve_once() {
    let mut cache = AudioCache::new();
    let mut calls: usize = 0;
    let mut seen = Vec::new();
    for _ in 0..10 {
        seen.push(get_path(&mut cache, Asset::ButtonPress, &mut calls, &resolve_name).unwrap());
    }
    assert_eq!(calls, 1);
    for p in &seen {
        assert_eq!(p, "/opt/app/resources/audio/button-press.wav");
    }
}

#[test]
fn record_keeps_the_first_path() {
    let mut cache = AudioCache::new();
    let first = cache.record(Asset::Transition, Ok("/a/alarm.mp3".to_string()));
    assert_eq!(first, Ok("/a/alarm.mp3".to_string()));
    let second = cache.record(Asset::Transition, Ok("/b/other.mp3".to_string()));
    assert_eq!(second, Ok("/a/alarm.mp3".to_string()));
    let third = cache.record(Asset::Transition, Err(ResourceResolutionError));
    assert_eq!(third, Ok("/a/alarm.mp3".to_string()));
    assert_eq!(
        cache.lookup(Asset::Transition),
        PathLookup::Cached("/a/alarm.mp3".to_string())
    );
}

#[test]
fn locked_first_use_resolves_once() {
    let cache = Arc::new(Mutex::new(AudioCache::new()));
    let mut calls: usize = 0;
    let mut paths = Vec::new();
    for _ in 0..8 {
        let shared = Arc::clone(&cache);
        let mut guard = shared.lock().unwrap();
        paths.push(get_path(&mut guard, Asset::ButtonPress, &mut calls, &resolve_name).unwrap());
    }
    assert_eq!(calls, 1);
    for p in &paths {
        assert_eq!(p, "/opt/app/resources/audio/button-press.wav");
    }
    assert_eq!(
        cache.lock().unwrap().lookup(Asset::Transition),
        PathLookup::Resolve("audio/alarm-kitchen.mp3")
    );
}

#[test]
fn distinct_assets_stay_apart() {
    let mut cache = AudioCache::new();
    let mut calls: usize = 0;
    let b = get_path(&mut cache, Asset::ButtonPress, &mut calls, &resolve_name).unwrap();
    assert_eq!(
        cache.lookup(Asset::Transition),
        PathLookup::Resolve("audio/alarm-kitchen.mp3")
    );
    let t = get_path(&mut cache, Asset::Transition, &mut calls, &resolve_name).unwrap();
    assert_ne!(b, t);
    assert_eq!(calls, 2);
}

#[test]
fn missing_asset_is_a_resolution_error() {
    let mut cache = AudioCache::new();
    let mut calls: usize = 0;
    let mut device_opened = false;
    let missing = |_: &str| -> Result<String, ResourceResolutionError> { Err(ResourceResolutionError) };
    match get_path(&mut cache, Asset::ButtonPress, &mut calls, &missing) {
        Ok(_) => device_opened = true,
        Err(e) => assert_eq!(e, ResourceResolutionError),
    }
    assert!(!device_opened);
    assert_eq!(
        cache.lookup(Asset::ButtonPress),
        PathLookup::Resolve("audio/button-press.wav")
    );
    let later = get_path(&mut cache, Asset::ButtonPress, &mut calls, &resolve_name);
    assert_eq!(later, Ok("/opt/app/resources/audio/button-press.wav".to_string()));
    assert_eq!(calls, 2);
}
