use std::collections::HashMap;

use vello_bench2::resource_store::ResourceStore;
use vello_bench2::scenes::SceneId;
use vello_bench2::storage::{
    calibration_key, delete_report, load_calibration_profile, save_calibration_profile,
    CalibrationProfile, CalibrationStore,
};

#[test]
fn image_cache_by_scene_and_epoch() {
    let mut store: ResourceStore<String> = ResourceStore::new();
    let (released, needs) = store.get_or_upload_image(SceneId::Rect, 1, 10);
    assert!(released.is_empty());
    assert!(needs);
    assert_eq!(store.insert_uploaded_image(SceneId::Rect, 1, 10, "a".to_string()), None);
    let (released, needs) = store.get_or_upload_image(SceneId::Rect, 1, 10);
    assert!(released.is_empty());
    assert!(!needs);
    assert_eq!(store.cached_image(SceneId::Rect, 1, 10), Some(&"a".to_string()));
    assert_eq!(
        store.insert_uploaded_image(SceneId::Rect, 1, 10, "dup".to_string()),
        Some("dup".to_string())
    );
    store.prepare_scene(SceneId::Clip, 5);
    store.insert_uploaded_image(SceneId::Clip, 5, 1, "c".to_string());
    store.insert_uploaded_image(SceneId::Rect, 1, 11, "b".to_string());
    assert_eq!(store.scene_epoch(SceneId::Rect), Some(1));
    // A new epoch releases the scene's images and keeps the other scene's.
    let released = store.prepare_scene(SceneId::Rect, 2);
    assert_eq!(released, vec!["a".to_string(), "b".to_string()]);
    assert_eq!(store.scene_epoch(SceneId::Rect), Some(2));
    assert_eq!(store.cached_image(SceneId::Rect, 1, 10), None);
    assert_eq!(store.cached_image(SceneId::Clip, 5, 1), Some(&"c".to_string()));
    assert!(store.prepare_scene(SceneId::Rect, 2).is_empty());
    let released = store.clear_scene(SceneId::Clip);
    assert_eq!(released, vec!["c".to_string()]);
    assert_eq!(store.scene_epoch(SceneId::Clip), None);
    store.insert_uploaded_image(SceneId::Text, 0, 0, "t".to_string());
    assert_eq!(store.clear_all(), vec!["t".to_string()]);
    assert_eq!(store.scene_epoch(SceneId::Rect), None);
}

#[test]
fn calibration_key_text() {
    assert_eq!(
        calibration_key("hybrid", true, 800, 600),
        "backend=hybrid;simd=1;width=800;height=600"
    );
    assert_eq!(
        calibration_key("cpu", false, 0, 4294967295),
        "backend=cpu;simd=0;width=0;height=4294967295"
    );
    assert_eq!(
        calibration_key("", false, 1920, 10),
        "backend=;simd=0;width=1920;height=10"
    );
}

fn profile(key: &str, counts: Vec<(u32, usize)>) -> CalibrationProfile {
    CalibrationProfile { key: key.to_string(), counts: counts.into_iter().collect() }
}

#[test]
fn calibration_profiles_save_and_load() {
    let mut store = CalibrationStore { profiles: Vec::new() };
    assert!(load_calibration_profile(&store, "a").is_none());
    save_calibration_profile(&mut store, profile("a", vec![(0, 5)]));
    save_calibration_profile(&mut store, profile("b", vec![(1, 7)]));
    save_calibration_profile(&mut store, profile("a", vec![(0, 9), (2, 3)]));
    assert_eq!(store.profiles.len(), 2);
    let a = load_calibration_profile(&store, "a").unwrap();
    assert_eq!(a.count_for(0), Some(9));
    assert_eq!(a.count_for(2), Some(3));
    assert_eq!(a.count_for(1), None);
    let b = load_calibration_profile(&store, "b").unwrap();
    assert_eq!(b.count_for(1), Some(7));
    assert_eq!(store.profiles[0].key, "a");
}

#[test]
fn count_for_reads_one_count_per_group() {
    let mut p = profile("k", vec![(4, 1), (5, 6)]);
    assert_eq!(p.count_for(4), Some(1));
    p.counts.insert(4, 2);
    assert_eq!(p.counts.len(), 2);
    assert_eq!(p.count_for(4), Some(2));
    assert_eq!(p.count_for(5), Some(6));
    assert_eq!(p.count_for(6), None);
}

#[test]
fn reports_delete_by_index() {
    let mut reports = vec!["r0", "r1", "r2"];
    assert!(delete_report(&mut reports, 1));
    assert_eq!(reports, vec!["r0", "r2"]);
    assert!(!delete_report(&mut reports, 2));
    assert_eq!(reports, vec!["r0", "r2"]);
}

#[test]
fn calibration_keys_differ_per_viewport() {
    assert_ne!(calibration_key("a", true, 12, 3), calibration_key("a", true, 1, 23));
    assert_ne!(calibration_key("a", true, 1, 2), calibration_key("a", true, 2, 1));
    assert_ne!(calibration_key("a", true, 1, 2), calibration_key("a", false, 1, 2));
    assert_eq!(calibration_key("a", true, 7, 7), calibration_key("a", true, 7, 7));
}

#[test]
fn image_cache_holds_one_image_per_key() {
    let mut store: ResourceStore<u32> = ResourceStore::new();
    store.prepare_scene(SceneId::Rect, 3);
    assert_eq!(store.insert_uploaded_image(SceneId::Rect, 3, 1, 10), None);
    assert_eq!(store.insert_uploaded_image(SceneId::Rect, 3, 1, 11), Some(11));
    assert_eq!(store.insert_uploaded_image(SceneId::Rect, 3, 2, 12), None);
    assert_eq!(store.cached_image(SceneId::Rect, 3, 1), Some(&10));
    // Preparing again for another epoch records one epoch for the scene.
    assert_eq!(store.prepare_scene(SceneId::Rect, 4), vec![10, 12]);
    assert_eq!(store.prepare_scene(SceneId::Rect, 5), Vec::<u32>::new());
    assert_eq!(store.scene_epoch(SceneId::Rect), Some(5));
    assert_eq!(store.clear_scene(SceneId::Rect), Vec::<u32>::new());
    assert_eq!(store.scene_epoch(SceneId::Rect), None);
}

#[test]
fn saving_profiles_keeps_one_per_key() {
    let mut store = CalibrationStore { profiles: Vec::new() };
    for round in 0..3 {
        save_calibration_profile(&mut store, profile("x", vec![(0, round)]));
        save_calibration_profile(&mut store, profile("y", vec![(1, round)]));
    }
    assert_eq!(store.profiles.len(), 2);
    assert_eq!(store.profiles[0].key, "x");
    assert_eq!(store.profiles[1].key, "y");
    assert_eq!(load_calibration_profile(&store, "x").unwrap().count_for(0), Some(2));
}
