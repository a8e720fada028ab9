use vello_bench2::backend::{current_backend_capabilities, BackendKind};
use vello_bench2::benches::{
    bench_categories, bench_def_supported, bench_defs, supported_scene_or_rect, BenchDef,
    BENCH_COUNT,
};
use vello_bench2::scenes::{ParamId, SceneId};

const SCENES: [SceneId; 7] = [
    SceneId::Rect,
    SceneId::Strokes,
    SceneId::Polyline,
    SceneId::Svg,
    SceneId::Clip,
    SceneId::Text,
    SceneId::FilterLayers,
];

#[test]
fn bench_table() {
    let defs = bench_defs();
    assert_eq!(defs.len(), BENCH_COUNT);
    assert_eq!(defs.len(), 40);
    assert_eq!(defs[0].name, "Rect - 5×5 - Solid");
    assert_eq!(defs[0].category, "Rects (alpha)");
    assert_eq!(defs[0].scale.unwrap().calibrated_value, 600_000);
    assert!(defs[0].params.contains(&(ParamId::NumRects, 600_000)));
    assert_eq!(defs[25].name, "Ghostscript Tiger");
    assert!(defs[25].scale.is_none());
    for def in &defs {
        if let Some(scale) = def.scale {
            assert!(def
                .params
                .contains(&(scale.param, scale.calibrated_value as u32)));
        }
    }
    let mut names: Vec<&str> = defs.iter().map(|d| d.name).collect();
    names.sort();
    names.dedup();
    assert_eq!(names.len(), 40);
}

#[test]
fn bench_support_per_backend() {
    let defs = bench_defs();
    let hybrid = current_backend_capabilities(BackendKind::Hybrid);
    assert!(defs.iter().all(|d| bench_def_supported(d, &SCENES, hybrid)));
    let canvas = current_backend_capabilities(BackendKind::Canvas2d);
    let text = defs.iter().position(|d| d.name == "Text - 8px").unwrap();
    assert!(!bench_def_supported(&defs[text], &SCENES, canvas));
    // Canvas 2D cannot paint images (paint mode 2).
    assert!(!bench_def_supported(&defs[8], &SCENES, canvas));
    assert!(!bench_def_supported(&defs[0], &SCENES, canvas));
    let pathfinder = current_backend_capabilities(BackendKind::Pathfinder);
    // Opaque is not a Pathfinder parameter.
    assert!(!bench_def_supported(&defs[0], &SCENES, pathfinder));
    assert!(!bench_def_supported(&defs[0], &SCENES[..0], hybrid));
}

#[test]
fn shown_scene_falls_back_to_rect() {
    let pathfinder = current_backend_capabilities(BackendKind::Pathfinder);
    assert_eq!(supported_scene_or_rect(Some(5), &SCENES, pathfinder), 0);
    assert_eq!(supported_scene_or_rect(Some(4), &SCENES, pathfinder), 4);
    assert_eq!(supported_scene_or_rect(Some(9), &SCENES, pathfinder), 0);
    assert_eq!(supported_scene_or_rect(None, &SCENES, pathfinder), 0);
}

#[test]
fn bench_categories_in_first_seen_order() {
    let defs = bench_defs();
    let groups = bench_categories(&defs);
    assert_eq!(groups[0], ("Rects (alpha)", vec![0, 1, 2]));
    assert_eq!(groups[1], ("Rects (alpha, low overdraw)", vec![3, 4]));
    assert_eq!(groups[2].0, "Rects (opaque)");
    let mut seen = vec![false; defs.len()];
    for (name, members) in &groups {
        assert!(!members.is_empty());
        for &i in members {
            assert_eq!(defs[i].category, *name);
            assert!(!seen[i]);
            seen[i] = true;
        }
    }
    assert!(seen.iter().all(|&s| s));
    for a in 0..groups.len() {
        for b in a + 1..groups.len() {
            assert_ne!(groups[a].0, groups[b].0);
        }
    }
}

fn def_in(category: &'static str) -> BenchDef {
    BenchDef {
        name: "b",
        description: "",
        category,
        scene_id: SceneId::Rect,
        scale: None,
        params: Vec::new(),
    }
}

#[test]
fn bench_categories_of_interleaved_list() {
    let defs = vec![def_in("x"), def_in("y"), def_in("x"), def_in("z"), def_in("y")];
    let groups = bench_categories(&defs);
    assert_eq!(
        groups,
        vec![("x", vec![0, 2]), ("y", vec![1, 4]), ("z", vec![3])]
    );
    assert!(bench_categories(&[]).is_empty());
}
