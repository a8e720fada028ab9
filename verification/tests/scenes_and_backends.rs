use vello_bench2::backend::canvas2d;
use vello_bench2::backend::{
    atlas_dimension, current_backend_capabilities, current_backend_kind, BackendKind,
};
use vello_bench2::scenes::{points_per_segment, scene_index, ParamId, SceneId};

#[test]
fn scene_and_param_positions() {
    assert_eq!(SceneId::Rect.index(), 0);
    assert_eq!(SceneId::FilterLayers.index(), 6);
    assert_eq!(SceneId::Clip.bit(), 16);
    assert_eq!(ParamId::NumRects.index(), 0);
    assert_eq!(ParamId::TargetOverlap.index(), 27);
    assert_eq!(ParamId::TargetOverlap.bit(), 1u64 << 27);
    assert_eq!(scene_index(SceneId::Text), 5);
}

#[test]
fn param_names() {
    assert_eq!(ParamId::NumRects.as_str(), "num_rects");
    assert_eq!(ParamId::BlurStdDeviation.as_str(), "blur_std_deviation");
    assert_eq!(ParamId::Cap.as_str(), "cap");
}

#[test]
fn stroke_points_per_segment() {
    assert_eq!(points_per_segment(0), 1);
    assert_eq!(points_per_segment(1), 2);
    assert_eq!(points_per_segment(2), 3);
    assert_eq!(points_per_segment(7), 1);
}

#[test]
fn backend_names_round_trip() {
    for kind in [
        BackendKind::Hybrid,
        BackendKind::Cpu,
        BackendKind::Pathfinder,
        BackendKind::Canvas2d,
    ] {
        assert_eq!(BackendKind::from_str(kind.as_str()), Some(kind));
        assert_eq!(current_backend_kind(Some(kind.as_str())), kind);
    }
    assert_eq!(BackendKind::Cpu.label(), "Vello CPU");
    assert_eq!(BackendKind::Canvas2d.label(), "Canvas 2D");
    assert_eq!(BackendKind::from_str("webgpu"), None);
    assert_eq!(BackendKind::from_str("Hybrid"), None);
}

#[test]
fn unknown_or_missing_backend_falls_back_to_hybrid() {
    assert_eq!(current_backend_kind(None), BackendKind::Hybrid);
    assert_eq!(current_backend_kind(Some("")), BackendKind::Hybrid);
    assert_eq!(current_backend_kind(Some("gpu")), BackendKind::Hybrid);
}

#[test]
fn hybrid_supports_everything() {
    let caps = current_backend_capabilities(BackendKind::Hybrid);
    assert!(caps.supports_scene(SceneId::FilterLayers));
    assert!(caps.supports_param(SceneId::Rect, ParamId::UseDrawImage));
    assert!(caps.supports_param_value(SceneId::Rect, ParamId::GradientShape, 2));
}

#[test]
fn cpu_lacks_draw_image() {
    let caps = current_backend_capabilities(BackendKind::Cpu);
    assert!(caps.supports_scene(SceneId::Text));
    assert!(!caps.supports_param(SceneId::Rect, ParamId::UseDrawImage));
    assert!(caps.supports_param(SceneId::Rect, ParamId::NumRects));
    assert!(caps.supports_param(SceneId::Clip, ParamId::UseDrawImage));
}

#[test]
fn pathfinder_profile() {
    let caps = current_backend_capabilities(BackendKind::Pathfinder);
    assert!(caps.supports_scene(SceneId::Rect));
    assert!(caps.supports_scene(SceneId::Clip));
    assert!(!caps.supports_scene(SceneId::Text));
    assert!(!caps.supports_scene(SceneId::FilterLayers));
    assert!(caps.supports_param(SceneId::Rect, ParamId::UseDrawImage));
    assert!(!caps.supports_param(SceneId::Rect, ParamId::Opaque));
    assert!(caps.supports_param(SceneId::Polyline, ParamId::NumVertices));
    assert!(!caps.supports_param(SceneId::Polyline, ParamId::Speed));
    assert!(!caps.supports_param_value(SceneId::Rect, ParamId::GradientShape, 2));
    assert!(caps.supports_param_value(SceneId::Rect, ParamId::GradientShape, 1));
    assert!(caps.supports_param_value(SceneId::Rect, ParamId::PaintMode, 2));
}

#[test]
fn canvas2d_profile_agrees_with_its_own_answers() {
    let caps = current_backend_capabilities(BackendKind::Canvas2d);
    let scenes = [
        SceneId::Rect,
        SceneId::Strokes,
        SceneId::Polyline,
        SceneId::Svg,
        SceneId::Clip,
        SceneId::Text,
        SceneId::FilterLayers,
    ];
    let params = [
        ParamId::NumRects,
        ParamId::PaintMode,
        ParamId::GradientShape,
        ParamId::ImageFilter,
        ParamId::UseDrawImage,
        ParamId::NumStrokes,
        ParamId::Cap,
        ParamId::NumVertices,
        ParamId::SvgAsset,
        ParamId::ClipMethod,
        ParamId::FontSize,
    ];
    for s in scenes {
        assert_eq!(caps.supports_scene(s), canvas2d::supports_scene(s));
        for p in params {
            assert_eq!(caps.supports_param(s, p), canvas2d::supports_param(s, p));
            for v in 0..4u32 {
                assert_eq!(
                    caps.supports_param_value(s, p, v),
                    canvas2d::supports_param_value(s, p, v)
                );
            }
        }
    }
    assert!(!canvas2d::supports_param_value(SceneId::Rect, ParamId::PaintMode, 2));
    assert!(!canvas2d::supports_param(SceneId::Rect, ParamId::ImageFilter));
    let _ = canvas2d::Pixmap::from_parts_with_opacity(vec![0u32; 4], 2, 2, true);
}

#[test]
fn hybrid_atlas_dimension() {
    assert_eq!(atlas_dimension(16_384, 800, 600), 8192);
    assert_eq!(atlas_dimension(4096, 800, 600), 4096);
    assert_eq!(atlas_dimension(2048, 3000, 600), 3000);
    assert_eq!(atlas_dimension(2048, 600, 10_000), 8192);
    assert_eq!(atlas_dimension(0, 0, 0), 0);
}

const ALL_PARAMS: [ParamId; 28] = [
    ParamId::NumRects,
    ParamId::PaintMode,
    ParamId::RectSize,
    ParamId::Rotated,
    ParamId::GradientShape,
    ParamId::DynamicGradient,
    ParamId::ImageFilter,
    ParamId::ImageOpaque,
    ParamId::UseDrawImage,
    ParamId::NumStrokes,
    ParamId::CurveType,
    ParamId::Segments,
    ParamId::StrokeWidth,
    ParamId::Cap,
    ParamId::NumVertices,
    ParamId::SvgAsset,
    ParamId::ClipMode,
    ParamId::ClipMethod,
    ParamId::NumRuns,
    ParamId::FontSize,
    ParamId::FilterKind,
    ParamId::Speed,
    ParamId::BlurStdDeviation,
    ParamId::ShadowDx,
    ParamId::ShadowDy,
    ParamId::ShadowAlpha,
    ParamId::Opaque,
    ParamId::TargetOverlap,
];

#[test]
fn param_names_and_bits_are_distinct() {
    let mut names: Vec<&str> = ALL_PARAMS.iter().map(|p| p.as_str()).collect();
    names.sort();
    names.dedup();
    assert_eq!(names.len(), 28);
    let mut mask = 0u64;
    for (i, p) in ALL_PARAMS.iter().enumerate() {
        assert_eq!(p.index(), i);
        assert_eq!(mask & p.bit(), 0);
        mask |= p.bit();
    }
    assert_eq!(mask, vello_bench2::scenes::PARAM_ALL_MASK);
}
