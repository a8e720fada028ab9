use vello_bench2::capability::{CapabilityProfile, UnsupportedParamValue};
use vello_bench2::scenes::{ParamId, SceneId};

#[test]
fn none_and_all() {
    let none = CapabilityProfile::none();
    let all = CapabilityProfile::all();
    assert!(!none.supports_scene(SceneId::Rect));
    assert!(!none.supports_param(SceneId::Rect, ParamId::NumRects));
    assert!(none.supports_param_value(SceneId::Rect, ParamId::NumRects, 3));
    assert!(all.supports_scene(SceneId::FilterLayers));
    assert!(all.supports_param(SceneId::Text, ParamId::TargetOverlap));
}

#[test]
fn allow_and_deny() {
    let p = CapabilityProfile::none()
        .allow_scenes(&[SceneId::Svg])
        .allow_params(SceneId::Svg, &[ParamId::SvgAsset, ParamId::Speed])
        .deny_params(SceneId::Svg, &[ParamId::Speed]);
    assert!(p.supports_scene(SceneId::Svg));
    assert!(!p.supports_scene(SceneId::Rect));
    assert!(p.supports_param(SceneId::Svg, ParamId::SvgAsset));
    assert!(!p.supports_param(SceneId::Svg, ParamId::Speed));
    assert!(!p.supports_param(SceneId::Rect, ParamId::SvgAsset));
}

#[test]
fn unsupported_values() {
    let p = CapabilityProfile::all().with_unsupported_values(vec![UnsupportedParamValue::new(
        SceneId::Rect,
        ParamId::PaintMode,
        2,
    )]);
    assert!(!p.supports_param_value(SceneId::Rect, ParamId::PaintMode, 2));
    assert!(p.supports_param_value(SceneId::Rect, ParamId::PaintMode, 1));
    assert!(p.supports_param_value(SceneId::Clip, ParamId::PaintMode, 2));
}
