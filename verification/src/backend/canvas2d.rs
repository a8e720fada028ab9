//! The Canvas 2D backend's own account of what it supports.

use vstd::prelude::*;

use crate::backend::{
    canvas2d_rect_params, clip_params, kind_profile, stroke_params, vector_backend_scenes,
    BackendKind,
};
use crate::scenes::{ParamId, SceneId};

verus! {

/// Image data; the Canvas 2D backend does not upload images, so it keeps none.
pub struct Pixmap;

impl Pixmap {
    pub fn from_parts_with_opacity<T>(
        _pixels: Vec<T>,
        _width: u16,
        _height: u16,
        _may_have_opacities: bool,
    ) -> Self {
        Pixmap
    }
}

pub open spec fn canvas2d_scene(scene_id: SceneId) -> bool {
    match scene_id {
        SceneId::Rect | SceneId::Strokes | SceneId::Polyline | SceneId::Svg | SceneId::Clip => true,
        _ => false,
    }
}

pub open spec fn canvas2d_param(scene_id: SceneId, param: ParamId) -> bool {
    match (scene_id, param) {
        (SceneId::Rect, ParamId::NumRects)
        | (SceneId::Rect, ParamId::PaintMode)
        | (SceneId::Rect, ParamId::RectSize)
        | (SceneId::Rect, ParamId::Rotated)
        | (SceneId::Rect, ParamId::GradientShape)
        | (SceneId::Rect, ParamId::DynamicGradient)
        | (SceneId::Strokes, ParamId::NumStrokes)
        | (SceneId::Strokes, ParamId::CurveType)
        | (SceneId::Strokes, ParamId::Segments)
        | (SceneId::Strokes, ParamId::StrokeWidth)
        | (SceneId::Strokes, ParamId::Cap)
        | (SceneId::Polyline, ParamId::NumVertices)
        | (SceneId::Svg, ParamId::SvgAsset)
        | (SceneId::Clip, ParamId::NumRects)
        | (SceneId::Clip, ParamId::RectSize)
        | (SceneId::Clip, ParamId::ClipMode)
        | (SceneId::Clip, ParamId::ClipMethod) => true,
        _ => false,
    }
}

pub open spec fn canvas2d_param_value(scene_id: SceneId, param: ParamId, value: u32) -> bool {
    !((scene_id == SceneId::Rect && param == ParamId::PaintMode && value == 2)
        || (scene_id == SceneId::Rect && param == ParamId::GradientShape && value == 2))
}

/// Whether the Canvas 2D backend can render the scene.
pub fn supports_scene(scene_id: SceneId) -> (b: bool)
    ensures
        b == canvas2d_scene(scene_id),
{
    match scene_id {
        SceneId::Rect | SceneId::Strokes | SceneId::Polyline | SceneId::Svg | SceneId::Clip => true,
        _ => false,
    }
}

/// Whether the Canvas 2D backend honours the parameter for the scene.
pub fn supports_param(scene_id: SceneId, param: ParamId) -> (b: bool)
    ensures
        b == canvas2d_param(scene_id, param),
{
    match (scene_id, param) {
        (SceneId::Rect, ParamId::NumRects)
        | (SceneId::Rect, ParamId::PaintMode)
        | (SceneId::Rect, ParamId::RectSize)
        | (SceneId::Rect, ParamId::Rotated)
        | (SceneId::Rect, ParamId::GradientShape)
        | (SceneId::Rect, ParamId::DynamicGradient)
        | (SceneId::Strokes, ParamId::NumStrokes)
        | (SceneId::Strokes, ParamId::CurveType)
        | (SceneId::Strokes, ParamId::Segments)
        | (SceneId::Strokes, ParamId::StrokeWidth)
        | (SceneId::Strokes, ParamId::Cap)
        | (SceneId::Polyline, ParamId::NumVertices)
        | (SceneId::Svg, ParamId::SvgAsset)
        | (SceneId::Clip, ParamId::NumRects)
        | (SceneId::Clip, ParamId::RectSize)
        | (SceneId::Clip, ParamId::ClipMode)
        | (SceneId::Clip, ParamId::ClipMethod) => true,
        _ => false,
    }
}

/// Whether the Canvas 2D backend can render the value of the parameter
/// (given as the integer that the value truncates to).
pub fn supports_param_value(scene_id: SceneId, param: ParamId, value: u32) -> (b: bool)
    ensures
        b == canvas2d_param_value(scene_id, param, value),
{
    !((scene_id == SceneId::Rect && param == ParamId::PaintMode && value == 2)
        || (scene_id == SceneId::Rect && param == ParamId::GradientShape && value == 2))
}


/// The Canvas 2D backend's own answers agree with the capability profile
/// recorded for it.
pub proof fn law_canvas2d_profile_agrees(s: SceneId, p: ParamId, v: u32)
    ensures
        kind_profile(BackendKind::Canvas2d).supports_scene(s) == canvas2d_scene(s),
        kind_profile(BackendKind::Canvas2d).supports_param(s, p) == canvas2d_param(s, p),
        kind_profile(BackendKind::Canvas2d).supports_param_value(s, p, v) == canvas2d_param_value(
            s,
            p,
            v,
        ),
{
    let scenes = vector_backend_scenes();
    if canvas2d_scene(s) {
        let i: int = if s == SceneId::Rect {
            0
        } else if s == SceneId::Strokes {
            1
        } else if s == SceneId::Polyline {
            2
        } else if s == SceneId::Svg {
            3
        } else {
            4
        };
        assert(scenes[i] == s);
    }
    let rect = canvas2d_rect_params();
    let strokes = stroke_params();
    let clip = clip_params();
    let poly = seq![ParamId::NumVertices];
    let svg = seq![ParamId::SvgAsset];
    if canvas2d_param(s, p) {
        if s == SceneId::Rect {
            let i: int = if p == ParamId::NumRects { 0 } else if p == ParamId::PaintMode { 1 } else if p == ParamId::RectSize { 2 } else if p == ParamId::Rotated { 3 } else if p == ParamId::GradientShape { 4 } else { 5 };
            assert(rect[i] == p);
        } else if s == SceneId::Strokes {
            let i: int = if p == ParamId::NumStrokes { 0 } else if p == ParamId::CurveType { 1 } else if p == ParamId::Segments { 2 } else if p == ParamId::StrokeWidth { 3 } else { 4 };
            assert(strokes[i] == p);
        } else if s == SceneId::Polyline {
            assert(poly[0] == p);
        } else if s == SceneId::Svg {
            assert(svg[0] == p);
        } else {
            let i: int = if p == ParamId::NumRects { 0 } else if p == ParamId::RectSize { 1 } else if p == ParamId::ClipMode { 2 } else { 3 };
            assert(clip[i] == p);
        }
    }
    let u = seq![
        (SceneId::Rect, ParamId::PaintMode, 2u32),
        (SceneId::Rect, ParamId::GradientShape, 2u32),
    ];
    if s == SceneId::Rect && p == ParamId::PaintMode && v == 2 {
        assert(u[0] == (s, p, v));
    }
    if s == SceneId::Rect && p == ParamId::GradientShape && v == 2 {
        assert(u[1] == (s, p, v));
    }
}

} // verus!
