//! Rendering backends: their names and the capability profile of each.

pub mod canvas2d;

use vstd::prelude::*;

use crate::capability::{CapabilityProfile, CapabilityView, UnsupportedParamValue};
use crate::scenes::{ParamId, SceneId};
use crate::text::str_eq;

verus! {

/// A rendering backend.
#[derive(Debug, Clone, Copy, PartialEq, Eq, Structural)]
pub enum BackendKind {
    Hybrid,
    Cpu,
    Pathfinder,
    Canvas2d,
}

/// The name under which a backend is saved.
pub open spec fn kind_name(k: BackendKind) -> Seq<char> {
    match k {
        BackendKind::Hybrid => "hybrid"@,
        BackendKind::Cpu => "cpu"@,
        BackendKind::Pathfinder => "pathfinder"@,
        BackendKind::Canvas2d => "canvas2d"@,
    }
}

/// The name under which a backend is shown.
pub open spec fn kind_label(k: BackendKind) -> Seq<char> {
    match k {
        BackendKind::Hybrid => "Vello Hybrid"@,
        BackendKind::Cpu => "Vello CPU"@,
        BackendKind::Pathfinder => "Pathfinder"@,
        BackendKind::Canvas2d => "Canvas 2D"@,
    }
}

/// The backend that a saved name stands for, if any.
pub open spec fn kind_from_name(name: Seq<char>) -> Option<BackendKind> {
    if name == "hybrid"@ {
        Some(BackendKind::Hybrid)
    } else if name == "cpu"@ {
        Some(BackendKind::Cpu)
    } else if name == "pathfinder"@ {
        Some(BackendKind::Pathfinder)
    } else if name == "canvas2d"@ {
        Some(BackendKind::Canvas2d)
    } else {
        None
    }
}

/// The scenes that the Pathfinder and Canvas 2D backends can render.
pub open spec fn vector_backend_scenes() -> Seq<SceneId> {
    seq![SceneId::Rect, SceneId::Strokes, SceneId::Polyline, SceneId::Svg, SceneId::Clip]
}

pub open spec fn stroke_params() -> Seq<ParamId> {
    seq![
        ParamId::NumStrokes,
        ParamId::CurveType,
        ParamId::Segments,
        ParamId::StrokeWidth,
        ParamId::Cap,
    ]
}

pub open spec fn clip_params() -> Seq<ParamId> {
    seq![ParamId::NumRects, ParamId::RectSize, ParamId::ClipMode, ParamId::ClipMethod]
}

pub open spec fn pathfinder_rect_params() -> Seq<ParamId> {
    seq![
        ParamId::NumRects,
        ParamId::PaintMode,
        ParamId::RectSize,
        ParamId::Rotated,
        ParamId::ImageFilter,
        ParamId::ImageOpaque,
        ParamId::UseDrawImage,
        ParamId::GradientShape,
        ParamId::DynamicGradient,
    ]
}

pub open spec fn canvas2d_rect_params() -> Seq<ParamId> {
    seq![
        ParamId::NumRects,
        ParamId::PaintMode,
        ParamId::RectSize,
        ParamId::Rotated,
        ParamId::GradientShape,
        ParamId::DynamicGradient,
    ]
}

/// What each backend supports.
pub open spec fn kind_profile(k: BackendKind) -> CapabilityView {
    match k {
        BackendKind::Hybrid => CapabilityView::all(),
        BackendKind::Cpu => CapabilityView::all().deny_params(
            SceneId::Rect,
            seq![ParamId::UseDrawImage],
        ),
        BackendKind::Pathfinder => CapabilityView::none().allow_scenes(
            vector_backend_scenes(),
        ).allow_params(SceneId::Rect, pathfinder_rect_params()).allow_params(
            SceneId::Strokes,
            stroke_params(),
        ).allow_params(SceneId::Polyline, seq![ParamId::NumVertices]).allow_params(
            SceneId::Svg,
            seq![ParamId::SvgAsset],
        ).allow_params(SceneId::Clip, clip_params()).with_unsupported_values(
            seq![(SceneId::Rect, ParamId::GradientShape, 2u32)],
        ),
        BackendKind::Canvas2d => CapabilityView::none().allow_scenes(
            vector_backend_scenes(),
        ).allow_params(SceneId::Rect, canvas2d_rect_params()).allow_params(
            SceneId::Strokes,
            stroke_params(),
        ).allow_params(SceneId::Polyline, seq![ParamId::NumVertices]).allow_params(
            SceneId::Svg,
            seq![ParamId::SvgAsset],
        ).allow_params(SceneId::Clip, clip_params()).with_unsupported_values(
            seq![
                (SceneId::Rect, ParamId::PaintMode, 2u32),
                (SceneId::Rect, ParamId::GradientShape, 2u32),
            ],
        ),
    }
}

impl BackendKind {
    /// The name under which this backend is saved.
    pub fn as_str(self) -> (s: &'static str)
        ensures
            s@ == kind_name(self),
    {
        match self {
            BackendKind::Hybrid => "hybrid",
            BackendKind::Cpu => "cpu",
            BackendKind::Pathfinder => "pathfinder",
            BackendKind::Canvas2d => "canvas2d",
        }
    }

    /// The name under which this backend is shown.
    pub fn label(self) -> (s: &'static str)
        ensures
            s@ == kind_label(self),
    {
        match self {
            BackendKind::Hybrid => "Vello Hybrid",
            BackendKind::Cpu => "Vello CPU",
            BackendKind::Pathfinder => "Pathfinder",
            BackendKind::Canvas2d => "Canvas 2D",
        }
    }

    /// The backend that a saved name stands for, if any.
    pub fn from_str(value: &str) -> (r: Option<Self>)
        ensures
            r == kind_from_name(value@),
    {
        if str_eq(value, "hybrid") {
            Some(BackendKind::Hybrid)
        } else if str_eq(value, "cpu") {
            Some(BackendKind::Cpu)
        } else if str_eq(value, "pathfinder") {
            Some(BackendKind::Pathfinder)
        } else if str_eq(value, "canvas2d") {
            Some(BackendKind::Canvas2d)
        } else {
            None
        }
    }

    /// The capability profile of this backend.
    pub fn capabilities(self) -> (r: CapabilityProfile)
        ensures
            r@ == kind_profile(self),
    {
        match self {
            BackendKind::Hybrid => CapabilityProfile::all(),
            BackendKind::Cpu => {
                let denied = [ParamId::UseDrawImage];
                assert(denied@ =~= seq![ParamId::UseDrawImage]);
                CapabilityProfile::all().deny_params(SceneId::Rect, &denied)
            },
            BackendKind::Pathfinder => {
                let scenes = [
                    SceneId::Rect,
                    SceneId::Strokes,
                    SceneId::Polyline,
                    SceneId::Svg,
                    SceneId::Clip,
                ];
                let rect = [
                    ParamId::NumRects,
                    ParamId::PaintMode,
                    ParamId::RectSize,
                    ParamId::Rotated,
                    ParamId::ImageFilter,
                    ParamId::ImageOpaque,
                    ParamId::UseDrawImage,
                    ParamId::GradientShape,
                    ParamId::DynamicGradient,
                ];
                let strokes = [
                    ParamId::NumStrokes,
                    ParamId::CurveType,
                    ParamId::Segments,
                    ParamId::StrokeWidth,
                    ParamId::Cap,
                ];
                let polyline = [ParamId::NumVertices];
                let svg = [ParamId::SvgAsset];
                let clip = [ParamId::NumRects, ParamId::RectSize, ParamId::ClipMode, ParamId::ClipMethod];
                let unsupported = vec![
                    UnsupportedParamValue::new(SceneId::Rect, ParamId::GradientShape, 2),
                ];
                assert(scenes@ =~= vector_backend_scenes());
                assert(rect@ =~= pathfinder_rect_params());
                assert(strokes@ =~= stroke_params());
                assert(polyline@ =~= seq![ParamId::NumVertices]);
                assert(svg@ =~= seq![ParamId::SvgAsset]);
                assert(clip@ =~= clip_params());
                assert(unsupported@.map_values(|u: UnsupportedParamValue| u@) =~= seq![
                    (SceneId::Rect, ParamId::GradientShape, 2u32),
                ]);
                CapabilityProfile::none().allow_scenes(&scenes).allow_params(
                    SceneId::Rect,
                    &rect,
                ).allow_params(SceneId::Strokes, &strokes).allow_params(
                    SceneId::Polyline,
                    &polyline,
                ).allow_params(SceneId::Svg, &svg).allow_params(
                    SceneId::Clip,
                    &clip,
                ).with_unsupported_values(unsupported)
            },
            BackendKind::Canvas2d => {
                let scenes = [
                    SceneId::Rect,
                    SceneId::Strokes,
                    SceneId::Polyline,
                    SceneId::Svg,
                    SceneId::Clip,
                ];
                let rect = [
                    ParamId::NumRects,
                    ParamId::PaintMode,
                    ParamId::RectSize,
                    ParamId::Rotated,
                    ParamId::GradientShape,
                    ParamId::DynamicGradient,
                ];
                let strokes = [
                    ParamId::NumStrokes,
                    ParamId::CurveType,
                    ParamId::Segments,
                    ParamId::StrokeWidth,
                    ParamId::Cap,
                ];
                let polyline = [ParamId::NumVertices];
                let svg = [ParamId::SvgAsset];
                let clip = [ParamId::NumRects, ParamId::RectSize, ParamId::ClipMode, ParamId::ClipMethod];
                let unsupported = vec![
                    UnsupportedParamValue::new(SceneId::Rect, ParamId::PaintMode, 2),
                    UnsupportedParamValue::new(SceneId::Rect, ParamId::GradientShape, 2),
                ];
                assert(scenes@ =~= vector_backend_scenes());
                assert(rect@ =~= canvas2d_rect_params());
                assert(strokes@ =~= stroke_params());
                assert(polyline@ =~= seq![ParamId::NumVertices]);
                assert(svg@ =~= seq![ParamId::SvgAsset]);
                assert(clip@ =~= clip_params());
                assert(unsupported@.map_values(|u: UnsupportedParamValue| u@) =~= seq![
                    (SceneId::Rect, ParamId::PaintMode, 2u32),
                    (SceneId::Rect, ParamId::GradientShape, 2u32),
                ]);
                CapabilityProfile::none().allow_scenes(&scenes).allow_params(
                    SceneId::Rect,
                    &rect,
                ).allow_params(SceneId::Strokes, &strokes).allow_params(
                    SceneId::Polyline,
                    &polyline,
                ).allow_params(SceneId::Svg, &svg).allow_params(
                    SceneId::Clip,
                    &clip,
                ).with_unsupported_values(unsupported)
            },
        }
    }
}

/// The backend named by the saved setting, or the hybrid backend when
/// nothing is saved or the saved name is unknown.
pub fn current_backend_kind(saved_name: Option<&str>) -> (k: BackendKind)
    ensures
        k == (match saved_name {
            Some(name) => match kind_from_name(name@) {
                Some(kind) => kind,
                None => BackendKind::Hybrid,
            },
            None => BackendKind::Hybrid,
        }),
{
    match saved_name {
        Some(name) => match BackendKind::from_str(name) {
            Some(kind) => kind,
            None => BackendKind::Hybrid,
        },
        None => BackendKind::Hybrid,
    }
}

/// What the current backend can render.
#[derive(Debug, Clone, Copy)]
pub struct BackendCapabilities {
    kind: BackendKind,
}

impl View for BackendCapabilities {
    type V = BackendKind;

    closed spec fn view(&self) -> BackendKind {
        self.kind
    }
}

impl BackendCapabilities {
    pub fn supports_scene(self, scene_id: SceneId) -> (b: bool)
        ensures
            b == kind_profile(self@).supports_scene(scene_id),
    {
        self.kind.capabilities().supports_scene(scene_id)
    }

    pub fn supports_param(self, scene_id: SceneId, param: ParamId) -> (b: bool)
        ensures
            b == kind_profile(self@).supports_param(scene_id, param),
    {
        self.kind.capabilities().supports_param(scene_id, param)
    }

    pub fn supports_param_value(self, scene_id: SceneId, param: ParamId, value: u32) -> (b: bool)
        ensures
            b == kind_profile(self@).supports_param_value(scene_id, param, value),
    {
        self.kind.capabilities().supports_param_value(scene_id, param, value)
    }
}

/// The capabilities of a backend.
pub fn current_backend_capabilities(kind: BackendKind) -> (c: BackendCapabilities)
    ensures
        c@ == kind,
{
    BackendCapabilities { kind }
}


/// Largest texture side the hybrid backend asks for.
pub const MAX_ATLAS_DIMENSION: u32 = 8192;

pub open spec fn min_u32(a: u32, b: u32) -> u32 {
    if a <= b {
        a
    } else {
        b
    }
}

pub open spec fn max_u32(a: u32, b: u32) -> u32 {
    if a >= b {
        a
    } else {
        b
    }
}

/// Side of the hybrid backend's square image atlases: the device's texture
/// limit, capped at 8192, but at least the larger side of the viewport (also
/// capped at 8192).
pub fn atlas_dimension(max_texture_size: u32, width: u32, height: u32) -> (d: u32)
    ensures
        d == max_u32(
            min_u32(max_texture_size, MAX_ATLAS_DIMENSION),
            min_u32(max_u32(width, height), MAX_ATLAS_DIMENSION),
        ),
        d <= MAX_ATLAS_DIMENSION,
{
    let limit = if max_texture_size <= MAX_ATLAS_DIMENSION {
        max_texture_size
    } else {
        MAX_ATLAS_DIMENSION
    };
    let side = if width >= height {
        width
    } else {
        height
    };
    let wanted = if side <= MAX_ATLAS_DIMENSION {
        side
    } else {
        MAX_ATLAS_DIMENSION
    };
    if limit >= wanted {
        limit
    } else {
        wanted
    }
}

/// A backend's saved name reads back as that backend, so the backend that
/// was chosen is the one restored on the next start.
pub proof fn law_backend_name_round_trip(k: BackendKind)
    ensures
        kind_from_name(kind_name(k)) == Some(k),
{
    reveal_strlit("hybrid");
    reveal_strlit("cpu");
    reveal_strlit("pathfinder");
    reveal_strlit("canvas2d");
    assert("hybrid"@.len() == 6);
    assert("cpu"@.len() == 3);
    assert("pathfinder"@.len() == 10);
    assert("canvas2d"@.len() == 8);
}

/// The hybrid backend supports every scene, parameter and value.
pub proof fn law_hybrid_supports_everything(s: SceneId, p: ParamId, v: u32)
    ensures
        kind_profile(BackendKind::Hybrid).supports_scene(s),
        kind_profile(BackendKind::Hybrid).supports_param(s, p),
        kind_profile(BackendKind::Hybrid).supports_param_value(s, p, v),
{
}

/// The CPU backend supports everything but drawing rectangles through the
/// image-drawing call.
pub proof fn law_cpu_lacks_only_draw_image(s: SceneId, p: ParamId, v: u32)
    ensures
        kind_profile(BackendKind::Cpu).supports_scene(s),
        kind_profile(BackendKind::Cpu).supports_param(s, p) <==> !(s == SceneId::Rect && p
            == ParamId::UseDrawImage),
        kind_profile(BackendKind::Cpu).supports_param_value(s, p, v),
{
    assert(seq![ParamId::UseDrawImage].contains(p) <==> p == ParamId::UseDrawImage) by {
        if p == ParamId::UseDrawImage {
            assert(seq![ParamId::UseDrawImage][0] == p);
        }
    }
}

/// The Pathfinder backend renders exactly the rect, strokes, polyline, SVG and
/// clip scenes, and cannot render the gradient shape numbered 2 of the rect
/// scene.
pub proof fn law_pathfinder_profile(s: SceneId, p: ParamId, v: u32)
    ensures
        kind_profile(BackendKind::Pathfinder).supports_scene(s) <==> (s != SceneId::Text && s
            != SceneId::FilterLayers),
        kind_profile(BackendKind::Pathfinder).supports_param_value(s, p, v) <==> !(s
            == SceneId::Rect && p == ParamId::GradientShape && v == 2),
{
    let scenes = vector_backend_scenes();
    if s != SceneId::Text && s != SceneId::FilterLayers {
        let i: int = if s == SceneId::Rect {
            0
        } else if s == SceneId::Strokes {
            1
        } else if s == SceneId::Polyline {
            2
        } else if s == SceneId::Svg {
            3
        } else {
            4
        };
        assert(scenes[i] == s);
    }
    let u = seq![(SceneId::Rect, ParamId::GradientShape, 2u32)];
    if s == SceneId::Rect && p == ParamId::GradientShape && v == 2 {
        assert(u[0] == (s, p, v));
    }
}

proof fn lemma_vector_scene_params(s: SceneId, p: ParamId, rect: Seq<ParamId>)
    ensures
        (CapabilityView::none().allow_scenes(vector_backend_scenes()).allow_params(
            SceneId::Rect,
            rect,
        ).allow_params(SceneId::Strokes, stroke_params()).allow_params(
            SceneId::Polyline,
            seq![ParamId::NumVertices],
        ).allow_params(SceneId::Svg, seq![ParamId::SvgAsset]).allow_params(
            SceneId::Clip,
            clip_params(),
        )).supports_param(s, p) <==> {
            ||| s == SceneId::Rect && rect.contains(p)
            ||| s == SceneId::Strokes && (p == ParamId::NumStrokes || p == ParamId::CurveType || p
                == ParamId::Segments || p == ParamId::StrokeWidth || p == ParamId::Cap)
            ||| s == SceneId::Polyline && p == ParamId::NumVertices
            ||| s == SceneId::Svg && p == ParamId::SvgAsset
            ||| s == SceneId::Clip && (p == ParamId::NumRects || p == ParamId::RectSize || p
                == ParamId::ClipMode || p == ParamId::ClipMethod)
        },
{
    let strokes = stroke_params();
    let clip = clip_params();
    let poly = seq![ParamId::NumVertices];
    let svg = seq![ParamId::SvgAsset];
    if s == SceneId::Strokes && (p == ParamId::NumStrokes || p == ParamId::CurveType || p
        == ParamId::Segments || p == ParamId::StrokeWidth || p == ParamId::Cap) {
        let i: int = if p == ParamId::NumStrokes { 0 } else if p == ParamId::CurveType { 1 } else if p == ParamId::Segments { 2 } else if p == ParamId::StrokeWidth { 3 } else { 4 };
        assert(strokes[i] == p);
    }
    if s == SceneId::Polyline && p == ParamId::NumVertices {
        assert(poly[0] == p);
    }
    if s == SceneId::Svg && p == ParamId::SvgAsset {
        assert(svg[0] == p);
    }
    if s == SceneId::Clip && (p == ParamId::NumRects || p == ParamId::RectSize || p
        == ParamId::ClipMode || p == ParamId::ClipMethod) {
        let i: int = if p == ParamId::NumRects { 0 } else if p == ParamId::RectSize { 1 } else if p == ParamId::ClipMode { 2 } else { 3 };
        assert(clip[i] == p);
    }
}

/// The Pathfinder backend honours exactly these parameters: on the rect
/// scene the rect count, paint mode, rect size, rotation, image filter,
/// image opacity, image-drawing call, gradient shape and dynamic gradient;
/// on the strokes scene the stroke count, curve type, segments, stroke
/// width and cap; the polyline's vertex count; the SVG asset; and on the
/// clip scene the rect count, rect size, clip mode and clip method.
pub proof fn law_pathfinder_params(s: SceneId, p: ParamId)
    ensures
        kind_profile(BackendKind::Pathfinder).supports_param(s, p) <==> {
            ||| s == SceneId::Rect && (p == ParamId::NumRects || p == ParamId::PaintMode || p
                == ParamId::RectSize || p == ParamId::Rotated || p == ParamId::ImageFilter || p
                == ParamId::ImageOpaque || p == ParamId::UseDrawImage || p == ParamId::GradientShape
                || p == ParamId::DynamicGradient)
            ||| s == SceneId::Strokes && (p == ParamId::NumStrokes || p == ParamId::CurveType || p
                == ParamId::Segments || p == ParamId::StrokeWidth || p == ParamId::Cap)
            ||| s == SceneId::Polyline && p == ParamId::NumVertices
            ||| s == SceneId::Svg && p == ParamId::SvgAsset
            ||| s == SceneId::Clip && (p == ParamId::NumRects || p == ParamId::RectSize || p
                == ParamId::ClipMode || p == ParamId::ClipMethod)
        },
{
    let rect = pathfinder_rect_params();
    lemma_vector_scene_params(s, p, rect);
    if p == ParamId::NumRects || p == ParamId::PaintMode || p == ParamId::RectSize || p
        == ParamId::Rotated || p == ParamId::ImageFilter || p == ParamId::ImageOpaque || p
        == ParamId::UseDrawImage || p == ParamId::GradientShape || p == ParamId::DynamicGradient {
        let i: int = if p == ParamId::NumRects { 0 } else if p == ParamId::PaintMode { 1 } else if p == ParamId::RectSize { 2 } else if p == ParamId::Rotated { 3 } else if p == ParamId::ImageFilter { 4 } else if p == ParamId::ImageOpaque { 5 } else if p == ParamId::UseDrawImage { 6 } else if p == ParamId::GradientShape { 7 } else { 8 };
        assert(rect[i] == p);
    }
}

/// The Canvas 2D backend honours the same parameters as Pathfinder but for
/// the image ones: on the rect scene only the rect count, paint mode, rect
/// size, rotation, gradient shape and dynamic gradient; and it renders
/// neither paint mode 2 nor gradient shape 2 of the rect scene.
pub proof fn law_canvas2d_params(s: SceneId, p: ParamId, v: u32)
    ensures
        kind_profile(BackendKind::Canvas2d).supports_param(s, p) <==> {
            ||| s == SceneId::Rect && (p == ParamId::NumRects || p == ParamId::PaintMode || p
                == ParamId::RectSize || p == ParamId::Rotated || p == ParamId::GradientShape || p
                == ParamId::DynamicGradient)
            ||| s == SceneId::Strokes && (p == ParamId::NumStrokes || p == ParamId::CurveType || p
                == ParamId::Segments || p == ParamId::StrokeWidth || p == ParamId::Cap)
            ||| s == SceneId::Polyline && p == ParamId::NumVertices
            ||| s == SceneId::Svg && p == ParamId::SvgAsset
            ||| s == SceneId::Clip && (p == ParamId::NumRects || p == ParamId::RectSize || p
                == ParamId::ClipMode || p == ParamId::ClipMethod)
        },
        kind_profile(BackendKind::Canvas2d).supports_param_value(s, p, v) <==> !(s == SceneId::Rect
            && (p == ParamId::PaintMode || p == ParamId::GradientShape) && v == 2),
        kind_profile(BackendKind::Canvas2d).supports_scene(s) <==> (s != SceneId::Text && s
            != SceneId::FilterLayers),
{
    let rect = canvas2d_rect_params();
    lemma_vector_scene_params(s, p, rect);
    if p == ParamId::NumRects || p == ParamId::PaintMode || p == ParamId::RectSize || p
        == ParamId::Rotated || p == ParamId::GradientShape || p == ParamId::DynamicGradient {
        let i: int = if p == ParamId::NumRects { 0 } else if p == ParamId::PaintMode { 1 } else if p == ParamId::RectSize { 2 } else if p == ParamId::Rotated { 3 } else if p == ParamId::GradientShape { 4 } else { 5 };
        assert(rect[i] == p);
    }
    let u = seq![
        (SceneId::Rect, ParamId::PaintMode, 2u32),
        (SceneId::Rect, ParamId::GradientShape, 2u32),
    ];
    if s == SceneId::Rect && p == ParamId::PaintMode && v == 2 {
        assert(u[0] == (s, p, v));
    }
    if s == SceneId::Rect && p == ParamId::GradientShape && v == 2 {
        assert(u[1] == (s, p, v));
    }
    let scenes = vector_backend_scenes();
    if s != SceneId::Text && s != SceneId::FilterLayers {
        let i: int = if s == SceneId::Rect { 0 } else if s == SceneId::Strokes { 1 } else if s == SceneId::Polyline { 2 } else if s == SceneId::Svg { 3 } else { 4 };
        assert(scenes[i] == s);
    }
}

} // verus!
