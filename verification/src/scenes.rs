//! Identifiers of the benchmark scenes and of their tweakable parameters.

use vstd::prelude::*;

verus! {

/// Number of benchmark scenes.
pub const SCENE_COUNT: usize = 7;

/// Mask with one bit set for every scene.
pub const SCENE_ALL_MASK: u32 = 0x7f;

/// Number of scene parameters.
pub const PARAM_COUNT: usize = 28;

/// Mask with one bit set for every parameter.
pub const PARAM_ALL_MASK: u64 = 0xfff_ffff;

/// Stable identifier of a benchmark scene.
#[derive(Debug, Clone, Copy, PartialEq, Eq, Hash, Structural)]
pub enum SceneId {
    Rect,
    Strokes,
    Polyline,
    Svg,
    Clip,
    Text,
    FilterLayers,
}

/// Stable identifier of a scene parameter.
#[derive(Debug, Clone, Copy, PartialEq, Eq, Hash, Structural)]
pub enum ParamId {
    NumRects,
    PaintMode,
    RectSize,
    Rotated,
    GradientShape,
    DynamicGradient,
    ImageFilter,
    ImageOpaque,
    UseDrawImage,
    NumStrokes,
    CurveType,
    Segments,
    StrokeWidth,
    Cap,
    NumVertices,
    SvgAsset,
    ClipMode,
    ClipMethod,
    NumRuns,
    FontSize,
    FilterKind,
    Speed,
    BlurStdDeviation,
    ShadowDx,
    ShadowDy,
    ShadowAlpha,
    Opaque,
    TargetOverlap,
}

/// Position of a scene in the canonical scene order.
pub open spec fn scene_ordinal(s: SceneId) -> nat {
    match s {
        SceneId::Rect => 0,
        SceneId::Strokes => 1,
        SceneId::Polyline => 2,
        SceneId::Svg => 3,
        SceneId::Clip => 4,
        SceneId::Text => 5,
        SceneId::FilterLayers => 6,
    }
}

/// The scene at a position of the canonical scene order.
pub open spec fn scene_at(i: nat) -> SceneId {
    if i == 0 {
        SceneId::Rect
    } else if i == 1 {
        SceneId::Strokes
    } else if i == 2 {
        SceneId::Polyline
    } else if i == 3 {
        SceneId::Svg
    } else if i == 4 {
        SceneId::Clip
    } else if i == 5 {
        SceneId::Text
    } else {
        SceneId::FilterLayers
    }
}

/// Position of a parameter in the canonical parameter order.
pub open spec fn param_ordinal(p: ParamId) -> nat {
    match p {
        ParamId::NumRects => 0,
        ParamId::PaintMode => 1,
        ParamId::RectSize => 2,
        ParamId::Rotated => 3,
        ParamId::GradientShape => 4,
        ParamId::DynamicGradient => 5,
        ParamId::ImageFilter => 6,
        ParamId::ImageOpaque => 7,
        ParamId::UseDrawImage => 8,
        ParamId::NumStrokes => 9,
        ParamId::CurveType => 10,
        ParamId::Segments => 11,
        ParamId::StrokeWidth => 12,
        ParamId::Cap => 13,
        ParamId::NumVertices => 14,
        ParamId::SvgAsset => 15,
        ParamId::ClipMode => 16,
        ParamId::ClipMethod => 17,
        ParamId::NumRuns => 18,
        ParamId::FontSize => 19,
        ParamId::FilterKind => 20,
        ParamId::Speed => 21,
        ParamId::BlurStdDeviation => 22,
        ParamId::ShadowDx => 23,
        ParamId::ShadowDy => 24,
        ParamId::ShadowAlpha => 25,
        ParamId::Opaque => 26,
        ParamId::TargetOverlap => 27,
    }
}

/// The single bit that stands for a scene in a scene mask.
pub open spec fn scene_bit(s: SceneId) -> u32 {
    1u32 << (scene_ordinal(s) as u32)
}

/// The single bit that stands for a parameter in a parameter mask.
pub open spec fn param_bit(p: ParamId) -> u64 {
    1u64 << (param_ordinal(p) as u64)
}

/// The key under which a parameter is saved and shown.
pub open spec fn param_name(p: ParamId) -> Seq<char> {
    match p {
        ParamId::NumRects => "num_rects"@,
        ParamId::PaintMode => "paint_mode"@,
        ParamId::RectSize => "rect_size"@,
        ParamId::Rotated => "rotated"@,
        ParamId::GradientShape => "gradient_shape"@,
        ParamId::DynamicGradient => "dynamic_gradient"@,
        ParamId::ImageFilter => "image_filter"@,
        ParamId::ImageOpaque => "image_opaque"@,
        ParamId::UseDrawImage => "use_draw_image"@,
        ParamId::NumStrokes => "num_strokes"@,
        ParamId::CurveType => "curve_type"@,
        ParamId::Segments => "segments"@,
        ParamId::StrokeWidth => "stroke_width"@,
        ParamId::Cap => "cap"@,
        ParamId::NumVertices => "num_vertices"@,
        ParamId::SvgAsset => "svg_asset"@,
        ParamId::ClipMode => "clip_mode"@,
        ParamId::ClipMethod => "clip_method"@,
        ParamId::NumRuns => "num_runs"@,
        ParamId::FontSize => "font_size"@,
        ParamId::FilterKind => "filter_kind"@,
        ParamId::Speed => "speed"@,
        ParamId::BlurStdDeviation => "blur_std_deviation"@,
        ParamId::ShadowDx => "shadow_dx"@,
        ParamId::ShadowDy => "shadow_dy"@,
        ParamId::ShadowAlpha => "shadow_alpha"@,
        ParamId::Opaque => "opaque"@,
        ParamId::TargetOverlap => "target_overlap"@,
    }
}

impl SceneId {
    /// Position of this scene in the canonical order.
    pub fn index(self) -> (i: usize)
        ensures
            i == scene_ordinal(self),
            i < SCENE_COUNT,
    {
        match self {
            SceneId::Rect => 0,
            SceneId::Strokes => 1,
            SceneId::Polyline => 2,
            SceneId::Svg => 3,
            SceneId::Clip => 4,
            SceneId::Text => 5,
            SceneId::FilterLayers => 6,
        }
    }

    /// The bit of this scene in a scene mask.
    pub fn bit(self) -> (b: u32)
        ensures
            b == scene_bit(self),
    {
        let i = self.index();
        1u32 << (i as u32)
    }
}

impl ParamId {
    /// Position of this parameter in the canonical order.
    pub fn index(self) -> (i: usize)
        ensures
            i == param_ordinal(self),
            i < PARAM_COUNT,
    {
        match self {
            ParamId::NumRects => 0,
            ParamId::PaintMode => 1,
            ParamId::RectSize => 2,
            ParamId::Rotated => 3,
            ParamId::GradientShape => 4,
            ParamId::DynamicGradient => 5,
            ParamId::ImageFilter => 6,
            ParamId::ImageOpaque => 7,
            ParamId::UseDrawImage => 8,
            ParamId::NumStrokes => 9,
            ParamId::CurveType => 10,
            ParamId::Segments => 11,
            ParamId::StrokeWidth => 12,
            ParamId::Cap => 13,
            ParamId::NumVertices => 14,
            ParamId::SvgAsset => 15,
            ParamId::ClipMode => 16,
            ParamId::ClipMethod => 17,
            ParamId::NumRuns => 18,
            ParamId::FontSize => 19,
            ParamId::FilterKind => 20,
            ParamId::Speed => 21,
            ParamId::BlurStdDeviation => 22,
            ParamId::ShadowDx => 23,
            ParamId::ShadowDy => 24,
            ParamId::ShadowAlpha => 25,
            ParamId::Opaque => 26,
            ParamId::TargetOverlap => 27,
        }
    }

    /// The bit of this parameter in a parameter mask.
    pub fn bit(self) -> (b: u64)
        ensures
            b == param_bit(self),
    {
        let i = self.index();
        1u64 << (i as u64)
    }

    /// The key under which this parameter is saved and shown.
    pub fn as_str(self) -> (s: &'static str)
        ensures
            s@ == param_name(self),
    {
        match self {
            ParamId::NumRects => "num_rects",
            ParamId::PaintMode => "paint_mode",
            ParamId::RectSize => "rect_size",
            ParamId::Rotated => "rotated",
            ParamId::GradientShape => "gradient_shape",
            ParamId::DynamicGradient => "dynamic_gradient",
            ParamId::ImageFilter => "image_filter",
            ParamId::ImageOpaque => "image_opaque",
            ParamId::UseDrawImage => "use_draw_image",
            ParamId::NumStrokes => "num_strokes",
            ParamId::CurveType => "curve_type",
            ParamId::Segments => "segments",
            ParamId::StrokeWidth => "stroke_width",
            ParamId::Cap => "cap",
            ParamId::NumVertices => "num_vertices",
            ParamId::SvgAsset => "svg_asset",
            ParamId::ClipMode => "clip_mode",
            ParamId::ClipMethod => "clip_method",
            ParamId::NumRuns => "num_runs",
            ParamId::FontSize => "font_size",
            ParamId::FilterKind => "filter_kind",
            ParamId::Speed => "speed",
            ParamId::BlurStdDeviation => "blur_std_deviation",
            ParamId::ShadowDx => "shadow_dx",
            ParamId::ShadowDy => "shadow_dy",
            ParamId::ShadowAlpha => "shadow_alpha",
            ParamId::Opaque => "opaque",
            ParamId::TargetOverlap => "target_overlap",
        }
    }
}

/// Position of a scene in the list of all scenes.
pub fn scene_index(scene_id: SceneId) -> (i: usize)
    ensures
        i == scene_ordinal(scene_id),
        i < SCENE_COUNT,
{
    match scene_id {
        SceneId::Rect => 0,
        SceneId::Strokes => 1,
        SceneId::Polyline => 2,
        SceneId::Svg => 3,
        SceneId::Clip => 4,
        SceneId::Text => 5,
        SceneId::FilterLayers => 6,
    }
}


/// Points that one segment of a stroke adds: one for a line, two for a
/// quadratic curve, three for a cubic curve; unknown curve types draw lines.
pub open spec fn segment_points(curve_type: u32) -> usize {
    if curve_type == 1 {
        2
    } else if curve_type == 2 {
        3
    } else {
        1
    }
}

/// How many new points each segment of a stroke adds for a curve type.
pub fn points_per_segment(curve_type: u32) -> (n: usize)
    ensures
        n == segment_points(curve_type),
{
    match curve_type {
        1 => 2,
        2 => 3,
        _ => 1,
    }
}

/// Different scenes sit at different positions of the scene order, and every
/// position below the scene count holds the scene that sits there.
pub proof fn law_scene_order_is_a_bijection(a: SceneId, b: SceneId, i: nat)
    ensures
        scene_ordinal(a) == scene_ordinal(b) ==> a == b,
        scene_ordinal(a) < SCENE_COUNT,
        scene_at(scene_ordinal(a)) == a,
        i < SCENE_COUNT ==> scene_ordinal(scene_at(i)) == i,
{
}

/// Different parameters sit at different positions of the parameter order.
pub proof fn law_param_order_is_injective(a: ParamId, b: ParamId)
    ensures
        param_ordinal(a) == param_ordinal(b) ==> a == b,
        param_ordinal(a) < PARAM_COUNT,
{
}

proof fn lemma_single_bits_u32(i: u32, j: u32)
    by (bit_vector)
    requires
        i < 32,
        j < 32,
    ensures
        ((1u32 << i) & (1u32 << j)) != 0 <==> i == j,
{
}

proof fn lemma_single_bits_u64(i: u64, j: u64)
    by (bit_vector)
    requires
        i < 64,
        j < 64,
    ensures
        ((1u64 << i) & (1u64 << j)) != 0 <==> i == j,
{
}

/// The bits of two scenes overlap exactly when the scenes are the same, and
/// every scene bit lies inside the all-scenes mask; likewise for parameters.
pub proof fn law_bits_are_distinct(s: SceneId, t: SceneId, p: ParamId, q: ParamId)
    ensures
        (scene_bit(s) & scene_bit(t)) != 0 <==> s == t,
        (param_bit(p) & param_bit(q)) != 0 <==> p == q,
        scene_bit(s) & SCENE_ALL_MASK == scene_bit(s),
        param_bit(p) & PARAM_ALL_MASK == param_bit(p),
{
    lemma_single_bits_u32(scene_ordinal(s) as u32, scene_ordinal(t) as u32);
    lemma_single_bits_u64(param_ordinal(p) as u64, param_ordinal(q) as u64);
    lemma_bit_in_all_u32(scene_ordinal(s) as u32);
    lemma_bit_in_all_u64(param_ordinal(p) as u64);
}

proof fn lemma_bit_in_all_u32(i: u32)
    by (bit_vector)
    requires
        i < 7,
    ensures
        (1u32 << i) & 0x7fu32 == (1u32 << i),
{
}

proof fn lemma_bit_in_all_u64(i: u64)
    by (bit_vector)
    requires
        i < 28,
    ensures
        (1u64 << i) & 0xfff_ffffu64 == (1u64 << i),
{
}

/// Length, first and last character of a key.
spec fn name_key(s: Seq<char>) -> (nat, char, char) {
    (s.len(), s[0], s[s.len() - 1])
}

spec fn param_name_key(p: ParamId) -> (nat, char, char) {
    match p {
        ParamId::NumRects => (9nat, 'n', 's'),
        ParamId::PaintMode => (10nat, 'p', 'e'),
        ParamId::RectSize => (9nat, 'r', 'e'),
        ParamId::Rotated => (7nat, 'r', 'd'),
        ParamId::GradientShape => (14nat, 'g', 'e'),
        ParamId::DynamicGradient => (16nat, 'd', 't'),
        ParamId::ImageFilter => (12nat, 'i', 'r'),
        ParamId::ImageOpaque => (12nat, 'i', 'e'),
        ParamId::UseDrawImage => (14nat, 'u', 'e'),
        ParamId::NumStrokes => (11nat, 'n', 's'),
        ParamId::CurveType => (10nat, 'c', 'e'),
        ParamId::Segments => (8nat, 's', 's'),
        ParamId::StrokeWidth => (12nat, 's', 'h'),
        ParamId::Cap => (3nat, 'c', 'p'),
        ParamId::NumVertices => (12nat, 'n', 's'),
        ParamId::SvgAsset => (9nat, 's', 't'),
        ParamId::ClipMode => (9nat, 'c', 'e'),
        ParamId::ClipMethod => (11nat, 'c', 'd'),
        ParamId::NumRuns => (8nat, 'n', 's'),
        ParamId::FontSize => (9nat, 'f', 'e'),
        ParamId::FilterKind => (11nat, 'f', 'd'),
        ParamId::Speed => (5nat, 's', 'd'),
        ParamId::BlurStdDeviation => (18nat, 'b', 'n'),
        ParamId::ShadowDx => (9nat, 's', 'x'),
        ParamId::ShadowDy => (9nat, 's', 'y'),
        ParamId::ShadowAlpha => (12nat, 's', 'a'),
        ParamId::Opaque => (6nat, 'o', 'e'),
        ParamId::TargetOverlap => (14nat, 't', 'p'),
    }
}

proof fn lemma_param_name_key(p: ParamId)
    ensures
        name_key(param_name(p)) == param_name_key(p),
{
    match p {
        ParamId::NumRects => {
            reveal_strlit("num_rects");
        },
        ParamId::PaintMode => {
            reveal_strlit("paint_mode");
        },
        ParamId::RectSize => {
            reveal_strlit("rect_size");
        },
        ParamId::Rotated => {
            reveal_strlit("rotated");
        },
        ParamId::GradientShape => {
            reveal_strlit("gradient_shape");
        },
        ParamId::DynamicGradient => {
            reveal_strlit("dynamic_gradient");
        },
        ParamId::ImageFilter => {
            reveal_strlit("image_filter");
        },
        ParamId::ImageOpaque => {
            reveal_strlit("image_opaque");
        },
        ParamId::UseDrawImage => {
            reveal_strlit("use_draw_image");
        },
        ParamId::NumStrokes => {
            reveal_strlit("num_strokes");
        },
        ParamId::CurveType => {
            reveal_strlit("curve_type");
        },
        ParamId::Segments => {
            reveal_strlit("segments");
        },
        ParamId::StrokeWidth => {
            reveal_strlit("stroke_width");
        },
        ParamId::Cap => {
            reveal_strlit("cap");
        },
        ParamId::NumVertices => {
            reveal_strlit("num_vertices");
        },
        ParamId::SvgAsset => {
            reveal_strlit("svg_asset");
        },
        ParamId::ClipMode => {
            reveal_strlit("clip_mode");
        },
        ParamId::ClipMethod => {
            reveal_strlit("clip_method");
        },
        ParamId::NumRuns => {
            reveal_strlit("num_runs");
        },
        ParamId::FontSize => {
            reveal_strlit("font_size");
        },
        ParamId::FilterKind => {
            reveal_strlit("filter_kind");
        },
        ParamId::Speed => {
            reveal_strlit("speed");
        },
        ParamId::BlurStdDeviation => {
            reveal_strlit("blur_std_deviation");
        },
        ParamId::ShadowDx => {
            reveal_strlit("shadow_dx");
        },
        ParamId::ShadowDy => {
            reveal_strlit("shadow_dy");
        },
        ParamId::ShadowAlpha => {
            reveal_strlit("shadow_alpha");
        },
        ParamId::Opaque => {
            reveal_strlit("opaque");
        },
        ParamId::TargetOverlap => {
            reveal_strlit("target_overlap");
        },
    }
}

/// No two parameters share a key, so a saved key names one parameter.
pub proof fn law_param_names_are_unique(a: ParamId, b: ParamId)
    ensures
        param_name(a) == param_name(b) ==> a == b,
{
    lemma_param_name_key(a);
    lemma_param_name_key(b);
}

} // verus!
