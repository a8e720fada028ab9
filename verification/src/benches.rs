//! The predefined benchmarks and whether a backend can run them.

use vstd::prelude::*;

use crate::backend::{kind_profile, BackendCapabilities};
use crate::scenes::{scene_index, scene_ordinal, ParamId, SceneId};

verus! {

/// Number of predefined benchmarks.
pub const BENCH_COUNT: usize = 40;

/// The count parameter of a benchmark that the preset scales, with the
/// value it was calibrated at.
#[derive(Debug, Clone, Copy, PartialEq, Eq, Structural)]
pub struct BenchScale {
    pub param: ParamId,
    pub calibrated_value: usize,
}

/// A predefined benchmark with fixed parameters.
#[derive(Debug)]
pub struct BenchDef {
    /// Display name.
    pub name: &'static str,
    /// What the benchmark tests.
    pub description: &'static str,
    /// Group shown in the UI.
    pub category: &'static str,
    /// The scene it renders.
    pub scene_id: SceneId,
    /// The count parameter scaled by the preset, if any.
    pub scale: Option<BenchScale>,
    /// Parameter settings; every value is a whole number.
    pub params: Vec<(ParamId, u32)>,
}

/// A benchmark definition as a mathematical value.
pub struct BenchDefView {
    pub name: Seq<char>,
    pub description: Seq<char>,
    pub category: Seq<char>,
    pub scene_id: SceneId,
    pub scale: Option<BenchScale>,
    pub params: Seq<(ParamId, u32)>,
}

impl View for BenchDef {
    type V = BenchDefView;

    open spec fn view(&self) -> BenchDefView {
        BenchDefView {
            name: self.name@,
            description: self.description@,
            category: self.category@,
            scene_id: self.scene_id,
            scale: self.scale,
            params: self.params@,
        }
    }
}

/// The predefined benchmark at position `i`.
pub open spec fn bench_def(i: int) -> BenchDefView {
    if i == 0 {
        BenchDefView {
            name: "Rect - 5×5 - Solid"@,
            description: "rendering small semi-transparent rectangles"@,
            category: "Rects (alpha)"@,
            scene_id: SceneId::Rect,
            scale: Some(BenchScale { param: ParamId::NumRects, calibrated_value: 600000 }),
            params: seq![(ParamId::NumRects, 600000u32), (ParamId::RectSize, 5u32), (ParamId::PaintMode, 0u32), (ParamId::Rotated, 0u32), (ParamId::Opaque, 0u32)],
        }
    } else if i == 1 {
        BenchDefView {
            name: "Rect - 50×50 - Solid"@,
            description: "rendering medium semi-transparent rectangles"@,
            category: "Rects (alpha)"@,
            scene_id: SceneId::Rect,
            scale: Some(BenchScale { param: ParamId::NumRects, calibrated_value: 380000 }),
            params: seq![(ParamId::NumRects, 380000u32), (ParamId::RectSize, 50u32), (ParamId::PaintMode, 0u32), (ParamId::Rotated, 0u32), (ParamId::Opaque, 0u32)],
        }
    } else if i == 2 {
        BenchDefView {
            name: "Rect - 200×200 - Solid"@,
            description: "rendering large semi-transparent rectangles"@,
            category: "Rects (alpha)"@,
            scene_id: SceneId::Rect,
            scale: Some(BenchScale { param: ParamId::NumRects, calibrated_value: 53000 }),
            params: seq![(ParamId::NumRects, 53000u32), (ParamId::RectSize, 200u32), (ParamId::PaintMode, 0u32), (ParamId::Rotated, 0u32), (ParamId::Opaque, 0u32)],
        }
    } else if i == 3 {
        BenchDefView {
            name: "Rect - 2x Overlap"@,
            description: "alpha rects, ~2x avg per-pixel overlap — rect size adapts to viewport"@,
            category: "Rects (alpha, low overdraw)"@,
            scene_id: SceneId::Rect,
            scale: Some(BenchScale { param: ParamId::NumRects, calibrated_value: 380000 }),
            params: seq![(ParamId::NumRects, 380000u32), (ParamId::PaintMode, 0u32), (ParamId::Rotated, 0u32), (ParamId::Opaque, 0u32), (ParamId::TargetOverlap, 2u32)],
        }
    } else if i == 4 {
        BenchDefView {
            name: "Rect - 4x Overlap"@,
            description: "alpha rects, ~4x avg per-pixel overlap — rect size adapts to viewport"@,
            category: "Rects (alpha, low overdraw)"@,
            scene_id: SceneId::Rect,
            scale: Some(BenchScale { param: ParamId::NumRects, calibrated_value: 380000 }),
            params: seq![(ParamId::NumRects, 380000u32), (ParamId::PaintMode, 0u32), (ParamId::Rotated, 0u32), (ParamId::Opaque, 0u32), (ParamId::TargetOverlap, 4u32)],
        }
    } else if i == 5 {
        BenchDefView {
            name: "Rect - 5×5 - Solid (opaque)"@,
            description: "rendering small fully opaque rectangles"@,
            category: "Rects (opaque)"@,
            scene_id: SceneId::Rect,
            scale: Some(BenchScale { param: ParamId::NumRects, calibrated_value: 600000 }),
            params: seq![(ParamId::NumRects, 600000u32), (ParamId::RectSize, 5u32), (ParamId::PaintMode, 0u32), (ParamId::Rotated, 0u32), (ParamId::Opaque, 1u32)],
        }
    } else if i == 6 {
        BenchDefView {
            name: "Rect - 50×50 - Solid (opaque)"@,
            description: "rendering medium fully opaque rectangles"@,
            category: "Rects (opaque)"@,
            scene_id: SceneId::Rect,
            scale: Some(BenchScale { param: ParamId::NumRects, calibrated_value: 380000 }),
            params: seq![(ParamId::NumRects, 380000u32), (ParamId::RectSize, 50u32), (ParamId::PaintMode, 0u32), (ParamId::Rotated, 0u32), (ParamId::Opaque, 1u32)],
        }
    } else if i == 7 {
        BenchDefView {
            name: "Rect - 200×200 - Solid (opaque)"@,
            description: "rendering large fully opaque rectangles"@,
            category: "Rects (opaque)"@,
            scene_id: SceneId::Rect,
            scale: Some(BenchScale { param: ParamId::NumRects, calibrated_value: 53000 }),
            params: seq![(ParamId::NumRects, 53000u32), (ParamId::RectSize, 200u32), (ParamId::PaintMode, 0u32), (ParamId::Rotated, 0u32), (ParamId::Opaque, 1u32)],
        }
    } else if i == 8 {
        BenchDefView {
            name: "Rect - 200×200 - Image - Nearest"@,
            description: "rendering transparent images with NN sampling"@,
            category: "Images (alpha)"@,
            scene_id: SceneId::Rect,
            scale: Some(BenchScale { param: ParamId::NumRects, calibrated_value: 30000 }),
            params: seq![(ParamId::NumRects, 30000u32), (ParamId::RectSize, 200u32), (ParamId::PaintMode, 2u32), (ParamId::Rotated, 0u32), (ParamId::ImageFilter, 0u32), (ParamId::ImageOpaque, 0u32)],
        }
    } else if i == 9 {
        BenchDefView {
            name: "Rect - 200×200 - Image - Bilinear"@,
            description: "rendering transparent images with bilinear sampling"@,
            category: "Images (alpha)"@,
            scene_id: SceneId::Rect,
            scale: Some(BenchScale { param: ParamId::NumRects, calibrated_value: 24000 }),
            params: seq![(ParamId::NumRects, 24000u32), (ParamId::RectSize, 200u32), (ParamId::PaintMode, 2u32), (ParamId::Rotated, 0u32), (ParamId::ImageFilter, 1u32), (ParamId::ImageOpaque, 0u32)],
        }
    } else if i == 10 {
        BenchDefView {
            name: "Image - 2x Overlap - Nearest"@,
            description: "alpha images, ~2x avg overlap, NN sampling — rect size adapts to viewport"@,
            category: "Images (alpha, low overdraw)"@,
            scene_id: SceneId::Rect,
            scale: Some(BenchScale { param: ParamId::NumRects, calibrated_value: 30000 }),
            params: seq![(ParamId::NumRects, 30000u32), (ParamId::PaintMode, 2u32), (ParamId::Rotated, 0u32), (ParamId::ImageFilter, 0u32), (ParamId::ImageOpaque, 0u32), (ParamId::TargetOverlap, 2u32)],
        }
    } else if i == 11 {
        BenchDefView {
            name: "Image - 4x Overlap - Nearest"@,
            description: "alpha images, ~4x avg overlap, NN sampling — rect size adapts to viewport"@,
            category: "Images (alpha, low overdraw)"@,
            scene_id: SceneId::Rect,
            scale: Some(BenchScale { param: ParamId::NumRects, calibrated_value: 30000 }),
            params: seq![(ParamId::NumRects, 30000u32), (ParamId::PaintMode, 2u32), (ParamId::Rotated, 0u32), (ParamId::ImageFilter, 0u32), (ParamId::ImageOpaque, 0u32), (ParamId::TargetOverlap, 4u32)],
        }
    } else if i == 12 {
        BenchDefView {
            name: "Rect - 200×200 - Opaque Image - Nearest"@,
            description: "rendering opaque images with NN sampling"@,
            category: "Images (opaque)"@,
            scene_id: SceneId::Rect,
            scale: Some(BenchScale { param: ParamId::NumRects, calibrated_value: 31000 }),
            params: seq![(ParamId::NumRects, 31000u32), (ParamId::RectSize, 200u32), (ParamId::PaintMode, 2u32), (ParamId::Rotated, 0u32), (ParamId::ImageFilter, 0u32), (ParamId::ImageOpaque, 1u32)],
        }
    } else if i == 13 {
        BenchDefView {
            name: "Rect - 200×200 - Opaque Image - Bilinear"@,
            description: "rendering opaque images with bilinear sampling"@,
            category: "Images (opaque)"@,
            scene_id: SceneId::Rect,
            scale: Some(BenchScale { param: ParamId::NumRects, calibrated_value: 24000 }),
            params: seq![(ParamId::NumRects, 24000u32), (ParamId::RectSize, 200u32), (ParamId::PaintMode, 2u32), (ParamId::Rotated, 0u32), (ParamId::ImageFilter, 1u32), (ParamId::ImageOpaque, 1u32)],
        }
    } else if i == 14 {
        BenchDefView {
            name: "Stroked Lines - 3px"@,
            description: "rendering semi-transparent lines with small stroke width"@,
            category: "Strokes (alpha)"@,
            scene_id: SceneId::Strokes,
            scale: Some(BenchScale { param: ParamId::NumStrokes, calibrated_value: 18500 }),
            params: seq![(ParamId::NumStrokes, 18500u32), (ParamId::CurveType, 0u32), (ParamId::StrokeWidth, 3u32), (ParamId::Opaque, 0u32)],
        }
    } else if i == 15 {
        BenchDefView {
            name: "Stroked Lines - 20px"@,
            description: "rendering semi-transparent lines with large stroke width"@,
            category: "Strokes (alpha)"@,
            scene_id: SceneId::Strokes,
            scale: Some(BenchScale { param: ParamId::NumStrokes, calibrated_value: 13200 }),
            params: seq![(ParamId::NumStrokes, 13200u32), (ParamId::CurveType, 0u32), (ParamId::StrokeWidth, 20u32), (ParamId::Opaque, 0u32)],
        }
    } else if i == 16 {
        BenchDefView {
            name: "Stroked Quads - 3px"@,
            description: "rendering semi-transparent quads with small stroke width"@,
            category: "Strokes (alpha)"@,
            scene_id: SceneId::Strokes,
            scale: Some(BenchScale { param: ParamId::NumStrokes, calibrated_value: 6900 }),
            params: seq![(ParamId::NumStrokes, 6900u32), (ParamId::CurveType, 1u32), (ParamId::StrokeWidth, 3u32), (ParamId::Opaque, 0u32)],
        }
    } else if i == 17 {
        BenchDefView {
            name: "Stroked Quads - 20px"@,
            description: "rendering semi-transparent quads with large stroke width"@,
            category: "Strokes (alpha)"@,
            scene_id: SceneId::Strokes,
            scale: Some(BenchScale { param: ParamId::NumStrokes, calibrated_value: 5100 }),
            params: seq![(ParamId::NumStrokes, 5100u32), (ParamId::CurveType, 1u32), (ParamId::StrokeWidth, 20u32), (ParamId::Opaque, 0u32)],
        }
    } else if i == 18 {
        BenchDefView {
            name: "Stroked Cubics - 3px"@,
            description: "rendering semi-transparent cubics with small stroke width"@,
            category: "Strokes (alpha)"@,
            scene_id: SceneId::Strokes,
            scale: Some(BenchScale { param: ParamId::NumStrokes, calibrated_value: 5000 }),
            params: seq![(ParamId::NumStrokes, 5000u32), (ParamId::CurveType, 2u32), (ParamId::StrokeWidth, 3u32), (ParamId::Opaque, 0u32)],
        }
    } else if i == 19 {
        BenchDefView {
            name: "Stroked Cubics - 20px"@,
            description: "rendering semi-transparent cubics with large stroke width"@,
            category: "Strokes (alpha)"@,
            scene_id: SceneId::Strokes,
            scale: Some(BenchScale { param: ParamId::NumStrokes, calibrated_value: 3500 }),
            params: seq![(ParamId::NumStrokes, 3500u32), (ParamId::CurveType, 2u32), (ParamId::StrokeWidth, 20u32), (ParamId::Opaque, 0u32)],
        }
    } else if i == 20 {
        BenchDefView {
            name: "Stroked Lines - 3px (opaque)"@,
            description: "rendering opaque lines with small stroke width"@,
            category: "Strokes (opaque)"@,
            scene_id: SceneId::Strokes,
            scale: Some(BenchScale { param: ParamId::NumStrokes, calibrated_value: 18500 }),
            params: seq![(ParamId::NumStrokes, 18500u32), (ParamId::CurveType, 0u32), (ParamId::StrokeWidth, 3u32), (ParamId::Opaque, 1u32)],
        }
    } else if i == 21 {
        BenchDefView {
            name: "Stroked Lines - 20px (opaque)"@,
            description: "rendering opaque lines with large stroke width"@,
            category: "Strokes (opaque)"@,
            scene_id: SceneId::Strokes,
            scale: Some(BenchScale { param: ParamId::NumStrokes, calibrated_value: 13200 }),
            params: seq![(ParamId::NumStrokes, 13200u32), (ParamId::CurveType, 0u32), (ParamId::StrokeWidth, 20u32), (ParamId::Opaque, 1u32)],
        }
    } else if i == 22 {
        BenchDefView {
            name: "Stroked Cubics - 3px (opaque)"@,
            description: "rendering opaque cubics with small stroke width"@,
            category: "Strokes (opaque)"@,
            scene_id: SceneId::Strokes,
            scale: Some(BenchScale { param: ParamId::NumStrokes, calibrated_value: 5000 }),
            params: seq![(ParamId::NumStrokes, 5000u32), (ParamId::CurveType, 2u32), (ParamId::StrokeWidth, 3u32), (ParamId::Opaque, 1u32)],
        }
    } else if i == 23 {
        BenchDefView {
            name: "Stroked Cubics - 20px (opaque)"@,
            description: "rendering opaque cubics with large stroke width"@,
            category: "Strokes (opaque)"@,
            scene_id: SceneId::Strokes,
            scale: Some(BenchScale { param: ParamId::NumStrokes, calibrated_value: 3500 }),
            params: seq![(ParamId::NumStrokes, 3500u32), (ParamId::CurveType, 2u32), (ParamId::StrokeWidth, 20u32), (ParamId::Opaque, 1u32)],
        }
    } else if i == 24 {
        BenchDefView {
            name: "Polyline"@,
            description: "rendering paths bottlenecked by tiling and strip rendering"@,
            category: "Fills"@,
            scene_id: SceneId::Polyline,
            scale: Some(BenchScale { param: ParamId::NumVertices, calibrated_value: 2200 }),
            params: seq![(ParamId::NumVertices, 2200u32)],
        }
    } else if i == 25 {
        BenchDefView {
            name: "Ghostscript Tiger"@,
            description: "rendering simple vector graphics"@,
            category: "Vector Graphics"@,
            scene_id: SceneId::Svg,
            scale: None,
            params: seq![(ParamId::SvgAsset, 0u32)],
        }
    } else if i == 26 {
        BenchDefView {
            name: "Coat of Arms"@,
            description: "rendering simple vector graphics"@,
            category: "Vector Graphics"@,
            scene_id: SceneId::Svg,
            scale: None,
            params: seq![(ParamId::SvgAsset, 1u32)],
        }
    } else if i == 27 {
        BenchDefView {
            name: "Heraldry"@,
            description: "rendering simple vector graphics"@,
            category: "Vector Graphics"@,
            scene_id: SceneId::Svg,
            scale: None,
            params: seq![(ParamId::SvgAsset, 2u32)],
        }
    } else if i == 28 {
        BenchDefView {
            name: "Rect - 400px - Global `clip_path`"@,
            description: "rendering many semi-transparent paths with a single clip path"@,
            category: "Clip Paths (alpha)"@,
            scene_id: SceneId::Clip,
            scale: Some(BenchScale { param: ParamId::NumRects, calibrated_value: 2100 }),
            params: seq![(ParamId::NumRects, 2100u32), (ParamId::RectSize, 400u32), (ParamId::ClipMode, 1u32), (ParamId::ClipMethod, 0u32), (ParamId::Opaque, 0u32)],
        }
    } else if i == 29 {
        BenchDefView {
            name: "Rect - 400px - Global `clip_layer`"@,
            description: "rendering many semi-transparent paths with a single clip layer"@,
            category: "Clip Paths (alpha)"@,
            scene_id: SceneId::Clip,
            scale: Some(BenchScale { param: ParamId::NumRects, calibrated_value: 2100 }),
            params: seq![(ParamId::NumRects, 2100u32), (ParamId::RectSize, 400u32), (ParamId::ClipMode, 1u32), (ParamId::ClipMethod, 1u32), (ParamId::Opaque, 0u32)],
        }
    } else if i == 30 {
        BenchDefView {
            name: "Rect - 200px - Per-shape `clip_path`"@,
            description: "rendering many semi-transparent paths with many clip paths"@,
            category: "Clip Paths (alpha)"@,
            scene_id: SceneId::Clip,
            scale: Some(BenchScale { param: ParamId::NumRects, calibrated_value: 930 }),
            params: seq![(ParamId::NumRects, 930u32), (ParamId::RectSize, 200u32), (ParamId::ClipMode, 2u32), (ParamId::ClipMethod, 0u32), (ParamId::Opaque, 0u32)],
        }
    } else if i == 31 {
        BenchDefView {
            name: "Rect - 200px - Per-shape `clip_layer`"@,
            description: "rendering many semi-transparent paths with many clip layers"@,
            category: "Clip Paths (alpha)"@,
            scene_id: SceneId::Clip,
            scale: Some(BenchScale { param: ParamId::NumRects, calibrated_value: 930 }),
            params: seq![(ParamId::NumRects, 930u32), (ParamId::RectSize, 200u32), (ParamId::ClipMode, 2u32), (ParamId::ClipMethod, 1u32), (ParamId::Opaque, 0u32)],
        }
    } else if i == 32 {
        BenchDefView {
            name: "Rect - 400px - Global `clip_path` (opaque)"@,
            description: "rendering many opaque paths with a single clip path"@,
            category: "Clip Paths (opaque)"@,
            scene_id: SceneId::Clip,
            scale: Some(BenchScale { param: ParamId::NumRects, calibrated_value: 2100 }),
            params: seq![(ParamId::NumRects, 2100u32), (ParamId::RectSize, 400u32), (ParamId::ClipMode, 1u32), (ParamId::ClipMethod, 0u32), (ParamId::Opaque, 1u32)],
        }
    } else if i == 33 {
        BenchDefView {
            name: "Rect - 200px - Per-shape `clip_path` (opaque)"@,
            description: "rendering many opaque paths with many clip paths"@,
            category: "Clip Paths (opaque)"@,
            scene_id: SceneId::Clip,
            scale: Some(BenchScale { param: ParamId::NumRects, calibrated_value: 930 }),
            params: seq![(ParamId::NumRects, 930u32), (ParamId::RectSize, 200u32), (ParamId::ClipMode, 2u32), (ParamId::ClipMethod, 0u32), (ParamId::Opaque, 1u32)],
        }
    } else if i == 34 {
        BenchDefView {
            name: "Text - 8px"@,
            description: "rendering small semi-transparent text"@,
            category: "Text (alpha)"@,
            scene_id: SceneId::Text,
            scale: Some(BenchScale { param: ParamId::NumRuns, calibrated_value: 2900 }),
            params: seq![(ParamId::NumRuns, 2900u32), (ParamId::FontSize, 8u32), (ParamId::Opaque, 0u32)],
        }
    } else if i == 35 {
        BenchDefView {
            name: "Text - 24px"@,
            description: "rendering medium-sized semi-transparent text"@,
            category: "Text (alpha)"@,
            scene_id: SceneId::Text,
            scale: Some(BenchScale { param: ParamId::NumRuns, calibrated_value: 2200 }),
            params: seq![(ParamId::NumRuns, 2200u32), (ParamId::FontSize, 24u32), (ParamId::Opaque, 0u32)],
        }
    } else if i == 36 {
        BenchDefView {
            name: "Text - 60px"@,
            description: "rendering large semi-transparent text"@,
            category: "Text (alpha)"@,
            scene_id: SceneId::Text,
            scale: Some(BenchScale { param: ParamId::NumRuns, calibrated_value: 1300 }),
            params: seq![(ParamId::NumRuns, 1300u32), (ParamId::FontSize, 60u32), (ParamId::Opaque, 0u32)],
        }
    } else if i == 37 {
        BenchDefView {
            name: "Text - 8px (opaque)"@,
            description: "rendering small opaque text"@,
            category: "Text (opaque)"@,
            scene_id: SceneId::Text,
            scale: Some(BenchScale { param: ParamId::NumRuns, calibrated_value: 2900 }),
            params: seq![(ParamId::NumRuns, 2900u32), (ParamId::FontSize, 8u32), (ParamId::Opaque, 1u32)],
        }
    } else if i == 38 {
        BenchDefView {
            name: "Text - 24px (opaque)"@,
            description: "rendering medium-sized opaque text"@,
            category: "Text (opaque)"@,
            scene_id: SceneId::Text,
            scale: Some(BenchScale { param: ParamId::NumRuns, calibrated_value: 2200 }),
            params: seq![(ParamId::NumRuns, 2200u32), (ParamId::FontSize, 24u32), (ParamId::Opaque, 1u32)],
        }
    } else if i == 39 {
        BenchDefView {
            name: "Text - 60px (opaque)"@,
            description: "rendering large opaque text"@,
            category: "Text (opaque)"@,
            scene_id: SceneId::Text,
            scale: Some(BenchScale { param: ParamId::NumRuns, calibrated_value: 1300 }),
            params: seq![(ParamId::NumRuns, 1300u32), (ParamId::FontSize, 60u32), (ParamId::Opaque, 1u32)],
        }
    } else {
        BenchDefView {
            name: Seq::empty(),
            description: Seq::empty(),
            category: Seq::empty(),
            scene_id: SceneId::Rect,
            scale: None,
            params: Seq::empty(),
        }
    }
}

/// All predefined benchmarks, in the order they are listed.
#[verifier::rlimit(50)]
pub fn bench_defs() -> (defs: Vec<BenchDef>)
    ensures
        defs@.len() == BENCH_COUNT,
        forall|i: int| 0 <= i < BENCH_COUNT ==> #[trigger] defs@[i]@ == bench_def(i),
{
    let mut defs: Vec<BenchDef> = Vec::new();
    defs.push(BenchDef {
        name: "Rect - 5×5 - Solid",
        description: "rendering small semi-transparent rectangles",
        category: "Rects (alpha)",
        scene_id: SceneId::Rect,
        scale: Some(BenchScale { param: ParamId::NumRects, calibrated_value: 600000 }),
        params: vec![(ParamId::NumRects, 600000), (ParamId::RectSize, 5), (ParamId::PaintMode, 0), (ParamId::Rotated, 0), (ParamId::Opaque, 0)],
    });
    assert(defs@[0]@.params =~= bench_def(0).params);
    assert(defs@[0]@ == bench_def(0));
    defs.push(BenchDef {
        name: "Rect - 50×50 - Solid",
        description: "rendering medium semi-transparent rectangles",
        category: "Rects (alpha)",
        scene_id: SceneId::Rect,
        scale: Some(BenchScale { param: ParamId::NumRects, calibrated_value: 380000 }),
        params: vec![(ParamId::NumRects, 380000), (ParamId::RectSize, 50), (ParamId::PaintMode, 0), (ParamId::Rotated, 0), (ParamId::Opaque, 0)],
    });
    assert(defs@[1]@.params =~= bench_def(1).params);
    assert(defs@[1]@ == bench_def(1));
    defs.push(BenchDef {
        name: "Rect - 200×200 - Solid",
        description: "rendering large semi-transparent rectangles",
        category: "Rects (alpha)",
        scene_id: SceneId::Rect,
        scale: Some(BenchScale { param: ParamId::NumRects, calibrated_value: 53000 }),
        params: vec![(ParamId::NumRects, 53000), (ParamId::RectSize, 200), (ParamId::PaintMode, 0), (ParamId::Rotated, 0), (ParamId::Opaque, 0)],
    });
    assert(defs@[2]@.params =~= bench_def(2).params);
    assert(defs@[2]@ == bench_def(2));
    defs.push(BenchDef {
        name: "Rect - 2x Overlap",
        description: "alpha rects, ~2x avg per-pixel overlap — rect size adapts to viewport",
        category: "Rects (alpha, low overdraw)",
        scene_id: SceneId::Rect,
        scale: Some(BenchScale { param: ParamId::NumRects, calibrated_value: 380000 }),
        params: vec![(ParamId::NumRects, 380000), (ParamId::PaintMode, 0), (ParamId::Rotated, 0), (ParamId::Opaque, 0), (ParamId::TargetOverlap, 2)],
    });
    assert(defs@[3]@.params =~= bench_def(3).params);
    assert(defs@[3]@ == bench_def(3));
    defs.push(BenchDef {
        name: "Rect - 4x Overlap",
        description: "alpha rects, ~4x avg per-pixel overlap — rect size adapts to viewport",
        category: "Rects (alpha, low overdraw)",
        scene_id: SceneId::Rect,
        scale: Some(BenchScale { param: ParamId::NumRects, calibrated_value: 380000 }),
        params: vec![(ParamId::NumRects, 380000), (ParamId::PaintMode, 0), (ParamId::Rotated, 0), (ParamId::Opaque, 0), (ParamId::TargetOverlap, 4)],
    });
    assert(defs@[4]@.params =~= bench_def(4).params);
    assert(defs@[4]@ == bench_def(4));
    defs.push(BenchDef {
        name: "Rect - 5×5 - Solid (opaque)",
        description: "rendering small fully opaque rectangles",
        category: "Rects (opaque)",
        scene_id: SceneId::Rect,
        scale: Some(BenchScale { param: ParamId::NumRects, calibrated_value: 600000 }),
        params: vec![(ParamId::NumRects, 600000), (ParamId::RectSize, 5), (ParamId::PaintMode, 0), (ParamId::Rotated, 0), (ParamId::Opaque, 1)],
    });
    assert(defs@[5]@.params =~= bench_def(5).params);
    assert(defs@[5]@ == bench_def(5));
    defs.push(BenchDef {
        name: "Rect - 50×50 - Solid (opaque)",
        description: "rendering medium fully opaque rectangles",
        category: "Rects (opaque)",
        scene_id: SceneId::Rect,
        scale: Some(BenchScale { param: ParamId::NumRects, calibrated_value: 380000 }),
        params: vec![(ParamId::NumRects, 380000), (ParamId::RectSize, 50), (ParamId::PaintMode, 0), (ParamId::Rotated, 0), (ParamId::Opaque, 1)],
    });
    assert(defs@[6]@.params =~= bench_def(6).params);
    assert(defs@[6]@ == bench_def(6));
    defs.push(BenchDef {
        name: "Rect - 200×200 - Solid (opaque)",
        description: "rendering large fully opaque rectangles",
        category: "Rects (opaque)",
        scene_id: SceneId::Rect,
        scale: Some(BenchScale { param: ParamId::NumRects, calibrated_value: 53000 }),
        params: vec![(ParamId::NumRects, 53000), (ParamId::RectSize, 200), (ParamId::PaintMode, 0), (ParamId::Rotated, 0), (ParamId::Opaque, 1)],
    });
    assert(defs@[7]@.params =~= bench_def(7).params);
    assert(defs@[7]@ == bench_def(7));
    defs.push(BenchDef {
        name: "Rect - 200×200 - Image - Nearest",
        description: "rendering transparent images with NN sampling",
        category: "Images (alpha)",
        scene_id: SceneId::Rect,
        scale: Some(BenchScale { param: ParamId::NumRects, calibrated_value: 30000 }),
        params: vec![(ParamId::NumRects, 30000), (ParamId::RectSize, 200), (ParamId::PaintMode, 2), (ParamId::Rotated, 0), (ParamId::ImageFilter, 0), (ParamId::ImageOpaque, 0)],
    });
    assert(defs@[8]@.params =~= bench_def(8).params);
    assert(defs@[8]@ == bench_def(8));
    defs.push(BenchDef {
        name: "Rect - 200×200 - Image - Bilinear",
        description: "rendering transparent images with bilinear sampling",
        category: "Images (alpha)",
        scene_id: SceneId::Rect,
        scale: Some(BenchScale { param: ParamId::NumRects, calibrated_value: 24000 }),
        params: vec![(ParamId::NumRects, 24000), (ParamId::RectSize, 200), (ParamId::PaintMode, 2), (ParamId::Rotated, 0), (ParamId::ImageFilter, 1), (ParamId::ImageOpaque, 0)],
    });
    assert(defs@[9]@.params =~= bench_def(9).params);
    assert(defs@[9]@ == bench_def(9));
    defs.push(BenchDef {
        name: "Image - 2x Overlap - Nearest",
        description: "alpha images, ~2x avg overlap, NN sampling — rect size adapts to viewport",
        category: "Images (alpha, low overdraw)",
        scene_id: SceneId::Rect,
        scale: Some(BenchScale { param: ParamId::NumRects, calibrated_value: 30000 }),
        params: vec![(ParamId::NumRects, 30000), (ParamId::PaintMode, 2), (ParamId::Rotated, 0), (ParamId::ImageFilter, 0), (ParamId::ImageOpaque, 0), (ParamId::TargetOverlap, 2)],
    });
    assert(defs@[10]@.params =~= bench_def(10).params);
    assert(defs@[10]@ == bench_def(10));
    defs.push(BenchDef {
        name: "Image - 4x Overlap - Nearest",
        description: "alpha images, ~4x avg overlap, NN sampling — rect size adapts to viewport",
        category: "Images (alpha, low overdraw)",
        scene_id: SceneId::Rect,
        scale: Some(BenchScale { param: ParamId::NumRects, calibrated_value: 30000 }),
        params: vec![(ParamId::NumRects, 30000), (ParamId::PaintMode, 2), (ParamId::Rotated, 0), (ParamId::ImageFilter, 0), (ParamId::ImageOpaque, 0), (ParamId::TargetOverlap, 4)],
    });
    assert(defs@[11]@.params =~= bench_def(11).params);
    assert(defs@[11]@ == bench_def(11));
    defs.push(BenchDef {
        name: "Rect - 200×200 - Opaque Image - Nearest",
        description: "rendering opaque images with NN sampling",
        category: "Images (opaque)",
        scene_id: SceneId::Rect,
        scale: Some(BenchScale { param: ParamId::NumRects, calibrated_value: 31000 }),
        params: vec![(ParamId::NumRects, 31000), (ParamId::RectSize, 200), (ParamId::PaintMode, 2), (ParamId::Rotated, 0), (ParamId::ImageFilter, 0), (ParamId::ImageOpaque, 1)],
    });
    assert(defs@[12]@.params =~= bench_def(12).params);
    assert(defs@[12]@ == bench_def(12));
    defs.push(BenchDef {
        name: "Rect - 200×200 - Opaque Image - Bilinear",
        description: "rendering opaque images with bilinear sampling",
        category: "Images (opaque)",
        scene_id: SceneId::Rect,
        scale: Some(BenchScale { param: ParamId::NumRects, calibrated_value: 24000 }),
        params: vec![(ParamId::NumRects, 24000), (ParamId::RectSize, 200), (ParamId::PaintMode, 2), (ParamId::Rotated, 0), (ParamId::ImageFilter, 1), (ParamId::ImageOpaque, 1)],
    });
    assert(defs@[13]@.params =~= bench_def(13).params);
    assert(defs@[13]@ == bench_def(13));
    defs.push(BenchDef {
        name: "Stroked Lines - 3px",
        description: "rendering semi-transparent lines with small stroke width",
        category: "Strokes (alpha)",
        scene_id: SceneId::Strokes,
        scale: Some(BenchScale { param: ParamId::NumStrokes, calibrated_value: 18500 }),
        params: vec![(ParamId::NumStrokes, 18500), (ParamId::CurveType, 0), (ParamId::StrokeWidth, 3), (ParamId::Opaque, 0)],
    });
    assert(defs@[14]@.params =~= bench_def(14).params);
    assert(defs@[14]@ == bench_def(14));
    defs.push(BenchDef {
        name: "Stroked Lines - 20px",
        description: "rendering semi-transparent lines with large stroke width",
        category: "Strokes (alpha)",
        scene_id: SceneId::Strokes,
        scale: Some(BenchScale { param: ParamId::NumStrokes, calibrated_value: 13200 }),
        params: vec![(ParamId::NumStrokes, 13200), (ParamId::CurveType, 0), (ParamId::StrokeWidth, 20), (ParamId::Opaque, 0)],
    });
    assert(defs@[15]@.params =~= bench_def(15).params);
    assert(defs@[15]@ == bench_def(15));
    defs.push(BenchDef {
        name: "Stroked Quads - 3px",
        description: "rendering semi-transparent quads with small stroke width",
        category: "Strokes (alpha)",
        scene_id: SceneId::Strokes,
        scale: Some(BenchScale { param: ParamId::NumStrokes, calibrated_value: 6900 }),
        params: vec![(ParamId::NumStrokes, 6900), (ParamId::CurveType, 1), (ParamId::StrokeWidth, 3), (ParamId::Opaque, 0)],
    });
    assert(defs@[16]@.params =~= bench_def(16).params);
    assert(defs@[16]@ == bench_def(16));
    defs.push(BenchDef {
        name: "Stroked Quads - 20px",
        description: "rendering semi-transparent quads with large stroke width",
        category: "Strokes (alpha)",
        scene_id: SceneId::Strokes,
        scale: Some(BenchScale { param: ParamId::NumStrokes, calibrated_value: 5100 }),
        params: vec![(ParamId::NumStrokes, 5100), (ParamId::CurveType, 1), (ParamId::StrokeWidth, 20), (ParamId::Opaque, 0)],
    });
    assert(defs@[17]@.params =~= bench_def(17).params);
    assert(defs@[17]@ == bench_def(17));
    defs.push(BenchDef {
        name: "Stroked Cubics - 3px",
        description: "rendering semi-transparent cubics with small stroke width",
        category: "Strokes (alpha)",
        scene_id: SceneId::Strokes,
        scale: Some(BenchScale { param: ParamId::NumStrokes, calibrated_value: 5000 }),
        params: vec![(ParamId::NumStrokes, 5000), (ParamId::CurveType, 2), (ParamId::StrokeWidth, 3), (ParamId::Opaque, 0)],
    });
    assert(defs@[18]@.params =~= bench_def(18).params);
    assert(defs@[18]@ == bench_def(18));
    defs.push(BenchDef {
        name: "Stroked Cubics - 20px",
        description: "rendering semi-transparent cubics with large stroke width",
        category: "Strokes (alpha)",
        scene_id: SceneId::Strokes,
        scale: Some(BenchScale { param: ParamId::NumStrokes, calibrated_value: 3500 }),
        params: vec![(ParamId::NumStrokes, 3500), (ParamId::CurveType, 2), (ParamId::StrokeWidth, 20), (ParamId::Opaque, 0)],
    });
    assert(defs@[19]@.params =~= bench_def(19).params);
    assert(defs@[19]@ == bench_def(19));
    defs.push(BenchDef {
        name: "Stroked Lines - 3px (opaque)",
        description: "rendering opaque lines with small stroke width",
        category: "Strokes (opaque)",
        scene_id: SceneId::Strokes,
        scale: Some(BenchScale { param: ParamId::NumStrokes, calibrated_value: 18500 }),
        params: vec![(ParamId::NumStrokes, 18500), (ParamId::CurveType, 0), (ParamId::StrokeWidth, 3), (ParamId::Opaque, 1)],
    });
    assert(defs@[20]@.params =~= bench_def(20).params);
    assert(defs@[20]@ == bench_def(20));
    defs.push(BenchDef {
        name: "Stroked Lines - 20px (opaque)",
        description: "rendering opaque lines with large stroke width",
        category: "Strokes (opaque)",
        scene_id: SceneId::Strokes,
        scale: Some(BenchScale { param: ParamId::NumStrokes, calibrated_value: 13200 }),
        params: vec![(ParamId::NumStrokes, 13200), (ParamId::CurveType, 0), (ParamId::StrokeWidth, 20), (ParamId::Opaque, 1)],
    });
    assert(defs@[21]@.params =~= bench_def(21).params);
    assert(defs@[21]@ == bench_def(21));
    defs.push(BenchDef {
        name: "Stroked Cubics - 3px (opaque)",
        description: "rendering opaque cubics with small stroke width",
        category: "Strokes (opaque)",
        scene_id: SceneId::Strokes,
        scale: Some(BenchScale { param: ParamId::NumStrokes, calibrated_value: 5000 }),
        params: vec![(ParamId::NumStrokes, 5000), (ParamId::CurveType, 2), (ParamId::StrokeWidth, 3), (ParamId::Opaque, 1)],
    });
    assert(defs@[22]@.params =~= bench_def(22).params);
    assert(defs@[22]@ == bench_def(22));
    defs.push(BenchDef {
        name: "Stroked Cubics - 20px (opaque)",
        description: "rendering opaque cubics with large stroke width",
        category: "Strokes (opaque)",
        scene_id: SceneId::Strokes,
        scale: Some(BenchScale { param: ParamId::NumStrokes, calibrated_value: 3500 }),
        params: vec![(ParamId::NumStrokes, 3500), (ParamId::CurveType, 2), (ParamId::StrokeWidth, 20), (ParamId::Opaque, 1)],
    });
    assert(defs@[23]@.params =~= bench_def(23).params);
    assert(defs@[23]@ == bench_def(23));
    defs.push(BenchDef {
        name: "Polyline",
        description: "rendering paths bottlenecked by tiling and strip rendering",
        category: "Fills",
        scene_id: SceneId::Polyline,
        scale: Some(BenchScale { param: ParamId::NumVertices, calibrated_value: 2200 }),
        params: vec![(ParamId::NumVertices, 2200)],
    });
    assert(defs@[24]@.params =~= bench_def(24).params);
    assert(defs@[24]@ == bench_def(24));
    defs.push(BenchDef {
        name: "Ghostscript Tiger",
        description: "rendering simple vector graphics",
        category: "Vector Graphics",
        scene_id: SceneId::Svg,
        scale: None,
        params: vec![(ParamId::SvgAsset, 0)],
    });
    assert(defs@[25]@.params =~= bench_def(25).params);
    assert(defs@[25]@ == bench_def(25));
    defs.push(BenchDef {
        name: "Coat of Arms",
        description: "rendering simple vector graphics",
        category: "Vector Graphics",
        scene_id: SceneId::Svg,
        scale: None,
        params: vec![(ParamId::SvgAsset, 1)],
    });
    assert(defs@[26]@.params =~= bench_def(26).params);
    assert(defs@[26]@ == bench_def(26));
    defs.push(BenchDef {
        name: "Heraldry",
        description: "rendering simple vector graphics",
        category: "Vector Graphics",
        scene_id: SceneId::Svg,
        scale: None,
        params: vec![(ParamId::SvgAsset, 2)],
    });
    assert(defs@[27]@.params =~= bench_def(27).params);
    assert(defs@[27]@ == bench_def(27));
    defs.push(BenchDef {
        name: "Rect - 400px - Global `clip_path`",
        description: "rendering many semi-transparent paths with a single clip path",
        category: "Clip Paths (alpha)",
        scene_id: SceneId::Clip,
        scale: Some(BenchScale { param: ParamId::NumRects, calibrated_value: 2100 }),
        params: vec![(ParamId::NumRects, 2100), (ParamId::RectSize, 400), (ParamId::ClipMode, 1), (ParamId::ClipMethod, 0), (ParamId::Opaque, 0)],
    });
    assert(defs@[28]@.params =~= bench_def(28).params);
    assert(defs@[28]@ == bench_def(28));
    defs.push(BenchDef {
        name: "Rect - 400px - Global `clip_layer`",
        description: "rendering many semi-transparent paths with a single clip layer",
        category: "Clip Paths (alpha)",
        scene_id: SceneId::Clip,
        scale: Some(BenchScale { param: ParamId::NumRects, calibrated_value: 2100 }),
        params: vec![(ParamId::NumRects, 2100), (ParamId::RectSize, 400), (ParamId::ClipMode, 1), (ParamId::ClipMethod, 1), (ParamId::Opaque, 0)],
    });
    assert(defs@[29]@.params =~= bench_def(29).params);
    assert(defs@[29]@ == bench_def(29));
    defs.push(BenchDef {
        name: "Rect - 200px - Per-shape `clip_path`",
        description: "rendering many semi-transparent paths with many clip paths",
        category: "Clip Paths (alpha)",
        scene_id: SceneId::Clip,
        scale: Some(BenchScale { param: ParamId::NumRects, calibrated_value: 930 }),
        params: vec![(ParamId::NumRects, 930), (ParamId::RectSize, 200), (ParamId::ClipMode, 2), (ParamId::ClipMethod, 0), (ParamId::Opaque, 0)],
    });
    assert(defs@[30]@.params =~= bench_def(30).params);
    assert(defs@[30]@ == bench_def(30));
    defs.push(BenchDef {
        name: "Rect - 200px - Per-shape `clip_layer`",
        description: "rendering many semi-transparent paths with many clip layers",
        category: "Clip Paths (alpha)",
        scene_id: SceneId::Clip,
        scale: Some(BenchScale { param: ParamId::NumRects, calibrated_value: 930 }),
        params: vec![(ParamId::NumRects, 930), (ParamId::RectSize, 200), (ParamId::ClipMode, 2), (ParamId::ClipMethod, 1), (ParamId::Opaque, 0)],
    });
    assert(defs@[31]@.params =~= bench_def(31).params);
    assert(defs@[31]@ == bench_def(31));
    defs.push(BenchDef {
        name: "Rect - 400px - Global `clip_path` (opaque)",
        description: "rendering many opaque paths with a single clip path",
        category: "Clip Paths (opaque)",
        scene_id: SceneId::Clip,
        scale: Some(BenchScale { param: ParamId::NumRects, calibrated_value: 2100 }),
        params: vec![(ParamId::NumRects, 2100), (ParamId::RectSize, 400), (ParamId::ClipMode, 1), (ParamId::ClipMethod, 0), (ParamId::Opaque, 1)],
    });
    assert(defs@[32]@.params =~= bench_def(32).params);
    assert(defs@[32]@ == bench_def(32));
    defs.push(BenchDef {
        name: "Rect - 200px - Per-shape `clip_path` (opaque)",
        description: "rendering many opaque paths with many clip paths",
        category: "Clip Paths (opaque)",
        scene_id: SceneId::Clip,
        scale: Some(BenchScale { param: ParamId::NumRects, calibrated_value: 930 }),
        params: vec![(ParamId::NumRects, 930), (ParamId::RectSize, 200), (ParamId::ClipMode, 2), (ParamId::ClipMethod, 0), (ParamId::Opaque, 1)],
    });
    assert(defs@[33]@.params =~= bench_def(33).params);
    assert(defs@[33]@ == bench_def(33));
    defs.push(BenchDef {
        name: "Text - 8px",
        description: "rendering small semi-transparent text",
        category: "Text (alpha)",
        scene_id: SceneId::Text,
        scale: Some(BenchScale { param: ParamId::NumRuns, calibrated_value: 2900 }),
        params: vec![(ParamId::NumRuns, 2900), (ParamId::FontSize, 8), (ParamId::Opaque, 0)],
    });
    assert(defs@[34]@.params =~= bench_def(34).params);
    assert(defs@[34]@ == bench_def(34));
    defs.push(BenchDef {
        name: "Text - 24px",
        description: "rendering medium-sized semi-transparent text",
        category: "Text (alpha)",
        scene_id: SceneId::Text,
        scale: Some(BenchScale { param: ParamId::NumRuns, calibrated_value: 2200 }),
        params: vec![(ParamId::NumRuns, 2200), (ParamId::FontSize, 24), (ParamId::Opaque, 0)],
    });
    assert(defs@[35]@.params =~= bench_def(35).params);
    assert(defs@[35]@ == bench_def(35));
    defs.push(BenchDef {
        name: "Text - 60px",
        description: "rendering large semi-transparent text",
        category: "Text (alpha)",
        scene_id: SceneId::Text,
        scale: Some(BenchScale { param: ParamId::NumRuns, calibrated_value: 1300 }),
        params: vec![(ParamId::NumRuns, 1300), (ParamId::FontSize, 60), (ParamId::Opaque, 0)],
    });
    assert(defs@[36]@.params =~= bench_def(36).params);
    assert(defs@[36]@ == bench_def(36));
    defs.push(BenchDef {
        name: "Text - 8px (opaque)",
        description: "rendering small opaque text",
        category: "Text (opaque)",
        scene_id: SceneId::Text,
        scale: Some(BenchScale { param: ParamId::NumRuns, calibrated_value: 2900 }),
        params: vec![(ParamId::NumRuns, 2900), (ParamId::FontSize, 8), (ParamId::Opaque, 1)],
    });
    assert(defs@[37]@.params =~= bench_def(37).params);
    assert(defs@[37]@ == bench_def(37));
    defs.push(BenchDef {
        name: "Text - 24px (opaque)",
        description: "rendering medium-sized opaque text",
        category: "Text (opaque)",
        scene_id: SceneId::Text,
        scale: Some(BenchScale { param: ParamId::NumRuns, calibrated_value: 2200 }),
        params: vec![(ParamId::NumRuns, 2200), (ParamId::FontSize, 24), (ParamId::Opaque, 1)],
    });
    assert(defs@[38]@.params =~= bench_def(38).params);
    assert(defs@[38]@ == bench_def(38));
    defs.push(BenchDef {
        name: "Text - 60px (opaque)",
        description: "rendering large opaque text",
        category: "Text (opaque)",
        scene_id: SceneId::Text,
        scale: Some(BenchScale { param: ParamId::NumRuns, calibrated_value: 1300 }),
        params: vec![(ParamId::NumRuns, 1300), (ParamId::FontSize, 60), (ParamId::Opaque, 1)],
    });
    assert(defs@[39]@.params =~= bench_def(39).params);
    assert(defs@[39]@ == bench_def(39));
    proof {
        assert forall|i: int| 0 <= i < BENCH_COUNT implies #[trigger] defs@[i]@ == bench_def(i) by {

        }
    }
    defs
}


/// Every benchmark whose count the preset scales lists that count among its
/// parameters, at the value it was calibrated at.
pub proof fn law_scaled_benches_list_their_count(i: int)
    requires
        0 <= i < BENCH_COUNT,
    ensures
        bench_def(i).scale matches Some(sc) ==> bench_def(i).params.contains(
            (sc.param, sc.calibrated_value as u32),
        ),
{
    if i == 0 {
        assert(bench_def(0).params[0] == (ParamId::NumRects, 600000u32));
    } else if i == 1 {
        assert(bench_def(1).params[0] == (ParamId::NumRects, 380000u32));
    } else if i == 2 {
        assert(bench_def(2).params[0] == (ParamId::NumRects, 53000u32));
    } else if i == 3 {
        assert(bench_def(3).params[0] == (ParamId::NumRects, 380000u32));
    } else if i == 4 {
        assert(bench_def(4).params[0] == (ParamId::NumRects, 380000u32));
    } else if i == 5 {
        assert(bench_def(5).params[0] == (ParamId::NumRects, 600000u32));
    } else if i == 6 {
        assert(bench_def(6).params[0] == (ParamId::NumRects, 380000u32));
    } else if i == 7 {
        assert(bench_def(7).params[0] == (ParamId::NumRects, 53000u32));
    } else if i == 8 {
        assert(bench_def(8).params[0] == (ParamId::NumRects, 30000u32));
    } else if i == 9 {
        assert(bench_def(9).params[0] == (ParamId::NumRects, 24000u32));
    } else if i == 10 {
        assert(bench_def(10).params[0] == (ParamId::NumRects, 30000u32));
    } else if i == 11 {
        assert(bench_def(11).params[0] == (ParamId::NumRects, 30000u32));
    } else if i == 12 {
        assert(bench_def(12).params[0] == (ParamId::NumRects, 31000u32));
    } else if i == 13 {
        assert(bench_def(13).params[0] == (ParamId::NumRects, 24000u32));
    } else if i == 14 {
        assert(bench_def(14).params[0] == (ParamId::NumStrokes, 18500u32));
    } else if i == 15 {
        assert(bench_def(15).params[0] == (ParamId::NumStrokes, 13200u32));
    } else if i == 16 {
        assert(bench_def(16).params[0] == (ParamId::NumStrokes, 6900u32));
    } else if i == 17 {
        assert(bench_def(17).params[0] == (ParamId::NumStrokes, 5100u32));
    } else if i == 18 {
        assert(bench_def(18).params[0] == (ParamId::NumStrokes, 5000u32));
    } else if i == 19 {
        assert(bench_def(19).params[0] == (ParamId::NumStrokes, 3500u32));
    } else if i == 20 {
        assert(bench_def(20).params[0] == (ParamId::NumStrokes, 18500u32));
    } else if i == 21 {
        assert(bench_def(21).params[0] == (ParamId::NumStrokes, 13200u32));
    } else if i == 22 {
        assert(bench_def(22).params[0] == (ParamId::NumStrokes, 5000u32));
    } else if i == 23 {
        assert(bench_def(23).params[0] == (ParamId::NumStrokes, 3500u32));
    } else if i == 24 {
        assert(bench_def(24).params[0] == (ParamId::NumVertices, 2200u32));
    } else if i == 28 {
        assert(bench_def(28).params[0] == (ParamId::NumRects, 2100u32));
    } else if i == 29 {
        assert(bench_def(29).params[0] == (ParamId::NumRects, 2100u32));
    } else if i == 30 {
        assert(bench_def(30).params[0] == (ParamId::NumRects, 930u32));
    } else if i == 31 {
        assert(bench_def(31).params[0] == (ParamId::NumRects, 930u32));
    } else if i == 32 {
        assert(bench_def(32).params[0] == (ParamId::NumRects, 2100u32));
    } else if i == 33 {
        assert(bench_def(33).params[0] == (ParamId::NumRects, 930u32));
    } else if i == 34 {
        assert(bench_def(34).params[0] == (ParamId::NumRuns, 2900u32));
    } else if i == 35 {
        assert(bench_def(35).params[0] == (ParamId::NumRuns, 2200u32));
    } else if i == 36 {
        assert(bench_def(36).params[0] == (ParamId::NumRuns, 1300u32));
    } else if i == 37 {
        assert(bench_def(37).params[0] == (ParamId::NumRuns, 2900u32));
    } else if i == 38 {
        assert(bench_def(38).params[0] == (ParamId::NumRuns, 2200u32));
    } else if i == 39 {
        assert(bench_def(39).params[0] == (ParamId::NumRuns, 1300u32));
    }
}

/// Whether a benchmark's scene is supported, given the scene ids of the
/// loaded scenes in scene order.
pub open spec fn bench_supported(def: BenchDefView, scene_ids: Seq<SceneId>, caps: BackendCapabilities) -> bool {
    let i = scene_ordinal(def.scene_id) as int;
    let profile = kind_profile(caps@);
    &&& i < scene_ids.len()
    &&& profile.supports_scene(scene_ids[i])
    &&& forall|j: int|
        0 <= j < def.params.len() ==> profile.supports_param(scene_ids[i], #[trigger] def.params[j].0)
            && profile.supports_param_value(scene_ids[i], def.params[j].0, def.params[j].1)
    &&& def.scale matches Some(sc) ==> profile.supports_param(scene_ids[i], sc.param)
}

/// Whether the current backend can run a benchmark: its scene, each of its
/// parameter settings and its scaled count must be supported.
pub fn bench_def_supported(def: &BenchDef, scene_ids: &[SceneId], capabilities: BackendCapabilities) -> (b: bool)
    ensures
        b == bench_supported(def@, scene_ids@, capabilities),
{
    let idx = scene_index(def.scene_id);
    if idx >= scene_ids.len() {
        return false;
    }
    let scene_id = scene_ids[idx];
    if !capabilities.supports_scene(scene_id) {
        return false;
    }
    let mut j: usize = 0;
    while j < def.params.len()
        invariant
            j <= def.params@.len(),
            idx == scene_ordinal(def.scene_id),
            idx < scene_ids@.len(),
            scene_id == scene_ids@[idx as int],
            forall|k: int|
                0 <= k < j ==> kind_profile(capabilities@).supports_param(scene_id, #[trigger] def.params@[k].0)
                    && kind_profile(capabilities@).supports_param_value(
                    scene_id,
                    def.params@[k].0,
                    def.params@[k].1,
                ),
        decreases def.params@.len() - j,
    {
        let (param_id, value) = def.params[j];
        if !(capabilities.supports_param(scene_id, param_id) && capabilities.supports_param_value(
            scene_id,
            param_id,
            value,
        )) {
            assert(def@.params[j as int] == (param_id, value));
            return false;
        }
        j = j + 1;
    }
    match def.scale {
        Some(scale) => capabilities.supports_param(scene_id, scale.param),
        None => true,
    }
}

/// The scene to show: the preferred one when it exists and the backend
/// supports it, otherwise the rect scene.
pub fn supported_scene_or_rect(preferred: Option<usize>, scene_ids: &[SceneId], capabilities: BackendCapabilities) -> (i: usize)
    ensures
        i == (match preferred {
            Some(p) => if p < scene_ids@.len() && kind_profile(capabilities@).supports_scene(
                scene_ids@[p as int],
            ) {
                p
            } else {
                scene_ordinal(SceneId::Rect) as usize
            },
            None => scene_ordinal(SceneId::Rect) as usize,
        }),
{
    match preferred {
        Some(p) => {
            if p < scene_ids.len() && capabilities.supports_scene(scene_ids[p]) {
                p
            } else {
                scene_index(SceneId::Rect)
            }
        },
        None => scene_index(SceneId::Rect),
    }
}

/// Every backend renders the rect scene, so when the scenes are listed in
/// scene order the scene picked to show is always one the backend
/// supports.
pub proof fn law_shown_scene_is_supported(preferred: Option<usize>, scene_ids: Seq<SceneId>, caps: BackendCapabilities)
    requires
        scene_ids.len() >= 1,
        scene_ids[0] == SceneId::Rect,
    ensures
        ({
            let i = match preferred {
                Some(p) => if p < scene_ids.len() && kind_profile(caps@).supports_scene(
                    scene_ids[p as int],
                ) {
                    p
                } else {
                    scene_ordinal(SceneId::Rect) as usize
                },
                None => scene_ordinal(SceneId::Rect) as usize,
            };
            i < scene_ids.len() && kind_profile(caps@).supports_scene(scene_ids[i as int])
        }),
{
    assert(crate::backend::vector_backend_scenes()[0] == SceneId::Rect);
}


/// Length and the characters at positions 7 and 8 of a name.
spec fn name_key(s: Seq<char>) -> (nat, char, char) {
    (s.len(), s[7], if s.len() > 8 {
        s[8]
    } else {
        ' '
    })
}

spec fn bench_name_key(i: int) -> (nat, char, char) {
    if i == 0 {
        (18nat, '5', '×')
    } else if i == 1 {
        (20nat, '5', '0')
    } else if i == 2 {
        (22nat, '2', '0')
    } else if i == 3 {
        (17nat, '2', 'x')
    } else if i == 4 {
        (17nat, '4', 'x')
    } else if i == 5 {
        (27nat, '5', '×')
    } else if i == 6 {
        (29nat, '5', '0')
    } else if i == 7 {
        (31nat, '2', '0')
    } else if i == 8 {
        (32nat, '2', '0')
    } else if i == 9 {
        (33nat, '2', '0')
    } else if i == 10 {
        (28nat, ' ', '2')
    } else if i == 11 {
        (28nat, ' ', '4')
    } else if i == 12 {
        (39nat, '2', '0')
    } else if i == 13 {
        (40nat, '2', '0')
    } else if i == 14 {
        (19nat, ' ', 'L')
    } else if i == 15 {
        (20nat, ' ', 'L')
    } else if i == 16 {
        (19nat, ' ', 'Q')
    } else if i == 17 {
        (20nat, ' ', 'Q')
    } else if i == 18 {
        (20nat, ' ', 'C')
    } else if i == 19 {
        (21nat, ' ', 'C')
    } else if i == 20 {
        (28nat, ' ', 'L')
    } else if i == 21 {
        (29nat, ' ', 'L')
    } else if i == 22 {
        (29nat, ' ', 'C')
    } else if i == 23 {
        (30nat, ' ', 'C')
    } else if i == 24 {
        (8nat, 'e', ' ')
    } else if i == 25 {
        (17nat, 'r', 'i')
    } else if i == 26 {
        (12nat, ' ', 'A')
    } else if i == 27 {
        (8nat, 'y', ' ')
    } else if i == 28 {
        (33nat, '4', '0')
    } else if i == 29 {
        (34nat, '4', '0')
    } else if i == 30 {
        (36nat, '2', '0')
    } else if i == 31 {
        (37nat, '2', '0')
    } else if i == 32 {
        (42nat, '4', '0')
    } else if i == 33 {
        (45nat, '2', '0')
    } else if i == 34 {
        (10nat, '8', 'p')
    } else if i == 35 {
        (11nat, '2', '4')
    } else if i == 36 {
        (11nat, '6', '0')
    } else if i == 37 {
        (19nat, '8', 'p')
    } else if i == 38 {
        (20nat, '2', '4')
    } else if i == 39 {
        (20nat, '6', '0')
    } else {
        (0nat, ' ', ' ')
    }
}

spec fn bench_of_name_key(k: (nat, char, char)) -> int {
    if k == (18nat, '5', '×') {
        0
    } else if k == (20nat, '5', '0') {
        1
    } else if k == (22nat, '2', '0') {
        2
    } else if k == (17nat, '2', 'x') {
        3
    } else if k == (17nat, '4', 'x') {
        4
    } else if k == (27nat, '5', '×') {
        5
    } else if k == (29nat, '5', '0') {
        6
    } else if k == (31nat, '2', '0') {
        7
    } else if k == (32nat, '2', '0') {
        8
    } else if k == (33nat, '2', '0') {
        9
    } else if k == (28nat, ' ', '2') {
        10
    } else if k == (28nat, ' ', '4') {
        11
    } else if k == (39nat, '2', '0') {
        12
    } else if k == (40nat, '2', '0') {
        13
    } else if k == (19nat, ' ', 'L') {
        14
    } else if k == (20nat, ' ', 'L') {
        15
    } else if k == (19nat, ' ', 'Q') {
        16
    } else if k == (20nat, ' ', 'Q') {
        17
    } else if k == (20nat, ' ', 'C') {
        18
    } else if k == (21nat, ' ', 'C') {
        19
    } else if k == (28nat, ' ', 'L') {
        20
    } else if k == (29nat, ' ', 'L') {
        21
    } else if k == (29nat, ' ', 'C') {
        22
    } else if k == (30nat, ' ', 'C') {
        23
    } else if k == (8nat, 'e', ' ') {
        24
    } else if k == (17nat, 'r', 'i') {
        25
    } else if k == (12nat, ' ', 'A') {
        26
    } else if k == (8nat, 'y', ' ') {
        27
    } else if k == (33nat, '4', '0') {
        28
    } else if k == (34nat, '4', '0') {
        29
    } else if k == (36nat, '2', '0') {
        30
    } else if k == (37nat, '2', '0') {
        31
    } else if k == (42nat, '4', '0') {
        32
    } else if k == (45nat, '2', '0') {
        33
    } else if k == (10nat, '8', 'p') {
        34
    } else if k == (11nat, '2', '4') {
        35
    } else if k == (11nat, '6', '0') {
        36
    } else if k == (19nat, '8', 'p') {
        37
    } else if k == (20nat, '2', '4') {
        38
    } else if k == (20nat, '6', '0') {
        39
    } else {
        -1
    }
}

proof fn lemma_bench_name_key(i: int)
    requires
        0 <= i < BENCH_COUNT,
    ensures
        name_key(bench_def(i).name) == bench_name_key(i),
        bench_of_name_key(bench_name_key(i)) == i,
{
    if i == 0 {
        reveal_strlit("Rect - 5×5 - Solid");
    } else if i == 1 {
        reveal_strlit("Rect - 50×50 - Solid");
    } else if i == 2 {
        reveal_strlit("Rect - 200×200 - Solid");
    } else if i == 3 {
        reveal_strlit("Rect - 2x Overlap");
    } else if i == 4 {
        reveal_strlit("Rect - 4x Overlap");
    } else if i == 5 {
        reveal_strlit("Rect - 5×5 - Solid (opaque)");
    } else if i == 6 {
        reveal_strlit("Rect - 50×50 - Solid (opaque)");
    } else if i == 7 {
        reveal_strlit("Rect - 200×200 - Solid (opaque)");
    } else if i == 8 {
        reveal_strlit("Rect - 200×200 - Image - Nearest");
    } else if i == 9 {
        reveal_strlit("Rect - 200×200 - Image - Bilinear");
    } else if i == 10 {
        reveal_strlit("Image - 2x Overlap - Nearest");
    } else if i == 11 {
        reveal_strlit("Image - 4x Overlap - Nearest");
    } else if i == 12 {
        reveal_strlit("Rect - 200×200 - Opaque Image - Nearest");
    } else if i == 13 {
        reveal_strlit("Rect - 200×200 - Opaque Image - Bilinear");
    } else if i == 14 {
        reveal_strlit("Stroked Lines - 3px");
    } else if i == 15 {
        reveal_strlit("Stroked Lines - 20px");
    } else if i == 16 {
        reveal_strlit("Stroked Quads - 3px");
    } else if i == 17 {
        reveal_strlit("Stroked Quads - 20px");
    } else if i == 18 {
        reveal_strlit("Stroked Cubics - 3px");
    } else if i == 19 {
        reveal_strlit("Stroked Cubics - 20px");
    } else if i == 20 {
        reveal_strlit("Stroked Lines - 3px (opaque)");
    } else if i == 21 {
        reveal_strlit("Stroked Lines - 20px (opaque)");
    } else if i == 22 {
        reveal_strlit("Stroked Cubics - 3px (opaque)");
    } else if i == 23 {
        reveal_strlit("Stroked Cubics - 20px (opaque)");
    } else if i == 24 {
        reveal_strlit("Polyline");
    } else if i == 25 {
        reveal_strlit("Ghostscript Tiger");
    } else if i == 26 {
        reveal_strlit("Coat of Arms");
    } else if i == 27 {
        reveal_strlit("Heraldry");
    } else if i == 28 {
        reveal_strlit("Rect - 400px - Global `clip_path`");
    } else if i == 29 {
        reveal_strlit("Rect - 400px - Global `clip_layer`");
    } else if i == 30 {
        reveal_strlit("Rect - 200px - Per-shape `clip_path`");
    } else if i == 31 {
        reveal_strlit("Rect - 200px - Per-shape `clip_layer`");
    } else if i == 32 {
        reveal_strlit("Rect - 400px - Global `clip_path` (opaque)");
    } else if i == 33 {
        reveal_strlit("Rect - 200px - Per-shape `clip_path` (opaque)");
    } else if i == 34 {
        reveal_strlit("Text - 8px");
    } else if i == 35 {
        reveal_strlit("Text - 24px");
    } else if i == 36 {
        reveal_strlit("Text - 60px");
    } else if i == 37 {
        reveal_strlit("Text - 8px (opaque)");
    } else if i == 38 {
        reveal_strlit("Text - 24px (opaque)");
    } else if i == 39 {
        reveal_strlit("Text - 60px (opaque)");
    }
}

/// No two predefined benchmarks share a name, so a result's name tells
/// which benchmark it belongs to.
pub proof fn law_bench_names_are_unique(i: int, j: int)
    requires
        0 <= i < BENCH_COUNT,
        0 <= j < BENCH_COUNT,
        i != j,
    ensures
        bench_def(i).name != bench_def(j).name,
{
    lemma_bench_name_key(i);
    lemma_bench_name_key(j);
}

/// The categories of a list of benchmarks.
pub open spec fn def_categories(defs: Seq<BenchDef>) -> Seq<Seq<char>> {
    defs.map_values(|d: BenchDef| d.category@)
}

/// Each category once, in the order it first appears.
pub open spec fn categories_in_order(cats: Seq<Seq<char>>) -> Seq<Seq<char>>
    decreases cats.len(),
{
    if cats.len() == 0 {
        Seq::empty()
    } else {
        let seen = categories_in_order(cats.drop_last());
        if seen.contains(cats.last()) {
            seen
        } else {
            seen.push(cats.last())
        }
    }
}

/// The positions holding category `c`, in increasing order.
pub open spec fn positions_in(cats: Seq<Seq<char>>, c: Seq<char>) -> Seq<usize>
    decreases cats.len(),
{
    if cats.len() == 0 {
        Seq::empty()
    } else {
        let before = positions_in(cats.drop_last(), c);
        if cats.last() == c {
            before.push((cats.len() - 1) as usize)
        } else {
            before
        }
    }
}

/// The position of `c` among `names`, if it is there.
fn position_of(names: &Vec<&'static str>, c: &str) -> (r: Option<usize>)
    ensures
        match r {
            Some(j) => j < names@.len() && names@[j as int]@ == c@,
            None => forall|j: int| 0 <= j < names@.len() ==> #[trigger] names@[j]@ != c@,
        },
{
    let mut j: usize = 0;
    while j < names.len()
        invariant
            j <= names@.len(),
            forall|k: int| 0 <= k < j ==> #[trigger] names@[k]@ != c@,
        decreases names@.len() - j,
    {
        if crate::text::str_eq(names[j], c) {
            return Some(j);
        }
        j = j + 1;
    }
    None
}

/// The categories of the benchmarks in the order they first appear, each
/// with the positions of its benchmarks.
pub fn bench_categories(defs: &[BenchDef]) -> (groups: Vec<(&'static str, Vec<usize>)>)
    ensures
        groups@.len() == categories_in_order(def_categories(defs@)).len(),
        forall|g: int|
            0 <= g < groups@.len() ==> {
                &&& (#[trigger] groups@[g]).0@ == categories_in_order(def_categories(defs@))[g]
                &&& groups@[g].1@ == positions_in(def_categories(defs@), groups@[g].0@)
            },
{
    let ghost cats = def_categories(defs@);
    let mut names: Vec<&'static str> = Vec::new();
    let mut i: usize = 0;
    while i < defs.len()
        invariant
            i <= defs@.len(),
            cats == def_categories(defs@),
            names@.map_values(|s: &'static str| s@) == categories_in_order(cats.take(i as int)),
        decreases defs@.len() - i,
    {
        let c = defs[i].category;
        let ghost seen = categories_in_order(cats.take(i as int));
        proof {
            assert(cats.take(i + 1).drop_last() =~= cats.take(i as int));
            assert(cats.take(i + 1).last() == c@);
        }
        match position_of(&names, c) {
            Some(j) => {
                assert(seen[j as int] == c@);
            },
            None => {
                assert(!seen.contains(c@)) by {
                    if seen.contains(c@) {
                        let k = choose|k: int| 0 <= k < seen.len() && seen[k] == c@;
                        assert(names@[k]@ == c@);
                    }
                }
                names.push(c);
                assert(names@.map_values(|s: &'static str| s@) =~= seen.push(c@));
            },
        }
        i = i + 1;
    }
    assert(cats.take(defs@.len() as int) =~= cats);
    let ghost order = categories_in_order(cats);

    let mut groups: Vec<(&'static str, Vec<usize>)> = Vec::new();
    let mut g: usize = 0;
    while g < names.len()
        invariant
            g <= names@.len(),
            cats == def_categories(defs@),
            names@.map_values(|s: &'static str| s@) == order,
            order == categories_in_order(cats),
            groups@.len() == g,
            forall|k: int|
                0 <= k < g ==> {
                    &&& (#[trigger] groups@[k]).0@ == order[k]
                    &&& groups@[k].1@ == positions_in(cats, groups@[k].0@)
                },
        decreases names@.len() - g,
    {
        let name = names[g];
        assert(name@ == order[g as int]);
        let mut members: Vec<usize> = Vec::new();
        let mut j: usize = 0;
        while j < defs.len()
            invariant
                j <= defs@.len(),
                cats == def_categories(defs@),
                members@ == positions_in(cats.take(j as int), name@),
            decreases defs@.len() - j,
        {
            proof {
                assert(cats.take(j + 1).drop_last() =~= cats.take(j as int));
                assert(cats.take(j + 1).last() == defs@[j as int].category@);
            }
            if crate::text::str_eq(defs[j].category, name) {
                members.push(j);
            }
            j = j + 1;
        }
        assert(cats.take(defs@.len() as int) =~= cats);
        groups.push((name, members));
        g = g + 1;
    }
    groups
}

/// The positions listed for a category hold that category, in increasing
/// order, and every listed category is the category of some benchmark.
pub proof fn law_category_positions(cats: Seq<Seq<char>>, c: Seq<char>)
    requires
        cats.len() <= usize::MAX,
    ensures
        forall|m: int|
            0 <= m < positions_in(cats, c).len() ==> #[trigger] positions_in(cats, c)[m] < cats.len()
                && cats[positions_in(cats, c)[m] as int] == c,
        forall|m: int, l: int|
            0 <= m < l < positions_in(cats, c).len() ==> #[trigger] positions_in(cats, c)[m]
                < #[trigger] positions_in(cats, c)[l],
        categories_in_order(cats).contains(c) ==> cats.contains(c),
    decreases cats.len(),
{
    if cats.len() > 0 {
        let init = cats.drop_last();
        law_category_positions(init, c);
        let before = positions_in(init, c);
        let p = positions_in(cats, c);
        assert forall|m: int| 0 <= m < p.len() implies #[trigger] p[m] < cats.len() && cats[p[m] as int]
            == c by {
            if m < before.len() {
                assert(p[m] == before[m]);
                assert(cats[before[m] as int] == init[before[m] as int]);
            }
        }
        assert forall|m: int, l: int| 0 <= m < l < p.len() implies #[trigger] p[m] < #[trigger] p[l] by {
            assert(p[m] == before[m]);
            if l < before.len() {
                assert(p[l] == before[l]);
            }
        }
        if categories_in_order(cats).contains(c) {
            if categories_in_order(init).contains(c) {
                let k = choose|k: int| 0 <= k < init.len() && init[k] == c;
                assert(cats[k] == c);
            } else {
                assert(cats[cats.len() - 1] == c);
            }
        }
    }
}

/// Every benchmark is listed under its own category, and the categories
/// are listed once each.
pub proof fn law_every_bench_has_its_category(cats: Seq<Seq<char>>, i: int)
    requires
        0 <= i < cats.len() <= usize::MAX,
    ensures
        categories_in_order(cats).contains(cats[i]),
        positions_in(cats, cats[i]).contains(i as usize),
        categories_in_order(cats).no_duplicates(),
    decreases cats.len(),
{
    let init = cats.drop_last();
    let seen = categories_in_order(init);
    if i < cats.len() - 1 {
        law_every_bench_has_its_category(init, i);
        assert(init[i] == cats[i]);
        let k = choose|k: int| 0 <= k < seen.len() && seen[k] == cats[i];
        if !seen.contains(cats.last()) {
            assert(seen.push(cats.last())[k] == cats[i]);
        }
        let p = positions_in(init, cats[i]);
        let m = choose|m: int| 0 <= m < p.len() && p[m] == i as usize;
        if cats.last() == cats[i] {
            assert(p.push((cats.len() - 1) as usize)[m] == i as usize);
        }
    } else {
        if seen.contains(cats.last()) {
        } else {
            assert(seen.push(cats.last())[seen.len() as int] == cats[i]);
        }
        let p = positions_in(init, cats[i]);
        assert(p.push((cats.len() - 1) as usize)[p.len() as int] == i as usize);
        if cats.len() > 1 {
            law_every_bench_has_its_category(init, 0);
        }
    }
}

/// The rect and image benchmarks, first in the table: each one's name,
/// description, category, scene, scaled count and parameter settings, so
/// that a benchmark named for a rect size renders rects of that size.
#[verifier::rlimit(50)]
pub proof fn law_bench_table_rects_and_images()
    ensures
        bench_def(0).name == "Rect - 5×5 - Solid"@,
        bench_def(0).description == "rendering small semi-transparent rectangles"@,
        bench_def(0).category == "Rects (alpha)"@,
        bench_def(0).scene_id == SceneId::Rect,
        bench_def(0).scale == Some(BenchScale { param: ParamId::NumRects, calibrated_value: 600000 }),
        bench_def(0).params =~= seq![(ParamId::NumRects, 600000u32), (ParamId::RectSize, 5u32), (ParamId::PaintMode, 0u32), (ParamId::Rotated, 0u32), (ParamId::Opaque, 0u32)],
        bench_def(1).name == "Rect - 50×50 - Solid"@,
        bench_def(1).description == "rendering medium semi-transparent rectangles"@,
        bench_def(1).category == "Rects (alpha)"@,
        bench_def(1).scene_id == SceneId::Rect,
        bench_def(1).scale == Some(BenchScale { param: ParamId::NumRects, calibrated_value: 380000 }),
        bench_def(1).params =~= seq![(ParamId::NumRects, 380000u32), (ParamId::RectSize, 50u32), (ParamId::PaintMode, 0u32), (ParamId::Rotated, 0u32), (ParamId::Opaque, 0u32)],
        bench_def(2).name == "Rect - 200×200 - Solid"@,
        bench_def(2).description == "rendering large semi-transparent rectangles"@,
        bench_def(2).category == "Rects (alpha)"@,
        bench_def(2).scene_id == SceneId::Rect,
        bench_def(2).scale == Some(BenchScale { param: ParamId::NumRects, calibrated_value: 53000 }),
        bench_def(2).params =~= seq![(ParamId::NumRects, 53000u32), (ParamId::RectSize, 200u32), (ParamId::PaintMode, 0u32), (ParamId::Rotated, 0u32), (ParamId::Opaque, 0u32)],
        bench_def(3).name == "Rect - 2x Overlap"@,
        bench_def(3).description == "alpha rects, ~2x avg per-pixel overlap — rect size adapts to viewport"@,
        bench_def(3).category == "Rects (alpha, low overdraw)"@,
        bench_def(3).scene_id == SceneId::Rect,
        bench_def(3).scale == Some(BenchScale { param: ParamId::NumRects, calibrated_value: 380000 }),
        bench_def(3).params =~= seq![(ParamId::NumRects, 380000u32), (ParamId::PaintMode, 0u32), (ParamId::Rotated, 0u32), (ParamId::Opaque, 0u32), (ParamId::TargetOverlap, 2u32)],
        bench_def(4).name == "Rect - 4x Overlap"@,
        bench_def(4).description == "alpha rects, ~4x avg per-pixel overlap — rect size adapts to viewport"@,
        bench_def(4).category == "Rects (alpha, low overdraw)"@,
        bench_def(4).scene_id == SceneId::Rect,
        bench_def(4).scale == Some(BenchScale { param: ParamId::NumRects, calibrated_value: 380000 }),
        bench_def(4).params =~= seq![(ParamId::NumRects, 380000u32), (ParamId::PaintMode, 0u32), (ParamId::Rotated, 0u32), (ParamId::Opaque, 0u32), (ParamId::TargetOverlap, 4u32)],
        bench_def(5).name == "Rect - 5×5 - Solid (opaque)"@,
        bench_def(5).description == "rendering small fully opaque rectangles"@,
        bench_def(5).category == "Rects (opaque)"@,
        bench_def(5).scene_id == SceneId::Rect,
        bench_def(5).scale == Some(BenchScale { param: ParamId::NumRects, calibrated_value: 600000 }),
        bench_def(5).params =~= seq![(ParamId::NumRects, 600000u32), (ParamId::RectSize, 5u32), (ParamId::PaintMode, 0u32), (ParamId::Rotated, 0u32), (ParamId::Opaque, 1u32)],
        bench_def(6).name == "Rect - 50×50 - Solid (opaque)"@,
        bench_def(6).description == "rendering medium fully opaque rectangles"@,
        bench_def(6).category == "Rects (opaque)"@,
        bench_def(6).scene_id == SceneId::Rect,
        bench_def(6).scale == Some(BenchScale { param: ParamId::NumRects, calibrated_value: 380000 }),
        bench_def(6).params =~= seq![(ParamId::NumRects, 380000u32), (ParamId::RectSize, 50u32), (ParamId::PaintMode, 0u32), (ParamId::Rotated, 0u32), (ParamId::Opaque, 1u32)],
        bench_def(7).name == "Rect - 200×200 - Solid (opaque)"@,
        bench_def(7).description == "rendering large fully opaque rectangles"@,
        bench_def(7).category == "Rects (opaque)"@,
        bench_def(7).scene_id == SceneId::Rect,
        bench_def(7).scale == Some(BenchScale { param: ParamId::NumRects, calibrated_value: 53000 }),
        bench_def(7).params =~= seq![(ParamId::NumRects, 53000u32), (ParamId::RectSize, 200u32), (ParamId::PaintMode, 0u32), (ParamId::Rotated, 0u32), (ParamId::Opaque, 1u32)],
        bench_def(8).name == "Rect - 200×200 - Image - Nearest"@,
        bench_def(8).description == "rendering transparent images with NN sampling"@,
        bench_def(8).category == "Images (alpha)"@,
        bench_def(8).scene_id == SceneId::Rect,
        bench_def(8).scale == Some(BenchScale { param: ParamId::NumRects, calibrated_value: 30000 }),
        bench_def(8).params =~= seq![(ParamId::NumRects, 30000u32), (ParamId::RectSize, 200u32), (ParamId::PaintMode, 2u32), (ParamId::Rotated, 0u32), (ParamId::ImageFilter, 0u32), (ParamId::ImageOpaque, 0u32)],
        bench_def(9).name == "Rect - 200×200 - Image - Bilinear"@,
        bench_def(9).description == "rendering transparent images with bilinear sampling"@,
        bench_def(9).category == "Images (alpha)"@,
        bench_def(9).scene_id == SceneId::Rect,
        bench_def(9).scale == Some(BenchScale { param: ParamId::NumRects, calibrated_value: 24000 }),
        bench_def(9).params =~= seq![(ParamId::NumRects, 24000u32), (ParamId::RectSize, 200u32), (ParamId::PaintMode, 2u32), (ParamId::Rotated, 0u32), (ParamId::ImageFilter, 1u32), (ParamId::ImageOpaque, 0u32)],
        bench_def(10).name == "Image - 2x Overlap - Nearest"@,
        bench_def(10).description == "alpha images, ~2x avg overlap, NN sampling — rect size adapts to viewport"@,
        bench_def(10).category == "Images (alpha, low overdraw)"@,
        bench_def(10).scene_id == SceneId::Rect,
        bench_def(10).scale == Some(BenchScale { param: ParamId::NumRects, calibrated_value: 30000 }),
        bench_def(10).params =~= seq![(ParamId::NumRects, 30000u32), (ParamId::PaintMode, 2u32), (ParamId::Rotated, 0u32), (ParamId::ImageFilter, 0u32), (ParamId::ImageOpaque, 0u32), (ParamId::TargetOverlap, 2u32)],
        bench_def(11).name == "Image - 4x Overlap - Nearest"@,
        bench_def(11).description == "alpha images, ~4x avg overlap, NN sampling — rect size adapts to viewport"@,
        bench_def(11).category == "Images (alpha, low overdraw)"@,
        bench_def(11).scene_id == SceneId::Rect,
        bench_def(11).scale == Some(BenchScale { param: ParamId::NumRects, calibrated_value: 30000 }),
        bench_def(11).params =~= seq![(ParamId::NumRects, 30000u32), (ParamId::PaintMode, 2u32), (ParamId::Rotated, 0u32), (ParamId::ImageFilter, 0u32), (ParamId::ImageOpaque, 0u32), (ParamId::TargetOverlap, 4u32)],
        bench_def(12).name == "Rect - 200×200 - Opaque Image - Nearest"@,
        bench_def(12).description == "rendering opaque images with NN sampling"@,
        bench_def(12).category == "Images (opaque)"@,
        bench_def(12).scene_id == SceneId::Rect,
        bench_def(12).scale == Some(BenchScale { param: ParamId::NumRects, calibrated_value: 31000 }),
        bench_def(12).params =~= seq![(ParamId::NumRects, 31000u32), (ParamId::RectSize, 200u32), (ParamId::PaintMode, 2u32), (ParamId::Rotated, 0u32), (ParamId::ImageFilter, 0u32), (ParamId::ImageOpaque, 1u32)],
        bench_def(13).name == "Rect - 200×200 - Opaque Image - Bilinear"@,
        bench_def(13).description == "rendering opaque images with bilinear sampling"@,
        bench_def(13).category == "Images (opaque)"@,
        bench_def(13).scene_id == SceneId::Rect,
        bench_def(13).scale == Some(BenchScale { param: ParamId::NumRects, calibrated_value: 24000 }),
        bench_def(13).params =~= seq![(ParamId::NumRects, 24000u32), (ParamId::RectSize, 200u32), (ParamId::PaintMode, 2u32), (ParamId::Rotated, 0u32), (ParamId::ImageFilter, 1u32), (ParamId::ImageOpaque, 1u32)],
{
}

/// The stroke, fill and vector-graphics benchmarks that follow: each one's
/// name, description, category, scene, scaled count and parameter settings,
/// so that a benchmark named for a stroke width strokes at that width.
#[verifier::rlimit(50)]
pub proof fn law_bench_table_strokes_fills_and_vectors()
    ensures
        bench_def(14).name == "Stroked Lines - 3px"@,
        bench_def(14).description == "rendering semi-transparent lines with small stroke width"@,
        bench_def(14).category == "Strokes (alpha)"@,
        bench_def(14).scene_id == SceneId::Strokes,
        bench_def(14).scale == Some(BenchScale { param: ParamId::NumStrokes, calibrated_value: 18500 }),
        bench_def(14).params =~= seq![(ParamId::NumStrokes, 18500u32), (ParamId::CurveType, 0u32), (ParamId::StrokeWidth, 3u32), (ParamId::Opaque, 0u32)],
        bench_def(15).name == "Stroked Lines - 20px"@,
        bench_def(15).description == "rendering semi-transparent lines with large stroke width"@,
        bench_def(15).category == "Strokes (alpha)"@,
        bench_def(15).scene_id == SceneId::Strokes,
        bench_def(15).scale == Some(BenchScale { param: ParamId::NumStrokes, calibrated_value: 13200 }),
        bench_def(15).params =~= seq![(ParamId::NumStrokes, 13200u32), (ParamId::CurveType, 0u32), (ParamId::StrokeWidth, 20u32), (ParamId::Opaque, 0u32)],
        bench_def(16).name == "Stroked Quads - 3px"@,
        bench_def(16).description == "rendering semi-transparent quads with small stroke width"@,
        bench_def(16).category == "Strokes (alpha)"@,
        bench_def(16).scene_id == SceneId::Strokes,
        bench_def(16).scale == Some(BenchScale { param: ParamId::NumStrokes, calibrated_value: 6900 }),
        bench_def(16).params =~= seq![(ParamId::NumStrokes, 6900u32), (ParamId::CurveType, 1u32), (ParamId::StrokeWidth, 3u32), (ParamId::Opaque, 0u32)],
        bench_def(17).name == "Stroked Quads - 20px"@,
        bench_def(17).description == "rendering semi-transparent quads with large stroke width"@,
        bench_def(17).category == "Strokes (alpha)"@,
        bench_def(17).scene_id == SceneId::Strokes,
        bench_def(17).scale == Some(BenchScale { param: ParamId::NumStrokes, calibrated_value: 5100 }),
        bench_def(17).params =~= seq![(ParamId::NumStrokes, 5100u32), (ParamId::CurveType, 1u32), (ParamId::StrokeWidth, 20u32), (ParamId::Opaque, 0u32)],
        bench_def(18).name == "Stroked Cubics - 3px"@,
        bench_def(18).description == "rendering semi-transparent cubics with small stroke width"@,
        bench_def(18).category == "Strokes (alpha)"@,
        bench_def(18).scene_id == SceneId::Strokes,
        bench_def(18).scale == Some(BenchScale { param: ParamId::NumStrokes, calibrated_value: 5000 }),
        bench_def(18).params =~= seq![(ParamId::NumStrokes, 5000u32), (ParamId::CurveType, 2u32), (ParamId::StrokeWidth, 3u32), (ParamId::Opaque, 0u32)],
        bench_def(19).name == "Stroked Cubics - 20px"@,
        bench_def(19).description == "rendering semi-transparent cubics with large stroke width"@,
        bench_def(19).category == "Strokes (alpha)"@,
        bench_def(19).scene_id == SceneId::Strokes,
        bench_def(19).scale == Some(BenchScale { param: ParamId::NumStrokes, calibrated_value: 3500 }),
        bench_def(19).params =~= seq![(ParamId::NumStrokes, 3500u32), (ParamId::CurveType, 2u32), (ParamId::StrokeWidth, 20u32), (ParamId::Opaque, 0u32)],
        bench_def(20).name == "Stroked Lines - 3px (opaque)"@,
        bench_def(20).description == "rendering opaque lines with small stroke width"@,
        bench_def(20).category == "Strokes (opaque)"@,
        bench_def(20).scene_id == SceneId::Strokes,
        bench_def(20).scale == Some(BenchScale { param: ParamId::NumStrokes, calibrated_value: 18500 }),
        bench_def(20).params =~= seq![(ParamId::NumStrokes, 18500u32), (ParamId::CurveType, 0u32), (ParamId::StrokeWidth, 3u32), (ParamId::Opaque, 1u32)],
        bench_def(21).name == "Stroked Lines - 20px (opaque)"@,
        bench_def(21).description == "rendering opaque lines with large stroke width"@,
        bench_def(21).category == "Strokes (opaque)"@,
        bench_def(21).scene_id == SceneId::Strokes,
        bench_def(21).scale == Some(BenchScale { param: ParamId::NumStrokes, calibrated_value: 13200 }),
        bench_def(21).params =~= seq![(ParamId::NumStrokes, 13200u32), (ParamId::CurveType, 0u32), (ParamId::StrokeWidth, 20u32), (ParamId::Opaque, 1u32)],
        bench_def(22).name == "Stroked Cubics - 3px (opaque)"@,
        bench_def(22).description == "rendering opaque cubics with small stroke width"@,
        bench_def(22).category == "Strokes (opaque)"@,
        bench_def(22).scene_id == SceneId::Strokes,
        bench_def(22).scale == Some(BenchScale { param: ParamId::NumStrokes, calibrated_value: 5000 }),
        bench_def(22).params =~= seq![(ParamId::NumStrokes, 5000u32), (ParamId::CurveType, 2u32), (ParamId::StrokeWidth, 3u32), (ParamId::Opaque, 1u32)],
        bench_def(23).name == "Stroked Cubics - 20px (opaque)"@,
        bench_def(23).description == "rendering opaque cubics with large stroke width"@,
        bench_def(23).category == "Strokes (opaque)"@,
        bench_def(23).scene_id == SceneId::Strokes,
        bench_def(23).scale == Some(BenchScale { param: ParamId::NumStrokes, calibrated_value: 3500 }),
        bench_def(23).params =~= seq![(ParamId::NumStrokes, 3500u32), (ParamId::CurveType, 2u32), (ParamId::StrokeWidth, 20u32), (ParamId::Opaque, 1u32)],
        bench_def(24).name == "Polyline"@,
        bench_def(24).description == "rendering paths bottlenecked by tiling and strip rendering"@,
        bench_def(24).category == "Fills"@,
        bench_def(24).scene_id == SceneId::Polyline,
        bench_def(24).scale == Some(BenchScale { param: ParamId::NumVertices, calibrated_value: 2200 }),
        bench_def(24).params =~= seq![(ParamId::NumVertices, 2200u32)],
        bench_def(25).name == "Ghostscript Tiger"@,
        bench_def(25).description == "rendering simple vector graphics"@,
        bench_def(25).category == "Vector Graphics"@,
        bench_def(25).scene_id == SceneId::Svg,
        bench_def(25).scale is None,
        bench_def(25).params =~= seq![(ParamId::SvgAsset, 0u32)],
        bench_def(26).name == "Coat of Arms"@,
        bench_def(26).description == "rendering simple vector graphics"@,
        bench_def(26).category == "Vector Graphics"@,
        bench_def(26).scene_id == SceneId::Svg,
        bench_def(26).scale is None,
        bench_def(26).params =~= seq![(ParamId::SvgAsset, 1u32)],
        bench_def(27).name == "Heraldry"@,
        bench_def(27).description == "rendering simple vector graphics"@,
        bench_def(27).category == "Vector Graphics"@,
        bench_def(27).scene_id == SceneId::Svg,
        bench_def(27).scale is None,
        bench_def(27).params =~= seq![(ParamId::SvgAsset, 2u32)],
{
}

/// The clip and text benchmarks that end the table: each one's name,
/// description, category, scene, scaled count and parameter settings, so
/// that a benchmark named for a size renders at that size.
#[verifier::rlimit(50)]
pub proof fn law_bench_table_clips_and_text()
    ensures
        bench_def(28).name == "Rect - 400px - Global `clip_path`"@,
        bench_def(28).description == "rendering many semi-transparent paths with a single clip path"@,
        bench_def(28).category == "Clip Paths (alpha)"@,
        bench_def(28).scene_id == SceneId::Clip,
        bench_def(28).scale == Some(BenchScale { param: ParamId::NumRects, calibrated_value: 2100 }),
        bench_def(28).params =~= seq![(ParamId::NumRects, 2100u32), (ParamId::RectSize, 400u32), (ParamId::ClipMode, 1u32), (ParamId::ClipMethod, 0u32), (ParamId::Opaque, 0u32)],
        bench_def(29).name == "Rect - 400px - Global `clip_layer`"@,
        bench_def(29).description == "rendering many semi-transparent paths with a single clip layer"@,
        bench_def(29).category == "Clip Paths (alpha)"@,
        bench_def(29).scene_id == SceneId::Clip,
        bench_def(29).scale == Some(BenchScale { param: ParamId::NumRects, calibrated_value: 2100 }),
        bench_def(29).params =~= seq![(ParamId::NumRects, 2100u32), (ParamId::RectSize, 400u32), (ParamId::ClipMode, 1u32), (ParamId::ClipMethod, 1u32), (ParamId::Opaque, 0u32)],
        bench_def(30).name == "Rect - 200px - Per-shape `clip_path`"@,
        bench_def(30).description == "rendering many semi-transparent paths with many clip paths"@,
        bench_def(30).category == "Clip Paths (alpha)"@,
        bench_def(30).scene_id == SceneId::Clip,
        bench_def(30).scale == Some(BenchScale { param: ParamId::NumRects, calibrated_value: 930 }),
        bench_def(30).params =~= seq![(ParamId::NumRects, 930u32), (ParamId::RectSize, 200u32), (ParamId::ClipMode, 2u32), (ParamId::ClipMethod, 0u32), (ParamId::Opaque, 0u32)],
        bench_def(31).name == "Rect - 200px - Per-shape `clip_layer`"@,
        bench_def(31).description == "rendering many semi-transparent paths with many clip layers"@,
        bench_def(31).category == "Clip Paths (alpha)"@,
        bench_def(31).scene_id == SceneId::Clip,
        bench_def(31).scale == Some(BenchScale { param: ParamId::NumRects, calibrated_value: 930 }),
        bench_def(31).params =~= seq![(ParamId::NumRects, 930u32), (ParamId::RectSize, 200u32), (ParamId::ClipMode, 2u32), (ParamId::ClipMethod, 1u32), (ParamId::Opaque, 0u32)],
        bench_def(32).name == "Rect - 400px - Global `clip_path` (opaque)"@,
        bench_def(32).description == "rendering many opaque paths with a single clip path"@,
        bench_def(32).category == "Clip Paths (opaque)"@,
        bench_def(32).scene_id == SceneId::Clip,
        bench_def(32).scale == Some(BenchScale { param: ParamId::NumRects, calibrated_value: 2100 }),
        bench_def(32).params =~= seq![(ParamId::NumRects, 2100u32), (ParamId::RectSize, 400u32), (ParamId::ClipMode, 1u32), (ParamId::ClipMethod, 0u32), (ParamId::Opaque, 1u32)],
        bench_def(33).name == "Rect - 200px - Per-shape `clip_path` (opaque)"@,
        bench_def(33).description == "rendering many opaque paths with many clip paths"@,
        bench_def(33).category == "Clip Paths (opaque)"@,
        bench_def(33).scene_id == SceneId::Clip,
        bench_def(33).scale == Some(BenchScale { param: ParamId::NumRects, calibrated_value: 930 }),
        bench_def(33).params =~= seq![(ParamId::NumRects, 930u32), (ParamId::RectSize, 200u32), (ParamId::ClipMode, 2u32), (ParamId::ClipMethod, 0u32), (ParamId::Opaque, 1u32)],
        bench_def(34).name == "Text - 8px"@,
        bench_def(34).description == "rendering small semi-transparent text"@,
        bench_def(34).category == "Text (alpha)"@,
        bench_def(34).scene_id == SceneId::Text,
        bench_def(34).scale == Some(BenchScale { param: ParamId::NumRuns, calibrated_value: 2900 }),
        bench_def(34).params =~= seq![(ParamId::NumRuns, 2900u32), (ParamId::FontSize, 8u32), (ParamId::Opaque, 0u32)],
        bench_def(35).name == "Text - 24px"@,
        bench_def(35).description == "rendering medium-sized semi-transparent text"@,
        bench_def(35).category == "Text (alpha)"@,
        bench_def(35).scene_id == SceneId::Text,
        bench_def(35).scale == Some(BenchScale { param: ParamId::NumRuns, calibrated_value: 2200 }),
        bench_def(35).params =~= seq![(ParamId::NumRuns, 2200u32), (ParamId::FontSize, 24u32), (ParamId::Opaque, 0u32)],
        bench_def(36).name == "Text - 60px"@,
        bench_def(36).description == "rendering large semi-transparent text"@,
        bench_def(36).category == "Text (alpha)"@,
        bench_def(36).scene_id == SceneId::Text,
        bench_def(36).scale == Some(BenchScale { param: ParamId::NumRuns, calibrated_value: 1300 }),
        bench_def(36).params =~= seq![(ParamId::NumRuns, 1300u32), (ParamId::FontSize, 60u32), (ParamId::Opaque, 0u32)],
        bench_def(37).name == "Text - 8px (opaque)"@,
        bench_def(37).description == "rendering small opaque text"@,
        bench_def(37).category == "Text (opaque)"@,
        bench_def(37).scene_id == SceneId::Text,
        bench_def(37).scale == Some(BenchScale { param: ParamId::NumRuns, calibrated_value: 2900 }),
        bench_def(37).params =~= seq![(ParamId::NumRuns, 2900u32), (ParamId::FontSize, 8u32), (ParamId::Opaque, 1u32)],
        bench_def(38).name == "Text - 24px (opaque)"@,
        bench_def(38).description == "rendering medium-sized opaque text"@,
        bench_def(38).category == "Text (opaque)"@,
        bench_def(38).scene_id == SceneId::Text,
        bench_def(38).scale == Some(BenchScale { param: ParamId::NumRuns, calibrated_value: 2200 }),
        bench_def(38).params =~= seq![(ParamId::NumRuns, 2200u32), (ParamId::FontSize, 24u32), (ParamId::Opaque, 1u32)],
        bench_def(39).name == "Text - 60px (opaque)"@,
        bench_def(39).description == "rendering large opaque text"@,
        bench_def(39).category == "Text (opaque)"@,
        bench_def(39).scene_id == SceneId::Text,
        bench_def(39).scale == Some(BenchScale { param: ParamId::NumRuns, calibrated_value: 1300 }),
        bench_def(39).params =~= seq![(ParamId::NumRuns, 1300u32), (ParamId::FontSize, 60u32), (ParamId::Opaque, 1u32)],
{
}

} // verus!
