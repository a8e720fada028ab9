//! Capability profiles: which scenes, parameters and parameter values a
//! rendering backend supports, held as bit masks.

use vstd::prelude::*;

use crate::scenes::{
    param_bit, param_ordinal, scene_bit, scene_ordinal, ParamId, SceneId, PARAM_ALL_MASK,
    PARAM_COUNT, SCENE_ALL_MASK, SCENE_COUNT,
};

verus! {

/// One parameter value that a backend cannot render, for one scene.
#[derive(Debug, Clone, Copy, PartialEq, Eq, Structural)]
pub struct UnsupportedParamValue {
    scene_id: SceneId,
    param_id: ParamId,
    value: u32,
}

impl View for UnsupportedParamValue {
    type V = (SceneId, ParamId, u32);

    closed spec fn view(&self) -> (SceneId, ParamId, u32) {
        (self.scene_id, self.param_id, self.value)
    }
}

impl UnsupportedParamValue {
    pub fn new(scene_id: SceneId, param_id: ParamId, value: u32) -> (r: Self)
        ensures
            r@ == (scene_id, param_id, value),
    {
        Self { scene_id, param_id, value }
    }
}

/// What a capability profile allows, as sets.
pub struct CapabilityView {
    /// Scenes the backend can render.
    pub scenes: Set<SceneId>,
    /// Parameters the backend honours, per scene.
    pub params: Set<(SceneId, ParamId)>,
    /// Parameter values the backend cannot render, per scene and parameter.
    pub unsupported: Seq<(SceneId, ParamId, u32)>,
}

impl CapabilityView {
    /// Nothing is supported.
    pub open spec fn none() -> CapabilityView {
        CapabilityView { scenes: Set::empty(), params: Set::empty(), unsupported: Seq::empty() }
    }

    /// Every scene and every parameter of every scene is supported.
    pub open spec fn all() -> CapabilityView {
        CapabilityView { scenes: Set::full(), params: Set::full(), unsupported: Seq::empty() }
    }

    pub open spec fn allow_scenes(self, scenes: Seq<SceneId>) -> CapabilityView {
        CapabilityView { scenes: self.scenes + scenes.to_set(), ..self }
    }

    /// The pairs of `scene_id` with each of `params`.
    pub open spec fn rows(scene_id: SceneId, params: Seq<ParamId>) -> Set<(SceneId, ParamId)> {
        Set::new(|sp: (SceneId, ParamId)| sp.0 == scene_id && params.contains(sp.1))
    }

    pub open spec fn allow_params(self, scene_id: SceneId, params: Seq<ParamId>) -> CapabilityView {
        CapabilityView { params: self.params + Self::rows(scene_id, params), ..self }
    }

    pub open spec fn deny_params(self, scene_id: SceneId, params: Seq<ParamId>) -> CapabilityView {
        CapabilityView { params: self.params - Self::rows(scene_id, params), ..self }
    }

    pub open spec fn with_unsupported_values(
        self,
        values: Seq<(SceneId, ParamId, u32)>,
    ) -> CapabilityView {
        CapabilityView { unsupported: values, ..self }
    }

    pub open spec fn supports_scene(self, scene_id: SceneId) -> bool {
        self.scenes.contains(scene_id)
    }

    pub open spec fn supports_param(self, scene_id: SceneId, param_id: ParamId) -> bool {
        self.params.contains((scene_id, param_id))
    }

    pub open spec fn supports_param_value(self, scene_id: SceneId, param_id: ParamId, value: u32) -> bool {
        !self.unsupported.contains((scene_id, param_id, value))
    }
}

/// A backend's capabilities: a scene mask, one parameter mask per scene and
/// a list of unsupported parameter values.
#[derive(Debug)]
pub struct CapabilityProfile {
    scene_mask: u32,
    param_masks: Vec<u64>,
    unsupported_values: Vec<UnsupportedParamValue>,
}

proof fn lemma_or_bit_u32(m: u32, i: u32, j: u32)
    by (bit_vector)
    requires
        i < 32,
        j < 32,
    ensures
        ((m | (1u32 << i)) & (1u32 << j)) != 0 <==> ((m & (1u32 << j)) != 0 || i == j),
{
}

proof fn lemma_or_bit_u64(m: u64, i: u64, j: u64)
    by (bit_vector)
    requires
        i < 64,
        j < 64,
    ensures
        ((m | (1u64 << i)) & (1u64 << j)) != 0 <==> ((m & (1u64 << j)) != 0 || i == j),
{
}

proof fn lemma_clear_bit_u64(m: u64, i: u64, j: u64)
    by (bit_vector)
    requires
        i < 64,
        j < 64,
    ensures
        ((m & !(1u64 << i)) & (1u64 << j)) != 0 <==> ((m & (1u64 << j)) != 0 && i != j),
{
}

proof fn lemma_zero_mask_u32(j: u32)
    by (bit_vector)
    requires
        j < 32,
    ensures
        (0u32 & (1u32 << j)) == 0,
{
}

proof fn lemma_zero_mask_u64(j: u64)
    by (bit_vector)
    requires
        j < 64,
    ensures
        (0u64 & (1u64 << j)) == 0,
{
}

proof fn lemma_scene_all_mask(j: u32)
    by (bit_vector)
    requires
        j < 7,
    ensures
        (0x7fu32 & (1u32 << j)) != 0,
{
}

proof fn lemma_param_all_mask(j: u64)
    by (bit_vector)
    requires
        j < 28,
    ensures
        (0xfff_ffffu64 & (1u64 << j)) != 0,
{
}

/// Whether the mask row of a scene has the bit of a parameter.
pub open spec fn mask_row_has(masks: Seq<u64>, sp: (SceneId, ParamId)) -> bool {
    (masks[scene_ordinal(sp.0) as int] & param_bit(sp.1)) != 0
}

impl View for CapabilityProfile {
    type V = CapabilityView;

    closed spec fn view(&self) -> CapabilityView {
        CapabilityView {
            scenes: Set::new(|s: SceneId| (self.scene_mask & scene_bit(s)) != 0),
            params: Set::new(|sp: (SceneId, ParamId)| mask_row_has(self.param_masks@, sp)),
            unsupported: self.unsupported_values@.map_values(|u: UnsupportedParamValue| u@),
        }
    }
}

impl CapabilityProfile {
    #[verifier::type_invariant]
    closed spec fn well_formed(self) -> bool {
        self.param_masks@.len() == SCENE_COUNT
    }

    /// A profile that supports nothing.
    pub fn none() -> (r: Self)
        ensures
            r@ == CapabilityView::none(),
    {
        let r = Self {
            scene_mask: 0,
            param_masks: vec![0u64, 0, 0, 0, 0, 0, 0],
            unsupported_values: Vec::new(),
        };
        proof {
            assert forall|s: SceneId| !r@.scenes.contains(s) by {
                lemma_zero_mask_u32(scene_ordinal(s) as u32);
            }
            assert forall|sp: (SceneId, ParamId)| !r@.params.contains(sp) by {
                assert(r.param_masks@[scene_ordinal(sp.0) as int] == 0);
                lemma_zero_mask_u64(param_ordinal(sp.1) as u64);
            }
            assert(r@.scenes =~= Set::empty());
            assert(r@.params =~= Set::empty());
            assert(r@.unsupported =~= Seq::empty());
        }
        r
    }

    /// A profile that supports every scene and every parameter.
    pub fn all() -> (r: Self)
        ensures
            r@ == CapabilityView::all(),
    {
        let r = Self {
            scene_mask: SCENE_ALL_MASK,
            param_masks: vec![
                PARAM_ALL_MASK,
                PARAM_ALL_MASK,
                PARAM_ALL_MASK,
                PARAM_ALL_MASK,
                PARAM_ALL_MASK,
                PARAM_ALL_MASK,
                PARAM_ALL_MASK,
            ],
            unsupported_values: Vec::new(),
        };
        proof {
            assert forall|s: SceneId| r@.scenes.contains(s) by {
                lemma_scene_all_mask(scene_ordinal(s) as u32);
            }
            assert forall|sp: (SceneId, ParamId)| r@.params.contains(sp) by {
                assert(r.param_masks@[scene_ordinal(sp.0) as int] == PARAM_ALL_MASK);
                lemma_param_all_mask(param_ordinal(sp.1) as u64);
            }
            assert(r@.scenes =~= Set::full());
            assert(r@.params =~= Set::full());
            assert(r@.unsupported =~= Seq::empty());
        }
        r
    }

    /// Adds the given scenes to the supported scenes.
    pub fn allow_scenes(self, scenes: &[SceneId]) -> (r: Self)
        ensures
            r@ == self@.allow_scenes(scenes@),
    {
        proof {
            use_type_invariant(&self);
        }
        let mut r = self;
        let mut i: usize = 0;
        while i < scenes.len()
            invariant
                i <= scenes@.len(),
                r.param_masks == self.param_masks,
                r.unsupported_values == self.unsupported_values,
                self.param_masks@.len() == SCENE_COUNT,
                r@.scenes =~= self@.scenes + scenes@.take(i as int).to_set(),
            decreases scenes@.len() - i,
        {
            let ghost before = r@.scenes;
            let ghost m = r.scene_mask;
            let b = scenes[i].bit();
            r.scene_mask = r.scene_mask | b;
            proof {
                let t = scenes@[i as int];
                assert forall|s: SceneId| #[trigger] r@.scenes.contains(s) == (before.contains(s) || s == t) by {
                    lemma_or_bit_u32(m, scene_ordinal(t) as u32, scene_ordinal(s) as u32);
                }
                assert(scenes@.take(i + 1) =~= scenes@.take(i as int).push(t));
                scenes@.take(i as int).lemma_push_to_set_commute(t);
                assert(r@.scenes =~= before.insert(t));
                assert(r@.scenes =~= self@.scenes + scenes@.take(i + 1).to_set());
            }
            i = i + 1;
        }
        assert(scenes@.take(scenes@.len() as int) =~= scenes@);
        r
    }

    /// Adds `params` to the parameters supported for `scene_id`.
    pub fn allow_params(self, scene_id: SceneId, params: &[ParamId]) -> (r: Self)
        ensures
            r@ == self@.allow_params(scene_id, params@),
    {
        proof {
            use_type_invariant(&self);
        }
        let ghost orig = self;
        let row = scene_id.index();
        let CapabilityProfile { scene_mask, mut param_masks, unsupported_values } = self;
        let mut i: usize = 0;
        while i < params.len()
            invariant
                i <= params@.len(),
                row == scene_ordinal(scene_id),
                param_masks@.len() == SCENE_COUNT,
                orig.param_masks@.len() == SCENE_COUNT,
                forall|sp: (SceneId, ParamId)|
                    #[trigger] mask_row_has(param_masks@, sp) == (orig@.params.contains(sp) || (sp.0
                        == scene_id && params@.take(i as int).contains(sp.1))),
            decreases params@.len() - i,
        {
            let ghost old_masks = param_masks@;
            let b = params[i].bit();
            let cur = param_masks[row];
            param_masks.set(row, cur | b);
            proof {
                let t = params@[i as int];
                assert(params@.take(i + 1) =~= params@.take(i as int).push(t));
                assert forall|x: ParamId|
                    #[trigger] params@.take(i + 1).contains(x) == (params@.take(i as int).contains(x)
                        || x == t) by {
                    if params@.take(i as int).contains(x) {
                        let k = choose|k: int| 0 <= k < i && #[trigger] params@.take(i as int)[k] == x;
                        assert(params@.take(i + 1)[k] == x);
                    }
                    if x == t {
                        assert(params@.take(i + 1)[i as int] == x);
                    }
                    if params@.take(i + 1).contains(x) {
                        let k = choose|k: int| 0 <= k < i + 1 && #[trigger] params@.take(i + 1)[k] == x;
                        if k < i {
                            assert(params@.take(i as int)[k] == x);
                        }
                    }
                }
                assert forall|sp: (SceneId, ParamId)|
                    #[trigger] mask_row_has(param_masks@, sp) == (mask_row_has(old_masks, sp) || (sp.0
                        == scene_id && sp.1 == t)) by {
                    if sp.0 == scene_id {
                        lemma_or_bit_u64(cur, param_ordinal(t) as u64, param_ordinal(sp.1) as u64);
                    } else {
                        assert(scene_ordinal(sp.0) != scene_ordinal(scene_id));
                    }
                }
            }
            i = i + 1;
        }
        let r = CapabilityProfile { scene_mask, param_masks, unsupported_values };
        proof {
            assert(params@.take(params@.len() as int) =~= params@);
            assert forall|sp: (SceneId, ParamId)| #[trigger] r@.params.contains(sp) == mask_row_has(param_masks@, sp) by {}
            assert(r@.scenes =~= orig@.scenes);
            assert(r@.params =~= orig@.params + CapabilityView::rows(scene_id, params@));
        }
        r
    }

    /// Removes `params` from the parameters supported for `scene_id`.
    pub fn deny_params(self, scene_id: SceneId, params: &[ParamId]) -> (r: Self)
        ensures
            r@ == self@.deny_params(scene_id, params@),
    {
        proof {
            use_type_invariant(&self);
        }
        let ghost orig = self;
        let row = scene_id.index();
        let CapabilityProfile { scene_mask, mut param_masks, unsupported_values } = self;
        let mut i: usize = 0;
        while i < params.len()
            invariant
                i <= params@.len(),
                row == scene_ordinal(scene_id),
                param_masks@.len() == SCENE_COUNT,
                orig.param_masks@.len() == SCENE_COUNT,
                forall|sp: (SceneId, ParamId)|
                    #[trigger] mask_row_has(param_masks@, sp) == (orig@.params.contains(sp) && ! (sp.0
                        == scene_id && params@.take(i as int).contains(sp.1))),
            decreases params@.len() - i,
        {
            let ghost old_masks = param_masks@;
            let b = params[i].bit();
            let cur = param_masks[row];
            param_masks.set(row, cur & !b);
            proof {
                let t = params@[i as int];
                assert(params@.take(i + 1) =~= params@.take(i as int).push(t));
                assert forall|x: ParamId|
                    #[trigger] params@.take(i + 1).contains(x) == (params@.take(i as int).contains(x)
                        || x == t) by {
                    if params@.take(i as int).contains(x) {
                        let k = choose|k: int| 0 <= k < i && #[trigger] params@.take(i as int)[k] == x;
                        assert(params@.take(i + 1)[k] == x);
                    }
                    if x == t {
                        assert(params@.take(i + 1)[i as int] == x);
                    }
                    if params@.take(i + 1).contains(x) {
                        let k = choose|k: int| 0 <= k < i + 1 && #[trigger] params@.take(i + 1)[k] == x;
                        if k < i {
                            assert(params@.take(i as int)[k] == x);
                        }
                    }
                }
                assert forall|sp: (SceneId, ParamId)|
                    #[trigger] mask_row_has(param_masks@, sp) == (mask_row_has(old_masks, sp) && ! (sp.0
                        == scene_id && sp.1 == t)) by {
                    if sp.0 == scene_id {
                        lemma_clear_bit_u64(cur, param_ordinal(t) as u64, param_ordinal(sp.1) as u64);
                    } else {
                        assert(scene_ordinal(sp.0) != scene_ordinal(scene_id));
                    }
                }
            }
            i = i + 1;
        }
        let r = CapabilityProfile { scene_mask, param_masks, unsupported_values };
        proof {
            assert(params@.take(params@.len() as int) =~= params@);
            assert forall|sp: (SceneId, ParamId)| #[trigger] r@.params.contains(sp) == mask_row_has(param_masks@, sp) by {}
            assert(r@.scenes =~= orig@.scenes);
            assert(r@.params =~= orig@.params - CapabilityView::rows(scene_id, params@));
        }
        r
    }

    /// Replaces the list of unsupported parameter values.
    pub fn with_unsupported_values(self, unsupported_values: Vec<UnsupportedParamValue>) -> (r: Self)
        ensures
            r@ == self@.with_unsupported_values(
                unsupported_values@.map_values(|u: UnsupportedParamValue| u@),
            ),
    {
        proof {
            use_type_invariant(&self);
        }
        let mut r = self;
        r.unsupported_values = unsupported_values;
        proof {
            assert(r@.scenes =~= self@.scenes);
            assert(r@.params =~= self@.params);
        }
        r
    }

    /// Whether the scene is supported.
    pub fn supports_scene(&self, scene_id: SceneId) -> (b: bool)
        ensures
            b == self@.supports_scene(scene_id),
    {
        (self.scene_mask & scene_id.bit()) != 0
    }

    /// Whether the parameter is honoured for the scene.
    pub fn supports_param(&self, scene_id: SceneId, param_id: ParamId) -> (b: bool)
        ensures
            b == self@.supports_param(scene_id, param_id),
    {
        proof {
            use_type_invariant(self);
        }
        (self.param_masks[scene_id.index()] & param_id.bit()) != 0
    }

    /// Whether the value of the parameter can be rendered for the scene.
    pub fn supports_param_value(&self, scene_id: SceneId, param_id: ParamId, value: u32) -> (b:
        bool)
        ensures
            b == self@.supports_param_value(scene_id, param_id, value),
    {
        let target = UnsupportedParamValue::new(scene_id, param_id, value);
        let mut i: usize = 0;
        while i < self.unsupported_values.len()
            invariant
                i <= self.unsupported_values@.len(),
                target@ == (scene_id, param_id, value),
                forall|j: int|
                    0 <= j < i ==> #[trigger] self.unsupported_values@[j]@ != (
                        scene_id,
                        param_id,
                        value,
                    ),
            decreases self.unsupported_values@.len() - i,
        {
            let u = self.unsupported_values[i];
            if u.scene_id == target.scene_id && u.param_id == target.param_id && u.value
                == target.value {
                proof {
                    assert(self@.unsupported[i as int] == (scene_id, param_id, value));
                }
                return false;
            }
            i = i + 1;
        }
        proof {
            if self@.unsupported.contains((scene_id, param_id, value)) {
                let k = choose|k: int|
                    0 <= k < self@.unsupported.len() && self@.unsupported[k] == (
                        scene_id,
                        param_id,
                        value,
                    );
                assert(self.unsupported_values@[k]@ == (scene_id, param_id, value));
            }
        }
        true
    }
}


/// After `allow_scenes`, exactly the scenes supported before and the listed
/// scenes are supported.
pub proof fn law_allowed_scenes_are_supported(v: CapabilityView, scenes: Seq<SceneId>, s: SceneId)
    ensures
        v.allow_scenes(scenes).supports_scene(s) == (v.supports_scene(s) || scenes.contains(s)),
{
}

/// `allow_params` adds the listed parameters for its scene and changes
/// nothing for any other scene.
pub proof fn law_allow_params_touches_only_its_scene(
    v: CapabilityView,
    scene_id: SceneId,
    params: Seq<ParamId>,
    s: SceneId,
    p: ParamId,
)
    ensures
        v.allow_params(scene_id, params).supports_param(s, p) == (v.supports_param(s, p) || (s
            == scene_id && params.contains(p))),
        v.allow_params(scene_id, params).supports_scene(s) == v.supports_scene(s),
{
}

/// `deny_params` removes the listed parameters for its scene and changes
/// nothing for any other scene; denying what was just allowed leaves the
/// parameter unsupported.
pub proof fn law_deny_params_removes_support(
    v: CapabilityView,
    scene_id: SceneId,
    params: Seq<ParamId>,
    s: SceneId,
    p: ParamId,
)
    ensures
        v.deny_params(scene_id, params).supports_param(s, p) == (v.supports_param(s, p) && !(s
            == scene_id && params.contains(p))),
        params.contains(p) ==> !v.allow_params(scene_id, params).deny_params(
            scene_id,
            params,
        ).supports_param(scene_id, p),
{
}

/// Changing scenes or parameters never changes which values are supported;
/// a value is unsupported exactly when it is listed.
pub proof fn law_values_are_independent_of_scenes_and_params(
    v: CapabilityView,
    scene_id: SceneId,
    params: Seq<ParamId>,
    scenes: Seq<SceneId>,
    values: Seq<(SceneId, ParamId, u32)>,
    s: SceneId,
    p: ParamId,
    x: u32,
)
    ensures
        v.allow_scenes(scenes).supports_param_value(s, p, x) == v.supports_param_value(s, p, x),
        v.allow_params(scene_id, params).supports_param_value(s, p, x) == v.supports_param_value(
            s,
            p,
            x,
        ),
        v.deny_params(scene_id, params).supports_param_value(s, p, x) == v.supports_param_value(
            s,
            p,
            x,
        ),
        v.with_unsupported_values(values).supports_param_value(s, p, x) == !values.contains(
            (s, p, x),
        ),
        CapabilityView::none().supports_param_value(s, p, x),
        CapabilityView::all().supports_scene(s) && CapabilityView::all().supports_param(s, p),
        !CapabilityView::none().supports_scene(s) && !CapabilityView::none().supports_param(s, p),
{
}

} // verus!
