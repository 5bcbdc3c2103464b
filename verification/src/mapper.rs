//! The parameter mapper: a pure pass from one tracking frame and the
//! compiled transforms to the clamped parameter values to inject.
//!
//! Per frame it rebuilds the variable bindings from scratch — every
//! blend-shape name plus the six derived head-pose names — so nothing from
//! an earlier frame can leak, evaluates each transform, and clamps each
//! result to [-1000000.0, 1000000.0]. When the frame reports no face, the
//! pass yields no values at all: the host is left alone rather than fed
//! stale ones.

use vstd::prelude::*;

use crate::expr::{ctx_new, ctx_set, ctx_vars, ctx_wf, eval_compiled, eval_result,
    CompiledExpr};
use crate::requests::{spec_params_view, TrackingParam, TrackingParamV};
use crate::value_bits::{bits_in_range, bits_is_nan, clamp_bits, lemma_clamp_bits_in_range,
    spec_clamp_bits, WEIGHT_ONE_BITS};
use crate::vtsphone::{FrameV, ShapeV, TrackingResponce};

use evalexpr::HashMapContext;

verus! {

/// One configured output parameter: its name and its compiled formula.
pub struct CompiledTransform {
    pub name: String,
    pub expr: CompiledExpr,
}

pub ghost struct TransformV {
    pub name: Seq<char>,
    pub formula: Seq<char>,
}

impl View for CompiledTransform {
    type V = TransformV;

    open spec fn view(&self) -> TransformV {
        TransformV { name: self.name@, formula: self.expr.spec_source() }
    }
}

pub open spec fn spec_transforms_view(ts: Seq<CompiledTransform>) -> Seq<TransformV> {
    Seq::new(ts.len(), |i: int| ts[i]@)
}

/// Taking views commutes with appending one element.
pub proof fn lemma_transforms_view_push(ts: Seq<CompiledTransform>, e: CompiledTransform)
    ensures
        spec_transforms_view(ts.push(e)) == spec_transforms_view(ts).push(e@),
{
    assert(spec_transforms_view(ts.push(e)) =~= spec_transforms_view(ts).push(e@));
}

/// The variable map a sequence of blend shapes populates, first to last:
/// a repeated name keeps its last value.
pub open spec fn spec_shape_map(shapes: Seq<ShapeV>) -> Map<Seq<char>, u64>
    decreases shapes.len(),
{
    if shapes.len() == 0 {
        Map::empty()
    } else {
        spec_shape_map(shapes.drop_last()).insert(shapes.last().k, shapes.last().v)
    }
}

/// The full variable bindings of a frame: its blend shapes plus the six
/// derived head-pose variables, which take precedence over a blend shape of
/// the same name.
pub open spec fn spec_bindings(f: FrameV) -> Map<Seq<char>, u64> {
    spec_shape_map(f.blend_shapes).insert("HeadPosX"@, f.position.x).insert(
        "HeadPosY"@,
        f.position.y,
    ).insert("HeadPosZ"@, f.position.z).insert("HeadRotX"@, f.rotation.x).insert(
        "HeadRotY"@,
        f.rotation.y,
    ).insert("HeadRotZ"@, f.rotation.z)
}

/// The mapped output for transforms `ts` under bindings `vars`: one clamped
/// value with weight 1.0 per transform that evaluates to a double, in
/// transform order; a transform whose evaluation fails is skipped.
pub open spec fn spec_mapped(ts: Seq<TransformV>, vars: Map<Seq<char>, u64>) -> Seq<
    TrackingParamV,
>
    decreases ts.len(),
{
    if ts.len() == 0 {
        Seq::empty()
    } else {
        let rest = spec_mapped(ts.drop_last(), vars);
        match eval_result(ts.last().formula, vars) {
            Some(v) => rest.push(
                TrackingParamV {
                    id: ts.last().name,
                    weight: Some(WEIGHT_ONE_BITS),
                    value: spec_clamp_bits(v),
                },
            ),
            None => rest,
        }
    }
}

/// What the mapper returns for a whole frame: nothing when no face was
/// found, the mapped output otherwise.
pub open spec fn spec_map_params(f: FrameV, ts: Seq<TransformV>) -> Seq<TrackingParamV> {
    if f.face_found {
        spec_mapped(ts, spec_bindings(f))
    } else {
        Seq::empty()
    }
}

/// Build the variable context for one frame: every blend shape, then the
/// six head-pose variables.
pub fn build_bindings(frame: &TrackingResponce) -> (c: HashMapContext)
    ensures
        ctx_wf(c),
        ctx_vars(c) == spec_bindings(frame@),
{
    let mut c = ctx_new();
    let mut k: usize = 0;
    while k < frame.blend_shapes.len()
        invariant
            ctx_wf(c),
            k <= frame.blend_shapes.len(),
            ctx_vars(c) == spec_shape_map(frame@.blend_shapes.subrange(0, k as int)),
        decreases frame.blend_shapes.len() - k,
    {
        let shape = &frame.blend_shapes[k];
        ctx_set(&mut c, shape.k.as_str(), shape.v);
        proof {
            let shapes = frame@.blend_shapes;
            assert(shapes.subrange(0, k + 1).drop_last() =~= shapes.subrange(0, k as int));
            assert(shapes.subrange(0, k + 1).last() == shapes[k as int]);
        }
        k = k + 1;
    }
    proof {
        assert(frame@.blend_shapes.subrange(0, frame@.blend_shapes.len() as int)
            =~= frame@.blend_shapes);
    }
    ctx_set(&mut c, "HeadPosX", frame.position.x);
    ctx_set(&mut c, "HeadPosY", frame.position.y);
    ctx_set(&mut c, "HeadPosZ", frame.position.z);
    ctx_set(&mut c, "HeadRotX", frame.rotation.x);
    ctx_set(&mut c, "HeadRotY", frame.rotation.y);
    ctx_set(&mut c, "HeadRotZ", frame.rotation.z);
    c
}

/// Map one tracking frame through the compiled transforms into the clamped
/// parameter values to inject. A frame without a face yields no values.
pub fn map_params(frame: &TrackingResponce, transforms: &Vec<CompiledTransform>) -> (r: Vec<
    TrackingParam,
>)
    ensures
        spec_params_view(r@) == spec_map_params(frame@, spec_transforms_view(transforms@)),
        !frame@.face_found ==> r@.len() == 0,
        forall|i: int|
            0 <= i < r@.len() ==> bits_in_range(#[trigger] r@[i]@.value) || bits_is_nan(
                r@[i]@.value,
            ),
{
    let mut r: Vec<TrackingParam> = Vec::new();
    if !frame.face_found {
        proof {
            assert(spec_params_view(r@) =~= spec_map_params(
                frame@,
                spec_transforms_view(transforms@),
            ));
        }
        return r;
    }
    let c = build_bindings(frame);
    let ghost vars = spec_bindings(frame@);
    let mut k: usize = 0;
    while k < transforms.len()
        invariant
            ctx_wf(c),
            ctx_vars(c) == vars,
            vars == spec_bindings(frame@),
            k <= transforms.len(),
            spec_params_view(r@) == spec_mapped(
                spec_transforms_view(transforms@.subrange(0, k as int)),
                vars,
            ),
            forall|i: int|
                0 <= i < r@.len() ==> bits_in_range(#[trigger] r@[i]@.value) || bits_is_nan(
                    r@[i]@.value,
                ),
        decreases transforms.len() - k,
    {
        let t = &transforms[k];
        match eval_compiled(&t.expr, &c) {
            Some(bits) => {
                let clamped = clamp_bits(bits);
                proof {
                    lemma_clamp_bits_in_range(bits);
                }
                r.push(
                    TrackingParam {
                        id: t.name.clone(),
                        weight: Some(WEIGHT_ONE_BITS),
                        value: clamped,
                    },
                );
            },
            None => {},
        }
        proof {
            let prefix = spec_transforms_view(transforms@.subrange(0, k + 1));
            assert(prefix.drop_last() =~= spec_transforms_view(
                transforms@.subrange(0, k as int),
            ));
            assert(prefix.last() == transforms@[k as int]@);
            assert(spec_params_view(r@) =~= spec_mapped(prefix, vars));
        }
        k = k + 1;
    }
    proof {
        assert(spec_transforms_view(transforms@.subrange(0, transforms@.len() as int))
            =~= spec_transforms_view(transforms@));
    }
    r
}

/// The mapping pass is deterministic: the same transforms and the same
/// bindings always give the same mapped sequence.
pub proof fn lemma_mapping_deterministic(
    ts: Seq<TransformV>,
    vars: Map<Seq<char>, u64>,
    r1: Seq<TrackingParamV>,
    r2: Seq<TrackingParamV>,
)
    requires
        r1 == spec_mapped(ts, vars),
        r2 == spec_mapped(ts, vars),
    ensures
        r1 == r2,
{
}

/// Every mapped value lies in the clamping range, unless the formula
/// evaluated to a NaN, which passes through as the host would receive it.
pub proof fn lemma_mapped_values_clamped(ts: Seq<TransformV>, vars: Map<Seq<char>, u64>)
    ensures
        forall|i: int|
            0 <= i < spec_mapped(ts, vars).len() ==> bits_in_range(
                #[trigger] spec_mapped(ts, vars)[i].value,
            ) || bits_is_nan(spec_mapped(ts, vars)[i].value),
    decreases ts.len(),
{
    if ts.len() == 0 {
    } else {
        lemma_mapped_values_clamped(ts.drop_last(), vars);
        match eval_result(ts.last().formula, vars) {
            Some(v) => {
                lemma_clamp_bits_in_range(v);
            },
            None => {},
        }
    }
}

/// A frame without a face maps to the empty parameter list, whatever the
/// transforms and whatever else the frame holds.
pub proof fn lemma_no_face_no_params(f: FrameV, ts: Seq<TransformV>)
    requires
        !f.face_found,
    ensures
        spec_map_params(f, ts) == Seq::<TrackingParamV>::empty(),
{
}

} // verus!
