//! Startup preparation of the transform configuration: compile every
//! formula, and plan one registration request per configured parameter the
//! host does not already know.
//!
//! The configuration file itself is read and decoded outside the library;
//! it arrives here as a list of definitions. A formula that does not
//! compile is fatal for startup: the result names the offending parameter
//! and formula so the caller can abort with a diagnostic.

use vstd::prelude::*;

use crate::expr::{compile_formula, compiles};
use crate::mapper::{lemma_transforms_view_push, spec_transforms_view, CompiledTransform,
    TransformV};
use crate::requests::{lemma_creations_view_push, spec_creations_view, ParameterCreation,
    ParameterCreationV};

verus! {

/// One configured output parameter as the transform-config file defines it:
/// name, formula source text, and range and default as double bit patterns.
pub struct ParameterDefinition {
    pub name: String,
    pub func: String,
    pub min: u64,
    pub max: u64,
    pub default_value: u64,
}

pub ghost struct ParameterDefinitionV {
    pub name: Seq<char>,
    pub func: Seq<char>,
    pub min: u64,
    pub max: u64,
    pub default_value: u64,
}

impl View for ParameterDefinition {
    type V = ParameterDefinitionV;

    open spec fn view(&self) -> ParameterDefinitionV {
        ParameterDefinitionV {
            name: self.name@,
            func: self.func@,
            min: self.min,
            max: self.max,
            default_value: self.default_value,
        }
    }
}

pub open spec fn spec_defs_view(defs: Seq<ParameterDefinition>) -> Seq<ParameterDefinitionV> {
    Seq::new(defs.len(), |i: int| defs[i]@)
}

/// The diagnostic for a formula the expression engine rejects: the
/// parameter it belongs to and the formula text.
pub struct CompileFailure {
    pub name: String,
    pub func: String,
}

/// Whether `name` is one of the host's standard input parameters, which
/// exist without registration.
pub open spec fn spec_is_builtin(name: Seq<char>) -> bool {
    ||| name == "FacePositionX"@
    ||| name == "FacePositionY"@
    ||| name == "FacePositionZ"@
    ||| name == "FaceAngleX"@
    ||| name == "FaceAngleY"@
    ||| name == "FaceAngleZ"@
    ||| name == "MouthSmile"@
    ||| name == "MouthOpen"@
    ||| name == "Brows"@
    ||| name == "TongueOut"@
    ||| name == "EyeOpenLeft"@
    ||| name == "EyeOpenRight"@
    ||| name == "EyeLeftX"@
    ||| name == "EyeLeftY"@
    ||| name == "EyeRightX"@
    ||| name == "EyeRightY"@
    ||| name == "CheekPuff"@
    ||| name == "FaceAngry"@
    ||| name == "BrowLeftY"@
    ||| name == "BrowRightY"@
    ||| name == "MouthX"@
    ||| name == "VoiceFrequencyPlusMouthSmile"@
}

fn matches_lit(name: &String, lit: &str) -> (r: bool)
    ensures
        r == (name@ == lit@),
{
    let owned = lit.to_owned();
    *name == owned
}

pub fn is_builtin_param(name: &String) -> (r: bool)
    ensures
        r == spec_is_builtin(name@),
{
    matches_lit(name, "FacePositionX") || matches_lit(name, "FacePositionY") || matches_lit(
        name,
        "FacePositionZ",
    ) || matches_lit(name, "FaceAngleX") || matches_lit(name, "FaceAngleY") || matches_lit(
        name,
        "FaceAngleZ",
    ) || matches_lit(name, "MouthSmile") || matches_lit(name, "MouthOpen") || matches_lit(
        name,
        "Brows",
    ) || matches_lit(name, "TongueOut") || matches_lit(name, "EyeOpenLeft") || matches_lit(
        name,
        "EyeOpenRight",
    ) || matches_lit(name, "EyeLeftX") || matches_lit(name, "EyeLeftY") || matches_lit(
        name,
        "EyeRightX",
    ) || matches_lit(name, "EyeRightY") || matches_lit(name, "CheekPuff") || matches_lit(
        name,
        "FaceAngry",
    ) || matches_lit(name, "BrowLeftY") || matches_lit(name, "BrowRightY") || matches_lit(
        name,
        "MouthX",
    ) || matches_lit(name, "VoiceFrequencyPlusMouthSmile")
}

/// The registration payload for one definition.
pub open spec fn spec_creation_of(d: ParameterDefinitionV) -> ParameterCreationV {
    ParameterCreationV {
        parameter_name: d.name,
        explanation: "Custom rusty-bridge param"@,
        min: d.min,
        max: d.max,
        default_value: d.default_value,
    }
}

/// The registration requests a configuration calls for: one per definition
/// whose name is not builtin, in configuration order.
pub open spec fn spec_registrations(defs: Seq<ParameterDefinitionV>) -> Seq<ParameterCreationV>
    decreases defs.len(),
{
    if defs.len() == 0 {
        Seq::empty()
    } else {
        let rest = spec_registrations(defs.drop_last());
        if spec_is_builtin(defs.last().name) {
            rest
        } else {
            rest.push(spec_creation_of(defs.last()))
        }
    }
}

/// The transform each definition compiles to, by name and formula text.
pub open spec fn spec_transform_of(d: ParameterDefinitionV) -> TransformV {
    TransformV { name: d.name, formula: d.func }
}

/// The transforms a whole configuration compiles to, in order.
pub open spec fn spec_transforms_of(defs: Seq<ParameterDefinitionV>) -> Seq<TransformV> {
    Seq::new(defs.len(), |i: int| spec_transform_of(defs[i]))
}

/// A configuration prepared for streaming: the compiled transforms, in
/// configuration order, and the registration requests for the parameters
/// the host does not already know.
pub struct PreparedConfig {
    pub transforms: Vec<CompiledTransform>,
    pub registrations: Vec<ParameterCreation>,
}

/// Compile every configured formula and plan the registrations. Succeeds
/// exactly when every formula compiles; otherwise names the first
/// definition whose formula the expression engine rejects.
pub fn prepare_config(defs: &Vec<ParameterDefinition>) -> (r: Result<
    PreparedConfig,
    CompileFailure,
>)
    ensures
        r is Ok <==> (forall|i: int|
            0 <= i < defs@.len() ==> compiles(#[trigger] defs@[i]@.func)),
        r matches Ok(p) ==> spec_transforms_view(p.transforms@) == spec_transforms_of(
            spec_defs_view(defs@),
        ),
        r matches Ok(p) ==> spec_creations_view(p.registrations@) == spec_registrations(
            spec_defs_view(defs@),
        ),
        r matches Err(e) ==> exists|i: int|
            {
                &&& 0 <= i < defs@.len()
                &&& !compiles(#[trigger] defs@[i]@.func)
                &&& e.name@ == defs@[i]@.name
                &&& e.func@ == defs@[i]@.func
                &&& forall|j: int| 0 <= j < i ==> compiles(#[trigger] defs@[j]@.func)
            },
{
    let mut transforms: Vec<CompiledTransform> = Vec::new();
    let mut registrations: Vec<ParameterCreation> = Vec::new();
    let mut k: usize = 0;
    while k < defs.len()
        invariant
            k <= defs.len(),
            forall|j: int| 0 <= j < k ==> compiles(#[trigger] defs@[j]@.func),
            spec_transforms_view(transforms@) == spec_transforms_of(
                spec_defs_view(defs@.subrange(0, k as int)),
            ),
            spec_creations_view(registrations@) == spec_registrations(
                spec_defs_view(defs@.subrange(0, k as int)),
            ),
        decreases defs.len() - k,
    {
        let d = &defs[k];
        let ghost pre_t = transforms@;
        let ghost pre_r = registrations@;
        if !is_builtin_param(&d.name) {
            let creation = ParameterCreation {
                parameter_name: d.name.clone(),
                explanation: String::from_str("Custom rusty-bridge param"),
                min: d.min,
                max: d.max,
                default_value: d.default_value,
            };
            let ghost creation_snapshot = creation;
            registrations.push(creation);
            proof {
                lemma_creations_view_push(pre_r, creation_snapshot);
            }
        }
        match compile_formula(d.func.as_str()) {
            Some(expr) => {
                let transform = CompiledTransform { name: d.name.clone(), expr };
                let ghost transform_snapshot = transform;
                transforms.push(transform);
                proof {
                    lemma_transforms_view_push(pre_t, transform_snapshot);
                }
            },
            None => {
                let e = CompileFailure { name: d.name.clone(), func: d.func.clone() };
                proof {
                    assert(!compiles(defs@[k as int]@.func));
                    assert(0 <= k < defs@.len() && !compiles(defs@[k as int]@.func)
                        && e.name@ == defs@[k as int]@.name && e.func@ == defs@[k as int]@.func
                        && (forall|j: int| 0 <= j < k ==> compiles(#[trigger] defs@[j]@.func)));
                }
                return Err(e);
            },
        }
        proof {
            let prefix = spec_defs_view(defs@.subrange(0, k + 1));
            assert(prefix.drop_last() =~= spec_defs_view(defs@.subrange(0, k as int)));
            assert(prefix.last() == defs@[k as int]@);
            assert(spec_transforms_view(transforms@) =~= spec_transforms_of(prefix));
            assert(spec_creations_view(registrations@) =~= spec_registrations(prefix));
        }
        k = k + 1;
    }
    proof {
        assert(spec_defs_view(defs@.subrange(0, defs@.len() as int)) =~= spec_defs_view(defs@));
        assert(spec_transforms_view(transforms@) =~= spec_transforms_of(spec_defs_view(defs@)));
    }
    Ok(PreparedConfig { transforms, registrations })
}

} // verus!
