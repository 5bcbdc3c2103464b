use rusty_bridge::config::{prepare_config, ParameterDefinition};
use rusty_bridge::mapper::map_params;
use rusty_bridge::value_bits::WEIGHT_ONE_BITS;
use rusty_bridge::vtsphone::{Cords, Shape, TrackingResponce};

fn defs(entries: &[(&str, &str)]) -> Vec<ParameterDefinition> {
    entries
        .iter()
        .map(|(name, func)| ParameterDefinition {
            name: name.to_string(),
            func: func.to_string(),
            min: 0f64.to_bits(),
            max: 1f64.to_bits(),
            default_value: 0f64.to_bits(),
        })
        .collect()
}

fn frame(face_found: bool, shapes: &[(&str, f64)]) -> TrackingResponce {
    TrackingResponce {
        timestamp: 1,
        hotkey: -1,
        face_found,
        rotation: Cords { x: 0f64.to_bits(), y: 0f64.to_bits(), z: 0f64.to_bits() },
        position: Cords { x: 0f64.to_bits(), y: 0f64.to_bits(), z: 0f64.to_bits() },
        eye_left: Cords { x: 0f64.to_bits(), y: 0f64.to_bits(), z: 0f64.to_bits() },
        blend_shapes: shapes
            .iter()
            .map(|(k, v)| Shape { k: k.to_string(), v: v.to_bits() })
            .collect(),
    }
}

#[test]
fn no_face_yields_no_params() {
    let prepared = prepare_config(&defs(&[("Smile", "MouthSmile*2")])).ok().unwrap();
    let f = frame(false, &[("MouthSmile", 0.9)]);
    let params = map_params(&f, &prepared.transforms);
    assert!(params.is_empty());
}

#[test]
fn smile_scenario_doubles_the_shape() {
    let prepared = prepare_config(&defs(&[("Smile", "MouthSmile*2")])).ok().unwrap();
    let f = frame(true, &[("MouthSmile", 0.4)]);
    let params = map_params(&f, &prepared.transforms);
    assert_eq!(params.len(), 1);
    assert_eq!(params[0].id, "Smile");
    assert_eq!(f64::from_bits(params[0].value), 0.8);
    assert_eq!(params[0].weight, Some(WEIGHT_ONE_BITS));
    assert_eq!(f64::from_bits(WEIGHT_ONE_BITS), 1.0);
}

#[test]
fn mapping_is_deterministic() {
    let prepared = prepare_config(&defs(&[("Out", "MouthSmile*3.5 - HeadPosX")])).ok().unwrap();
    let f = frame(true, &[("MouthSmile", 0.25)]);
    let a = map_params(&f, &prepared.transforms);
    let b = map_params(&f, &prepared.transforms);
    assert_eq!(a.len(), b.len());
    for (x, y) in a.iter().zip(b.iter()) {
        assert_eq!(x.id, y.id);
        assert_eq!(x.value, y.value);
        assert_eq!(x.weight, y.weight);
    }
}

#[test]
fn runaway_values_clamp_to_the_bound() {
    let prepared = prepare_config(&defs(&[
        ("Big", "MouthSmile*3000000.0"),
        ("Small", "0.0-MouthSmile*3000000.0"),
    ]))
    .ok()
    .unwrap();
    let f = frame(true, &[("MouthSmile", 1.0)]);
    let params = map_params(&f, &prepared.transforms);
    assert_eq!(params.len(), 2);
    assert_eq!(f64::from_bits(params[0].value), 1000000.0);
    assert_eq!(f64::from_bits(params[1].value), -1000000.0);
}

#[test]
fn head_pose_variables_are_bound() {
    let prepared = prepare_config(&defs(&[("X", "HeadPosX + HeadRotZ")])).ok().unwrap();
    let mut f = frame(true, &[]);
    f.position.x = 0.25f64.to_bits();
    f.rotation.z = 0.5f64.to_bits();
    let params = map_params(&f, &prepared.transforms);
    assert_eq!(params.len(), 1);
    assert_eq!(f64::from_bits(params[0].value), 0.75);
}

#[test]
fn failing_formula_is_skipped_not_fatal() {
    let prepared = prepare_config(&defs(&[
        ("Missing", "NoSuchShape*1.0"),
        ("Int", "1+1"),
        ("Good", "MouthSmile*2"),
    ]))
    .ok()
    .unwrap();
    let f = frame(true, &[("MouthSmile", 0.1)]);
    let params = map_params(&f, &prepared.transforms);
    assert_eq!(params.len(), 1);
    assert_eq!(params[0].id, "Good");
    assert_eq!(f64::from_bits(params[0].value), 0.2);
}

#[test]
fn nan_passes_through_the_clamp() {
    let prepared = prepare_config(&defs(&[("Odd", "MouthSmile*(0.0/0.0)")])).ok().unwrap();
    let f = frame(true, &[("MouthSmile", 1.0)]);
    let params = map_params(&f, &prepared.transforms);
    assert_eq!(params.len(), 1);
    assert!(f64::from_bits(params[0].value).is_nan());
}

#[test]
fn repeated_shape_names_keep_the_last_value() {
    let prepared = prepare_config(&defs(&[("S", "Dup*1.0")])).ok().unwrap();
    let f = frame(true, &[("Dup", 0.1), ("Dup", 0.7)]);
    let params = map_params(&f, &prepared.transforms);
    assert_eq!(params.len(), 1);
    assert_eq!(f64::from_bits(params[0].value), 0.7);
}

#[test]
fn builtin_functions_are_not_part_of_the_language() {
    // The formula language is arithmetic and comparisons over named
    // variables: a call compiles but fails at evaluation and the parameter
    // is skipped — it must not crash the mapping pass, as some builtins
    // would (string slicing by byte index inside a multi-byte character).
    let prepared = prepare_config(&defs(&[
        ("Slice", "str::substring(\"\u{e4}\", 0, 1)"),
        ("Min", "min(MouthSmile, 1.0)"),
        ("Shift", "shl(1, 9999)"),
        ("Good", "MouthSmile*2"),
    ]))
    .ok()
    .unwrap();
    let f = frame(true, &[("MouthSmile", 0.3)]);
    let params = map_params(&f, &prepared.transforms);
    assert_eq!(params.len(), 1);
    assert_eq!(params[0].id, "Good");
    assert_eq!(f64::from_bits(params[0].value), 0.6);
}
