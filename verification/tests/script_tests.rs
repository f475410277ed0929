use fabrik::actions::ActionPathSet;
use fabrik::script::build_full_script;
use fabrik::script::materialize_script;
use fabrik::script::temp_script_path;

#[test]
fn materialized_script_is_preamble_then_body_verbatim() {
    let actions = ActionPathSet::from_actions_dir("/a/actions");
    let out = materialize_script("{\"k\": 1}", "alert('hi');\n", &actions);
    let expected = format!(
        "// FabRik script preamble\n// Action paths:\n// - Vecto Texte: {}\n// - Offset: {}\nvar params = {};\n// Original script\n{}",
        "/a/actions/Vecto_Texte.aia",
        "/a/actions/OffsetSet.aia",
        "{\"k\": 1}",
        "alert('hi');\n"
    );
    assert_eq!(out, expected);
}

#[test]
fn full_script_merges_then_wraps() {
    let dir = "/proj/assets/fabrik/actions";
    let out = build_full_script("{}", "run();", dir);
    let merged = format!(
        "{{\n    \"vectoTexteActionPath\": \"{d}/Vecto_Texte.aia\",\n    \"vectoContourActionPath\": \"{d}/Vecto_Contour.aia\",\n    \"offsetActionPath\": \"{d}/OffsetSet.aia\",\n    \"pathfinderUnionActionPath\": \"{d}/PathfinderUnion.aia\",\n    \"cutContourActionPath\": \"{d}/CutContour.aia\"\n}}",
        d = dir
    );
    let expected = format!(
        "// FabRik script preamble\n// Action paths:\n// - Vecto Texte: {d}/Vecto_Texte.aia\n// - Offset: {d}/OffsetSet.aia\nvar params = {m};\n// Original script\nrun();",
        d = dir,
        m = merged
    );
    assert_eq!(out, expected);
}

#[test]
fn full_script_passes_malformed_params_through() {
    let out = build_full_script("not json", "run();", "/a/actions");
    assert!(out.contains("var params = not json;"));
    assert!(!out.contains("vectoTexteActionPath"));
}

#[test]
fn temp_script_has_fixed_well_known_name() {
    assert_eq!(temp_script_path("/tmp"), "/tmp/fabrik_temp_script.jsx");
}
