use pulsebridge::scene_shader::{variant, SceneKey};

const SHADER: &str = "@vertex
fn vs_main() -> f32 { return 1.0; } // entry point
fn vs_lines() -> f32 { return 2.0; }
fn visual_family(id: u32) -> vec3<f32> {
    switch id {
        case 3u: { return vec3<f32>(3.0); }
        default: { return vec3<f32>(0.0); }
    }
}
fn tron_look(look: u32, uv: vec2<f32>, t: f32) -> vec3<f32> {
    if look == 1u || look == 2u { return vec3<f32>(1.0); } else if look == 5u { return vec3<f32>(5.0); } else { return vec3<f32>(9.0); }
}
fn tron_scene(uv: vec2<f32>) -> vec3<f32> {
    return vec3<f32>(0.0);
}
@fragment
fn fs_main() -> vec3<f32> {
    let primary_id = u32(round(params.style_a.x));
    return visual_family(primary_id) + tron_scene(vec2<f32>(0.0));
}
";

#[test]
fn held_library_scene_keeps_only_its_dispatch_case() {
    let source = SceneKey::Held(3).source(SHADER).expect("the shader is well formed");
    assert!(!source.contains("fn tron_look("));
    assert!(!source.contains("fn vs_lines("));
    assert!(!source.contains("switch id"));
    assert!(!source.contains("// entry point"));
    assert!(source.contains("let primary_id = 3u;"));
    assert!(source.contains("fn visual_family(id: u32) -> vec3<f32> {return vec3<f32>(3.0); }"));
    assert!(source.contains("@vertex\nfn vs_main()"));
    assert!(source.contains("@fragment\nfn fs_main()"));
    assert!(source.len() < SHADER.len());
}

#[test]
fn held_tron_look_is_specialised_to_its_branch() {
    let source = SceneKey::Held(33 + 5).source(SHADER).expect("the shader is well formed");
    assert!(source.contains("fn tron_selected(uv: vec2<f32>, t: f32) -> vec3<f32> {\n    { return vec3<f32>(5.0); }\n}"));
    assert!(source.contains("return tron_selected(uv, params.spatial.x);"));
    assert!(!source.contains("look =="));
    assert!(!source.contains("fn tron_look("));
}

#[test]
fn unmatched_looks_take_the_else_branch() {
    let source = SceneKey::Held(33 + 7).source(SHADER).expect("the shader is well formed");
    assert!(source.contains("{ return vec3<f32>(9.0); }"));
    assert!(!source.contains("vec3<f32>(1.0)"));
}

#[test]
fn collections_compile_both_blended_looks() {
    let source = SceneKey::Collection(2, 5).source(SHADER).expect("the shader is well formed");
    assert!(source.contains("fn tron_outgoing("));
    assert!(source.contains("fn tron_incoming("));
    assert!(source.contains("let primary_id = 32u;"));
    assert!(source.contains("return mix(outgoing, tron_incoming(uv, params.spatial.x), blend);"));
    assert!(!source.contains("fn tron_look("));
}

#[test]
fn scene_keys_follow_chapters_and_dimensions() {
    assert_eq!(SceneKey::for_scene(7, 0, 0, false), SceneKey::Held(7));
    assert_eq!(SceneKey::for_scene(60, 0, 0, false), SceneKey::Held(52));
    assert_eq!(SceneKey::for_scene(32, 3, 1, false), SceneKey::Held(33 + 10));
    assert_eq!(
        SceneKey::for_scene(32, 3, 2, true),
        SceneKey::Collection(variant(3, 2), variant(4, 2))
    );
    assert_eq!(
        SceneKey::upcoming(3, 0, false),
        SceneKey::Collection(3, 4)
    );
    assert_eq!(SceneKey::upcoming(15, 0, true), SceneKey::Held(33));
}

#[test]
fn variants_cycle_through_their_dimension() {
    assert_eq!(variant(0, 1), 4);
    assert_eq!(variant(9, 1), 4);
    assert_eq!(variant(4, 2), 6);
    assert_eq!(variant(17, 0), 1);
}

#[test]
fn malformed_shaders_are_refused() {
    // No dispatch function at all.
    assert_eq!(SceneKey::Held(3).source("fn vs_main() -> f32 { return 1.0; }"), None);
    // A Tron look whose chain never closes its block.
    let unclosed = SHADER.replace("else { return vec3<f32>(9.0); }", "else { return vec3<f32>(9.0);");
    assert_eq!(SceneKey::Held(33 + 5).source(&unclosed), None);
    // A library scene missing from the dispatch.
    assert_eq!(SceneKey::Held(4).source(SHADER), None);
}
