use scene_render::error::{ConstructionFailure, ShaderStage};
use scene_render::version::{pass_through, pick_source, set_source, Glsl, OpenGl, VERSIONS};
use shader_version::glsl::GLSL;
use shader_version::{OpenGL, Shaders};

const ALL_GLSL: [Glsl; 12] = [
    Glsl::V1_10,
    Glsl::V1_20,
    Glsl::V1_30,
    Glsl::V1_40,
    Glsl::V1_50,
    Glsl::V3_30,
    Glsl::V4_00,
    Glsl::V4_10,
    Glsl::V4_20,
    Glsl::V4_30,
    Glsl::V4_40,
    Glsl::V4_50,
];

const ALL_OPENGL: [OpenGl; 12] = [
    OpenGl::V2_0,
    OpenGl::V2_1,
    OpenGl::V3_0,
    OpenGl::V3_1,
    OpenGl::V3_2,
    OpenGl::V3_3,
    OpenGl::V4_0,
    OpenGl::V4_1,
    OpenGl::V4_2,
    OpenGl::V4_3,
    OpenGl::V4_4,
    OpenGl::V4_5,
];

#[test]
fn versions_are_ranked_in_order() {
    assert_eq!(VERSIONS, 12);
    for (i, v) in ALL_GLSL.iter().enumerate() {
        assert_eq!(v.rank() as usize, i);
        assert_eq!(Glsl::from_rank(i as u8), *v);
    }
    for (i, v) in ALL_OPENGL.iter().enumerate() {
        assert_eq!(v.rank() as usize, i);
    }
}

#[test]
fn opengl_version_gives_the_shading_language_of_its_rank() {
    assert_eq!(OpenGl::V2_0.to_glsl(), Glsl::V1_10);
    assert_eq!(OpenGl::V2_1.to_glsl(), Glsl::V1_20);
    assert_eq!(OpenGl::V3_2.to_glsl(), Glsl::V1_50);
    assert_eq!(OpenGl::V3_3.to_glsl(), Glsl::V3_30);
    assert_eq!(OpenGl::V4_5.to_glsl(), Glsl::V4_50);
    for v in ALL_OPENGL.iter() {
        assert_eq!(v.to_glsl().rank(), v.rank());
    }
    assert_eq!(OpenGL::V3_2.to_glsl(), GLSL::V1_50);
    assert_eq!(GLSL::V1_50 as u8, Glsl::V1_50.rank());
    assert_eq!(GLSL::V4_50 as u8, Glsl::V4_50.rank());
}

#[test]
fn pass_through_table_serves_from_1_50_on() {
    let shaders = pass_through("void main() {}");
    for v in ALL_GLSL.iter() {
        let picked = pick_source(ShaderStage::Vertex, *v, &shaders);
        if v.rank() >= 4 {
            assert_eq!(picked.unwrap(), "void main() {}");
        } else {
            assert!(matches!(
                picked,
                Err(ConstructionFailure::NoCompatibleShader(ShaderStage::Vertex))
            ));
        }
    }
}

#[test]
fn empty_table_serves_nothing() {
    let shaders: Shaders<GLSL, str> = Shaders::new();
    for v in ALL_GLSL.iter() {
        assert!(matches!(
            pick_source(ShaderStage::Fragment, *v, &shaders),
            Err(ConstructionFailure::NoCompatibleShader(ShaderStage::Fragment))
        ));
    }
}

#[test]
fn closest_version_not_above_the_request_is_picked() {
    let mut shaders: Shaders<GLSL, str> = Shaders::new();
    set_source(&mut shaders, Glsl::V1_20, "one twenty");
    set_source(&mut shaders, Glsl::V1_50, "one fifty");
    set_source(&mut shaders, Glsl::V4_10, "four ten");
    let pick = |v: Glsl| pick_source(ShaderStage::Vertex, v, &shaders).ok();
    assert_eq!(pick(Glsl::V1_10), None);
    assert_eq!(pick(Glsl::V1_20), Some("one twenty"));
    assert_eq!(pick(Glsl::V1_30), Some("one twenty"));
    assert_eq!(pick(Glsl::V1_40), Some("one twenty"));
    assert_eq!(pick(Glsl::V1_50), Some("one fifty"));
    assert_eq!(pick(Glsl::V3_30), Some("one fifty"));
    assert_eq!(pick(Glsl::V4_00), Some("one fifty"));
    assert_eq!(pick(Glsl::V4_10), Some("four ten"));
    assert_eq!(pick(Glsl::V4_50), Some("four ten"));
}

#[test]
fn sources_below_1_50_do_not_serve_1_50_and_above() {
    let mut shaders: Shaders<GLSL, str> = Shaders::new();
    set_source(&mut shaders, Glsl::V1_20, "one twenty");
    assert_eq!(pick_source(ShaderStage::Vertex, Glsl::V1_40, &shaders).ok(), Some("one twenty"));
    assert!(pick_source(ShaderStage::Vertex, Glsl::V1_50, &shaders).is_err());
    assert!(pick_source(ShaderStage::Vertex, Glsl::V4_50, &shaders).is_err());
}

#[test]
fn setting_a_source_again_replaces_it() {
    let mut shaders: Shaders<GLSL, str> = Shaders::new();
    set_source(&mut shaders, Glsl::V3_30, "first");
    set_source(&mut shaders, Glsl::V3_30, "second");
    assert_eq!(pick_source(ShaderStage::Vertex, Glsl::V3_30, &shaders).ok(), Some("second"));
}

#[test]
fn library_picks_what_the_table_itself_picks() {
    let sets: [&[usize]; 6] = [&[], &[0], &[4], &[1, 3, 5], &[0, 4, 11], &[2, 6, 7, 10]];
    let outside = [
        GLSL::V1_10,
        GLSL::V1_20,
        GLSL::V1_30,
        GLSL::V1_40,
        GLSL::V1_50,
        GLSL::V3_30,
        GLSL::V4_00,
        GLSL::V4_10,
        GLSL::V4_20,
        GLSL::V4_30,
        GLSL::V4_40,
        GLSL::V4_50,
    ];
    let names = ["a", "b", "c", "d", "e", "f", "g", "h", "i", "j", "k", "l"];
    for set in sets.iter() {
        let mut shaders: Shaders<GLSL, str> = Shaders::new();
        for k in set.iter() {
            set_source(&mut shaders, ALL_GLSL[*k], names[*k]);
        }
        for (i, v) in ALL_GLSL.iter().enumerate() {
            let low = if i < 4 { 0 } else { 4 };
            let expected = set.iter().filter(|k| low <= **k && **k <= i).max().map(|k| names[*k]);
            assert_eq!(pick_source(ShaderStage::Vertex, *v, &shaders).ok(), expected);
            assert_eq!(shaders.get(outside[i]), expected);
        }
    }
}
