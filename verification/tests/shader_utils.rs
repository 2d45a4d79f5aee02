use scene_render::error::{ConstructionFailure, ShaderStage};
use scene_render::shader_utils::{attribute_location, compile_shader, find_nul, uniform_location};

#[test]
fn first_zero_byte_is_found() {
    assert_eq!(find_nul(""), None);
    assert_eq!(find_nul("color"), None);
    assert_eq!(find_nul("\0"), Some(0));
    assert_eq!(find_nul("co\0lor\0"), Some(2));
    assert_eq!(find_nul("h\u{e9}\0"), Some(3));
}

#[test]
fn compiled_shader_is_handed_on() {
    assert!(matches!(compile_shader(ShaderStage::Vertex, 5, true, None), Ok(5)));
    assert!(matches!(
        compile_shader(ShaderStage::Fragment, 6, true, Some("warning".to_string())),
        Ok(6)
    ));
}

#[test]
fn refused_shader_gives_its_log() {
    match compile_shader(ShaderStage::Fragment, 5, false, Some("0:1: syntax error".to_string())) {
        Err(ConstructionFailure::Compile(ShaderStage::Fragment, log)) => {
            assert_eq!(log, "0:1: syntax error")
        }
        _ => panic!("expected the log of the fragment shader"),
    }
    assert!(matches!(
        compile_shader(ShaderStage::Vertex, 5, false, None),
        Err(ConstructionFailure::CompileWithoutLog(ShaderStage::Vertex))
    ));
}

#[test]
fn negative_answer_means_that_the_name_is_missing() {
    assert!(matches!(attribute_location("pos", 0), Ok(0)));
    assert!(matches!(attribute_location("pos", 3), Ok(3)));
    assert!(matches!(attribute_location("pos", i32::MAX), Ok(2147483647)));
    match attribute_location("pos", -1) {
        Err(ConstructionFailure::AttributeMissing(name)) => assert_eq!(name, "pos"),
        _ => panic!("expected a missing attribute"),
    }
    assert!(matches!(uniform_location("color", 7), Ok(7)));
    match uniform_location("color", -1) {
        Err(ConstructionFailure::UniformMissing(name)) => assert_eq!(name, "color"),
        _ => panic!("expected a missing uniform"),
    }
    assert!(uniform_location("color", i32::MIN).is_err());
}
