use lchart::error::ChartError;
use lchart::render::{
    GlCommand, Renderer, FRAGMENT_SHADER_SOURCE, MATRIX_UNIFORM, POSITION_ATTRIBUTE,
    VERTEX_SHADER_SOURCE,
};

#[test]
fn missing_attribute_is_refused() {
    let err = Renderer::from_locations(-1, true).err().unwrap();
    assert_eq!(err, ChartError::AttributeLookup { name: String::from("a_position") });
    assert_eq!(POSITION_ATTRIBUTE, "a_position");
}

#[test]
fn new_renderer_holds_a_square() {
    let r = Renderer::from_locations(3, true).ok().unwrap();
    assert_eq!(r.vertex_slot(), 3);
    assert_eq!(r.point_count(), 4);
    assert_eq!(r.indices(), &vec![0u16, 1, 2, 3]);
}

#[test]
fn geometry_is_replaced() {
    let mut r = Renderer::from_locations(0, true).ok().unwrap();
    assert_eq!(r.set_geometry(5, vec![0, 1, 2, 3, 4]), Ok(()));
    assert_eq!(r.point_count(), 5);
    assert_eq!(r.indices(), &vec![0u16, 1, 2, 3, 4]);
}

#[test]
fn geometry_with_a_stray_index_is_refused() {
    let mut r = Renderer::from_locations(0, true).ok().unwrap();
    assert_eq!(r.set_geometry(3, vec![0, 1, 3]), Err(ChartError::InvalidSampleCount));
    assert_eq!(r.point_count(), 4);
    assert_eq!(r.indices(), &vec![0u16, 1, 2, 3]);
    assert_eq!(
        r.set_geometry(70000, vec![0u16; 65537]),
        Err(ChartError::InvalidSampleCount)
    );
}

#[test]
fn draw_issues_the_full_sequence() {
    let mut r = Renderer::from_locations(2, true).ok().unwrap();
    r.set_geometry(6, vec![0, 1, 2, 3, 4, 5]).unwrap();
    let cmds = r.draw_plan(Some((640, 480))).unwrap();
    assert_eq!(
        cmds,
        vec![
            GlCommand::UseProgram,
            GlCommand::EnableAttribute { slot: 2 },
            GlCommand::UploadVertices,
            GlCommand::UploadIndices,
            GlCommand::Viewport { width: 640, height: 480 },
            GlCommand::Clear,
            GlCommand::AttributePointer { slot: 2, components: 2, stride: 0, offset: 0 },
            GlCommand::SetMatrix,
            GlCommand::DrawLineStrip { count: 6 },
        ]
    );
}

#[test]
fn huge_surface_is_clamped() {
    let r = Renderer::from_locations(0, true).ok().unwrap();
    let cmds = r.draw_plan(Some((u32::MAX, 7))).unwrap();
    assert_eq!(cmds[4], GlCommand::Viewport { width: i32::MAX, height: 7 });
}

#[test]
fn draw_without_uniform_fails() {
    let r = Renderer::from_locations(0, false).ok().unwrap();
    assert_eq!(
        r.draw_plan(Some((10, 10))),
        Err(ChartError::UniformLookup { name: String::from("u_matrix") })
    );
    assert_eq!(
        r.draw_plan(Some((1, 1))),
        Err(ChartError::UniformLookup { name: MATRIX_UNIFORM.to_string() })
    );
    // an unreachable surface is reported first
    assert_eq!(r.draw_plan(None), Err(ChartError::SurfaceUnavailable));
}

#[test]
fn draw_without_surface_fails() {
    let r = Renderer::from_locations(0, true).ok().unwrap();
    assert_eq!(r.draw_plan(None), Err(ChartError::SurfaceUnavailable));
}

#[test]
fn shaders_name_the_attribute_and_uniform() {
    assert!(VERTEX_SHADER_SOURCE.contains("attribute vec2 a_position;"));
    assert!(VERTEX_SHADER_SOURCE.contains("uniform mat3 u_matrix;"));
    assert!(FRAGMENT_SHADER_SOURCE.contains("gl_FragColor = vec4(1.0, 1.0, 1.0, 1.0);"));
}
