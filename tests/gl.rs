use webgl_sketches::gl::{
    AttributeLocation, AttributeType, BuildStep, Dimension, Face, GlCommand, Primitive,
    ProgramBuilder, ProgramError, RenderOptions, Side, StageReport, Winding,
};

fn ok() -> StageReport {
    StageReport { created: true, succeeded: true, info_log: None }
}

fn options(side: Side, vertex_count: i32) -> RenderOptions {
    RenderOptions { primitive: Primitive::Triangles, side, vertex_count }
}

fn linked(types: Vec<AttributeType>, indices: &Option<Vec<u16>>, opts: RenderOptions) -> ProgramBuilder {
    let mut builder = ProgramBuilder::new(types, indices, opts);
    while builder.step() != BuildStep::Linked {
        builder = builder.report(ok()).unwrap();
    }
    builder
}

#[test]
fn components_follow_shape() {
    assert_eq!(AttributeType::Scalar.num_of_components(), 1);
    assert_eq!(AttributeType::Vector(Dimension::D2).num_of_components(), 2);
    assert_eq!(AttributeType::Vector(Dimension::D4).num_of_components(), 4);
    assert_eq!(AttributeType::Matrix(Dimension::D3, Dimension::D4).num_of_components(), 12);
    assert_eq!(AttributeType::Matrix(Dimension::D4, Dimension::D4).num_of_components(), 16);
}

#[test]
fn vector3_with_nine_values_is_three_vertices() {
    assert_eq!(AttributeType::Vector(Dimension::D3).vertex_count(9), Some(3));
}

#[test]
fn vertex_count_rejects_partial_vertices() {
    assert_eq!(AttributeType::Vector(Dimension::D3).vertex_count(10), None);
    assert_eq!(AttributeType::Matrix(Dimension::D2, Dimension::D2).vertex_count(8), Some(2));
    assert_eq!(AttributeType::Scalar.vertex_count(0), Some(0));
}

#[test]
fn location_resolution() {
    let t = AttributeType::Vector(Dimension::D2);
    assert_eq!(AttributeLocation::resolve(3, t).location, Some(3));
    assert_eq!(AttributeLocation::resolve(-1, t).location, None);
    assert_eq!(AttributeLocation::resolve(0, t).num_of_components(), 2);
}

#[test]
fn build_runs_compile_compile_link() {
    let b = ProgramBuilder::new(vec![], &None, options(Side::Front, 3));
    assert_eq!(b.step(), BuildStep::CompileVertex);
    let b = b.report(ok()).unwrap();
    assert_eq!(b.step(), BuildStep::CompileFragment);
    let b = b.report(ok()).unwrap();
    assert_eq!(b.step(), BuildStep::Link);
    let b = b.report(ok()).unwrap();
    assert_eq!(b.step(), BuildStep::Linked);
}

#[test]
fn invalid_vertex_shader_is_compile_error() {
    let b = ProgramBuilder::new(vec![], &None, options(Side::Front, 3));
    let report = StageReport {
        created: true,
        succeeded: false,
        info_log: Some("ERROR: 0:1: 'vec9' : syntax error".to_string()),
    };
    match b.report(report) {
        Err(ProgramError::ShaderCompileError(log)) => {
            assert_eq!(log, "ERROR: 0:1: 'vec9' : syntax error")
        }
        _ => panic!("expected a compile error"),
    }
}

#[test]
fn invalid_fragment_shader_without_log_is_compile_error() {
    let b = ProgramBuilder::new(vec![], &None, options(Side::Front, 3)).report(ok()).unwrap();
    let report = StageReport { created: true, succeeded: false, info_log: None };
    assert_eq!(
        b.report(report).err(),
        Some(ProgramError::ShaderCompileError("Unknown error creating shader".to_string()))
    );
}

#[test]
fn shader_that_cannot_be_created_is_compile_error() {
    let b = ProgramBuilder::new(vec![], &None, options(Side::Front, 3));
    let report = StageReport { created: false, succeeded: false, info_log: None };
    assert_eq!(
        b.report(report).err(),
        Some(ProgramError::ShaderCompileError("Unable to create shader object".to_string()))
    );
}

#[test]
fn failed_link_is_link_error() {
    let b = ProgramBuilder::new(vec![], &None, options(Side::Front, 3));
    let b = b.report(ok()).unwrap().report(ok()).unwrap();
    let report = StageReport { created: true, succeeded: false, info_log: Some("link failed".to_string()) };
    assert_eq!(b.report(report).err(), Some(ProgramError::ProgramLinkError("link failed".to_string())));
}

#[test]
fn failed_link_without_log_is_link_error() {
    let b = ProgramBuilder::new(vec![], &None, options(Side::Front, 3));
    let b = b.report(ok()).unwrap().report(ok()).unwrap();
    let report = StageReport { created: true, succeeded: false, info_log: None };
    assert_eq!(
        b.report(report).err(),
        Some(ProgramError::ProgramLinkError("Unknown error creating program object".to_string()))
    );
}

#[test]
fn one_vector2_attribute_draws_three_vertices_once() {
    let types = vec![AttributeType::Vector(Dimension::D2)];
    let values: Vec<f32> = vec![-1.0, -1.0, 3.0, -1.0, -1.0, 3.0];
    assert_eq!(types[0].vertex_count(values.len()), Some(3));
    let program = linked(types, &None, options(Side::Double, 3)).finish(&vec![0]);
    let calls = program.draw();
    let draws: Vec<&GlCommand> = calls
        .iter()
        .filter(|c| matches!(c, GlCommand::DrawArrays { .. } | GlCommand::DrawElements { .. }))
        .collect();
    assert_eq!(draws.len(), 1);
    assert_eq!(*draws[0], GlCommand::DrawArrays { mode: Primitive::Triangles, first: 0, count: 3 });
    assert_eq!(calls.last(), Some(&GlCommand::DrawArrays { mode: Primitive::Triangles, first: 0, count: 3 }));
}

#[test]
fn indexed_program_draws_all_indices() {
    let indices = Some(vec![0u16, 1, 2, 0, 2, 3]);
    let program = linked(vec![AttributeType::Vector(Dimension::D3)], &indices, options(Side::Front, 99))
        .finish(&vec![2]);
    assert_eq!(program.index_count(), Some(6));
    assert_eq!(
        program.draw(),
        vec![
            GlCommand::EnableCullFace,
            GlCommand::FrontFace(Winding::CounterClockwise),
            GlCommand::CullFace(Face::Back),
            GlCommand::DrawElements { mode: Primitive::Triangles, count: 6 },
        ]
    );
}

#[test]
fn back_side_reverses_winding() {
    let program = linked(vec![], &None, options(Side::Back, 3)).finish(&vec![]);
    assert_eq!(
        program.draw(),
        vec![
            GlCommand::EnableCullFace,
            GlCommand::FrontFace(Winding::Clockwise),
            GlCommand::CullFace(Face::Back),
            GlCommand::DrawArrays { mode: Primitive::Triangles, first: 0, count: 3 },
        ]
    );
}

#[test]
fn prepare_frame_binds_each_attribute_then_indices() {
    let types = vec![
        AttributeType::Vector(Dimension::D3),
        AttributeType::Vector(Dimension::D4),
        AttributeType::Vector(Dimension::D3),
    ];
    let indices = Some(vec![0u16, 1, 2]);
    let program = linked(types, &indices, options(Side::Front, 3)).finish(&vec![0, -1, 2]);
    assert_eq!(
        program.prepare_frame(),
        vec![
            GlCommand::UseProgram,
            GlCommand::BindArrayBuffer(0),
            GlCommand::VertexAttribPointer { location: 0, size: 3 },
            GlCommand::EnableVertexAttribArray(0),
            GlCommand::BindArrayBuffer(2),
            GlCommand::VertexAttribPointer { location: 2, size: 3 },
            GlCommand::EnableVertexAttribArray(2),
            GlCommand::BindElementArrayBuffer,
        ]
    );
}

#[test]
fn set_attributes_without_indices() {
    let program = linked(vec![AttributeType::Scalar], &None, options(Side::Front, 1)).finish(&vec![5]);
    assert_eq!(
        program.set_attributes(),
        vec![
            GlCommand::BindArrayBuffer(0),
            GlCommand::VertexAttribPointer { location: 5, size: 1 },
            GlCommand::EnableVertexAttribArray(5),
        ]
    );
    assert_eq!(program.attributes().len(), 1);
    assert_eq!(program.options().vertex_count, 1);
}
