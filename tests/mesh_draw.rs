use learn_opengl::mesh::{
    index_data, sampler_uniform_name, vertex_attributes, DrawCommand, Mesh, MeshBuffers, Texture,
    TextureType, VertexAttribute, VERTEX_STRIDE,
};
use learn_opengl::shader::{after_link, LinkDecision, Shader};

fn program(handle: u32) -> Shader {
    match after_link(handle, true, String::new()) {
        LinkDecision::Ready(s) => s,
        other => panic!("expected a ready program, got {:?}", other),
    }
}

fn buffers() -> MeshBuffers {
    MeshBuffers { vao: 11, vbo: 12, ebo: 13 }
}

#[test]
fn sampler_names_follow_role_and_unit() {
    assert_eq!(sampler_uniform_name(TextureType::Diffuse, 0), "material.texture_diffuse0");
    assert_eq!(sampler_uniform_name(TextureType::Specular, 1), "material.texture_specular1");
    assert_eq!(sampler_uniform_name(TextureType::Diffuse, 10), "material.texture_diffuse10");
    assert_eq!(sampler_uniform_name(TextureType::Specular, 305), "material.texture_specular305");
}

#[test]
fn role_names() {
    assert_eq!(TextureType::Diffuse.role(), "texture_diffuse");
    assert_eq!(TextureType::Specular.role(), "texture_specular");
}

#[test]
fn vertex_layout_offsets_and_stride() {
    assert_eq!(VERTEX_STRIDE, 32);
    assert_eq!(
        vertex_attributes(),
        vec![
            VertexAttribute { location: 0, components: 3, offset: 0 },
            VertexAttribute { location: 1, components: 3, offset: 12 },
            VertexAttribute { location: 2, components: 2, offset: 24 },
        ]
    );
}

#[test]
fn index_data_converts_each_index() {
    assert_eq!(index_data(&vec![0, 1, 2, 2, 3, 0]), Some(vec![0u32, 1, 2, 2, 3, 0]));
    assert_eq!(index_data(&vec![]), Some(vec![]));
}

#[test]
fn index_data_refuses_index_beyond_32_bits() {
    let big = (u32::MAX as usize) + 1;
    assert_eq!(index_data(&vec![0, big, 1]), None);
    assert_eq!(index_data(&vec![u32::MAX as usize]), Some(vec![u32::MAX]));
}

#[test]
fn mesh_keeps_what_it_was_given() {
    let t = Texture::new(5, TextureType::Specular);
    let m = Mesh::new(4, vec![0, 1, 2, 2, 3, 0], vec![t], buffers());
    assert_eq!(m.vertex_count(), 4);
    assert_eq!(m.indices(), &vec![0, 1, 2, 2, 3, 0]);
    assert_eq!(m.textures(), &vec![t]);
    assert_eq!(m.buffers(), buffers());
}

#[test]
fn untextured_draw_binds_nothing_and_draws_all_indices() {
    let m = Mesh::new(3, vec![0, 1, 2, 2, 1, 0], vec![], buffers());
    let cmds = m.draw(&program(21));
    assert_eq!(
        cmds,
        vec![
            DrawCommand::UseProgram(21),
            DrawCommand::BindVertexArray(11),
            DrawCommand::DrawElements(6),
            DrawCommand::BindVertexArray(0),
        ]
    );
}

#[test]
fn textured_draw_binds_each_texture_to_its_unit() {
    let textures = vec![
        Texture::new(40, TextureType::Diffuse),
        Texture::new(41, TextureType::Specular),
        Texture::new(42, TextureType::Diffuse),
    ];
    let m = Mesh::new(3, vec![0, 1, 2], textures, buffers());
    let cmds = m.draw(&program(2));
    assert_eq!(
        cmds,
        vec![
            DrawCommand::UseProgram(2),
            DrawCommand::ActiveTexture(0),
            DrawCommand::BindTexture(40),
            DrawCommand::SetSampler { name: "material.texture_diffuse0".to_string(), unit: 0 },
            DrawCommand::ActiveTexture(1),
            DrawCommand::BindTexture(41),
            DrawCommand::SetSampler { name: "material.texture_specular1".to_string(), unit: 1 },
            DrawCommand::ActiveTexture(2),
            DrawCommand::BindTexture(42),
            DrawCommand::SetSampler { name: "material.texture_diffuse2".to_string(), unit: 2 },
            DrawCommand::BindVertexArray(11),
            DrawCommand::DrawElements(3),
            DrawCommand::BindVertexArray(0),
        ]
    );
}

#[test]
fn draw_of_empty_mesh_still_issues_draw() {
    let m = Mesh::new(0, vec![], vec![], buffers());
    let cmds = m.draw(&program(1));
    assert_eq!(cmds.len(), 4);
    assert_eq!(cmds[2], DrawCommand::DrawElements(0));
}
