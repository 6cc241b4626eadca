use open_gl_rs::camera::CameraMovement;
use open_gl_rs::math::{Vector2D, Vector3D};
use open_gl_rs::mesh::{
    attrib_ptr_data, GlCommand, Mesh, Texture, TextureType, Vertex, VertexDataType, TEXTURE0,
    VERTEX_STRIDE,
};
use open_gl_rs::model::Model;
use open_gl_rs::shader::Shader;
use open_gl_rs::text::push_decimal;

fn vertex(i: u32) -> Vertex {
    Vertex {
        position: Vector3D::new(i, i, i),
        normal: Vector3D::new(0, 0, 1),
        tex_coords: Vector2D::new(0, 0),
    }
}

fn set_int(program: u32, name: &str, value: i32) -> GlCommand {
    GlCommand::SetInt { program, name: String::from(name), value }
}

#[test]
fn decimal_text() {
    for n in [0u32, 7, 10, 42, 1000, 4294967295] {
        let mut s = String::from("x");
        push_decimal(&mut s, n);
        assert_eq!(s, format!("x{}", n));
    }
}

#[test]
fn new_mesh_keeps_its_data_and_has_no_gl_objects() {
    let tex = Texture { id: 9, texture_type: TextureType::Specular };
    let mesh = Mesh::new(vec![vertex(1), vertex(2)], vec![0, 1, 1], vec![tex]);
    assert_eq!(mesh.vertices, vec![vertex(1), vertex(2)]);
    assert_eq!(mesh.indices, vec![0, 1, 1]);
    assert_eq!(mesh.textures, vec![tex]);
    assert_eq!(mesh.gl_objects(), (0, 0, 0));
    let mut set_up = mesh;
    set_up.set_gl_objects(3, 4, 5);
    assert_eq!(set_up.gl_objects(), (3, 4, 5));
    assert_eq!(set_up.indices, vec![0, 1, 1]);
}

#[test]
fn mesh_draw_numbers_samplers_per_role() {
    let textures = vec![
        Texture { id: 11, texture_type: TextureType::Diffuse },
        Texture { id: 12, texture_type: TextureType::Specular },
        Texture { id: 13, texture_type: TextureType::Diffuse },
        Texture { id: 14, texture_type: TextureType::Diffuse },
    ];
    let mut mesh = Mesh::new(vec![vertex(0)], vec![0, 0, 0, 0, 0, 0], textures);
    mesh.set_gl_objects(5, 6, 7);
    let cmds = mesh.draw(&Shader { id: 3 });
    assert_eq!(
        cmds,
        vec![
            GlCommand::ActiveTexture(TEXTURE0),
            set_int(3, "material.texture_diffuse1", 0),
            GlCommand::ActiveTexture(TEXTURE0 + 1),
            set_int(3, "material.texture_specular1", 1),
            GlCommand::ActiveTexture(TEXTURE0 + 2),
            set_int(3, "material.texture_diffuse2", 2),
            GlCommand::ActiveTexture(TEXTURE0 + 3),
            set_int(3, "material.texture_diffuse3", 3),
            GlCommand::ActiveTexture(0),
            GlCommand::BindVertexArray(5),
            GlCommand::DrawElements { count: 6 },
            GlCommand::BindVertexArray(0),
        ]
    );
    assert_eq!(TEXTURE0, 0x84C0);
}

#[test]
fn mesh_draw_without_textures() {
    let mut mesh = Mesh::new(vec![], vec![], vec![]);
    mesh.set_gl_objects(2, 0, 0);
    let cmds = mesh.draw(&Shader { id: 1 });
    assert_eq!(
        cmds,
        vec![
            GlCommand::ActiveTexture(0),
            GlCommand::BindVertexArray(2),
            GlCommand::DrawElements { count: 0 },
            GlCommand::BindVertexArray(0),
        ]
    );
}

#[test]
fn mesh_draw_gives_each_texture_its_own_uniform() {
    let mut textures = Vec::new();
    for i in 0..25u32 {
        let t = if i % 3 == 0 { TextureType::Specular } else { TextureType::Diffuse };
        textures.push(Texture { id: i, texture_type: t });
    }
    let cmds = Mesh::new(vec![], vec![], textures).draw(&Shader { id: 1 });
    let mut names: Vec<String> = cmds
        .iter()
        .filter_map(|c| match c {
            GlCommand::SetInt { name, .. } => Some(name.clone()),
            _ => None,
        })
        .collect();
    assert_eq!(names.len(), 25);
    assert!(names.contains(&String::from("material.texture_diffuse16")));
    assert!(names.contains(&String::from("material.texture_specular9")));
    names.sort();
    names.dedup();
    assert_eq!(names.len(), 25);
}

#[test]
fn model_draw_is_each_mesh_in_turn() {
    let mut a = Mesh::new(vec![], vec![0, 1, 2], vec![Texture { id: 1, texture_type: TextureType::Diffuse }]);
    a.set_gl_objects(7, 0, 0);
    let mut b = Mesh::new(vec![], vec![3, 4, 5, 6, 7, 8], vec![]);
    b.set_gl_objects(8, 0, 0);
    let shader = Shader { id: 4 };
    let mut expected = a.draw(&shader);
    expected.extend(b.draw(&shader));
    let model = Model { meshes: vec![a, b] };
    assert_eq!(model.draw(&shader), expected);
    assert_eq!(Model { meshes: vec![] }.draw(&shader), vec![]);
}

#[test]
fn vertex_attribute_layout() {
    assert_eq!(attrib_ptr_data(VertexDataType::Position), (0, 0, 0));
    assert_eq!(attrib_ptr_data(VertexDataType::Normal), (1, 3, 12));
    assert_eq!(attrib_ptr_data(VertexDataType::TexCoords), (2, 2, 24));
    assert_eq!(VERTEX_STRIDE, 32);
}

#[test]
fn camera_movements_are_distinct() {
    let all = [
        CameraMovement::FORWARD,
        CameraMovement::BACKWARD,
        CameraMovement::LEFT,
        CameraMovement::RIGHT,
    ];
    for (i, a) in all.iter().enumerate() {
        for (j, b) in all.iter().enumerate() {
            assert_eq!(a == b, i == j);
        }
    }
}
