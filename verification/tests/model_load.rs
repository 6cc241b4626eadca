use open_gl_rs::math::Vector3D;
use open_gl_rs::mesh::{Texture, TextureType, Vertex};
use open_gl_rs::math::Vector2D;
use open_gl_rs::model::{directory, join, LoadError, Model};
use open_gl_rs::scene::graph::{collect_mesh_order, Face, Mesh as SceneMesh, Node, Scene};
use open_gl_rs::scene::material::{AiTextureType, Material, MaterialTexture};

fn v(x: u32) -> Vector3D {
    Vector3D::new(x, x + 1, x + 2)
}

fn node(name: &str, meshes: Vec<u32>, children: Vec<Node>) -> Node {
    Node { name: String::from(name), meshes, children }
}

fn material(slots: &[(AiTextureType, &str)]) -> Material {
    Material {
        textures: slots
            .iter()
            .map(|(t, p)| MaterialTexture { tex_type: *t, path: String::from(*p) })
            .collect(),
    }
}

fn scene_mesh(n: u32, material_index: u32, with_tc: bool) -> SceneMesh {
    let vertices: Vec<Vector3D> = (0..n).map(|i| v(10 * i)).collect();
    let normals: Vec<Vector3D> = (0..n).map(|i| v(100 + i)).collect();
    SceneMesh {
        vertices,
        normals,
        texture_coords: if with_tc { Some((0..n).map(|i| v(1000 + i)).collect()) } else { None },
        faces: vec![Face { indices: vec![0, 1, 2] }, Face { indices: vec![2, 1] }],
        material_index,
    }
}

fn test_scene() -> Scene {
    // root places mesh 2; child A places 0 and 1; A's child places 1 again; child B places 2
    let root = node(
        "root",
        vec![2],
        vec![
            node("a", vec![0, 1], vec![node("a1", vec![1], vec![])]),
            node("b", vec![2], vec![]),
        ],
    );
    Scene {
        flags: 0,
        root,
        meshes: vec![scene_mesh(3, 0, true), scene_mesh(2, 1, false), scene_mesh(1, 2, true)],
        materials: vec![
            material(&[
                (AiTextureType::Diffuse, "diffuse.png"),
                (AiTextureType::Specular, "spec.png"),
                (AiTextureType::Normals, "normal.png"),
            ]),
            material(&[
                (AiTextureType::Specular, "diffuse.png"),
                (AiTextureType::Diffuse, "other.png"),
            ]),
            material(&[(AiTextureType::Diffuse, "/abs/tex.png")]),
        ],
    }
}

#[test]
fn directory_of_a_path() {
    assert_eq!(directory("models/backpack/backpack.obj"), "models/backpack");
    assert_eq!(directory("/x.obj"), "");
    assert_eq!(directory("a//b"), "a/");
    assert_eq!(directory("dir/"), "dir");
}

#[test]
fn join_resolves_like_std_path() {
    let cases = [
        ("models/backpack", "diffuse.jpg"),
        ("models/backpack/", "diffuse.jpg"),
        ("", "diffuse.jpg"),
        ("models", "/abs/x.png"),
        ("models", "sub/x.png"),
        ("models", ""),
        ("/", "x"),
    ];
    for (dir, p) in cases {
        let expected = std::path::Path::new(dir).join(p);
        assert_eq!(join(dir, p), expected.to_str().unwrap(), "{:?} + {:?}", dir, p);
    }
}

#[test]
fn load_collects_meshes_in_depth_first_order() {
    let scene = test_scene();
    let plan = Model::load(&scene, "models/house/house.obj").unwrap();
    // order: root's 2, a's 0 and 1, a1's 1, b's 2
    let counts: Vec<usize> = plan.meshes.iter().map(|m| m.vertices.len()).collect();
    assert_eq!(counts, vec![1, 3, 2, 2, 1]);
    let m = &plan.meshes[1];
    assert_eq!(
        m.vertices[2],
        Vertex { position: v(20), normal: v(102), tex_coords: Vector2D::new(1002, 1003) }
    );
    assert_eq!(m.indices, vec![0, 1, 2, 2, 1]);
    let no_tc = &plan.meshes[2];
    assert_eq!(no_tc.vertices[1].tex_coords, Vector2D::new(0, 0));
}

#[test]
fn load_requests_each_image_once_in_order_of_first_use() {
    let scene = test_scene();
    let plan = Model::load(&scene, "models/house/house.obj").unwrap();
    let images: Vec<(String, TextureType)> =
        plan.images.iter().map(|r| (r.path.clone(), r.texture_type)).collect();
    assert_eq!(
        images,
        vec![
            (String::from("/abs/tex.png"), TextureType::Diffuse),
            (String::from("models/house/diffuse.png"), TextureType::Diffuse),
            (String::from("models/house/spec.png"), TextureType::Specular),
            (String::from("models/house/other.png"), TextureType::Diffuse),
        ]
    );
    let slots: Vec<Vec<usize>> = plan.meshes.iter().map(|m| m.texture_slots.clone()).collect();
    // mesh 1's material lists other.png as diffuse and diffuse.png as specular:
    // diffuse textures come first; diffuse.png keeps the role of its first use
    assert_eq!(slots, vec![vec![0], vec![1, 2], vec![3, 1], vec![3, 1], vec![0]]);
}

#[test]
fn finish_gives_meshes_their_gl_textures() {
    let scene = test_scene();
    let plan = Model::load(&scene, "models/house/house.obj").unwrap();
    let model = plan.finish(&vec![40, 41, 42, 43]);
    assert_eq!(model.meshes.len(), 5);
    assert_eq!(
        model.meshes[2].textures,
        vec![
            Texture { id: 43, texture_type: TextureType::Diffuse },
            Texture { id: 41, texture_type: TextureType::Diffuse },
        ]
    );
    assert_eq!(model.meshes[1].textures[1], Texture { id: 42, texture_type: TextureType::Specular });
    assert_eq!(model.meshes[1].indices, vec![0, 1, 2, 2, 1]);
    assert_eq!(model.meshes[1].vertices, plan.meshes[1].vertices);
    assert!(model.meshes.iter().all(|m| m.gl_objects() == (0, 0, 0)));
}

#[test]
fn load_refuses_an_incomplete_scene() {
    let mut scene = test_scene();
    scene.flags = 0x1;
    assert_eq!(Model::load(&scene, "models/house/house.obj"), Err(LoadError::IncompleteScene));
}

#[test]
fn load_of_an_empty_scene() {
    let scene = Scene {
        flags: 0,
        root: node("root", vec![], vec![]),
        meshes: vec![],
        materials: vec![],
    };
    let plan = Model::load(&scene, "/only.obj").unwrap();
    assert!(plan.meshes.is_empty());
    assert!(plan.images.is_empty());
    assert!(plan.finish(&vec![]).meshes.is_empty());
}

#[test]
fn loadable_scenes_have_what_placed_meshes_need() {
    assert!(test_scene().is_loadable());

    let mut bad_index = test_scene();
    bad_index.root.children[1].meshes.push(7);
    assert!(!bad_index.is_loadable());

    let mut few_normals = test_scene();
    few_normals.meshes[0].normals.pop();
    assert!(!few_normals.is_loadable());

    let mut few_tex_coords = test_scene();
    if let Some(tc) = few_tex_coords.meshes[2].texture_coords.as_mut() {
        tc.clear();
    }
    assert!(!few_tex_coords.is_loadable());

    let mut no_material = test_scene();
    no_material.meshes[1].material_index = 3;
    assert!(!no_material.is_loadable());

    // a mesh that no node places is never read
    let mut unplaced = test_scene();
    unplaced.meshes.push(SceneMesh {
        vertices: vec![v(1)],
        normals: vec![],
        texture_coords: None,
        faces: vec![],
        material_index: 99,
    });
    assert!(unplaced.is_loadable());
}

#[test]
fn mesh_order_is_depth_first() {
    let scene = test_scene();
    let mut order = vec![42];
    collect_mesh_order(&scene.root, &mut order);
    assert_eq!(order, vec![42, 2, 0, 1, 1, 2]);
}
