use open_gl_rs::math::{Color3D, Quaternion, Vector2D, Vector3D};
use open_gl_rs::scene::animation::{AnimBehaviour, Animation, NodeAnim, QuatKey, VectorKey};
use open_gl_rs::scene::camera::Camera;
use open_gl_rs::scene::graph::{Node, Scene};
use open_gl_rs::scene::light::{Light, LightSourceType};
use open_gl_rs::scene::material::{AiTextureType, Material, MaterialTexture};
use open_gl_rs::scene::texture::{Texel, Texture};

fn v3(x: f32, y: f32, z: f32) -> Vector3D {
    Vector3D::new(x.to_bits(), y.to_bits(), z.to_bits())
}

fn vkey(t: f64, x: f32) -> VectorKey {
    VectorKey { time: t.to_bits(), value: v3(x, 0.0, 0.0) }
}

fn qkey(t: f64, w: f32) -> QuatKey {
    QuatKey {
        time: t.to_bits(),
        value: Quaternion { w: w.to_bits(), x: 0, y: 0, z: 0 },
    }
}

fn node_anim() -> NodeAnim {
    NodeAnim {
        node_name: String::from("arm"),
        position_keys: vec![vkey(0.0, 1.0), vkey(1.0, 2.0), vkey(2.0, 3.0)],
        rotation_keys: vec![qkey(0.5, 1.0)],
        scaling_keys: vec![],
        pre_state: AnimBehaviour::Constant,
        post_state: AnimBehaviour::Repeat,
    }
}

#[test]
fn vector_and_quat_keys_give_their_values() {
    let k = vkey(1.5, 4.0);
    assert_eq!(k.value(), v3(4.0, 0.0, 0.0));
    assert_eq!(f64::from_bits(k.time()), 1.5);
    assert_eq!(f32::from_bits(k.value().x), 4.0);
    assert_eq!(f64::from_bits(k.time), 1.5);
    let q = qkey(0.25, -1.0);
    assert_eq!(f32::from_bits(q.value().w), -1.0);
    assert_eq!(f64::from_bits(q.time()), 0.25);
}

#[test]
fn node_anim_counts_and_iterates_its_keys() {
    let a = node_anim();
    assert_eq!(a.name(), "arm");
    assert_eq!(a.num_position_keys(), 3);
    assert_eq!(a.num_rotation_keys(), 1);
    assert_eq!(a.num_scaling_keys(), 0);
    assert_eq!(a.position_key_iter().len(), 3);
    assert_eq!(a.position_key_iter()[2], vkey(2.0, 3.0));
    assert_eq!(a.rotation_key_iter(), &[qkey(0.5, 1.0)][..]);
    assert!(a.scaling_key_iter().is_empty());
    assert_eq!(a.pre_state(), AnimBehaviour::Constant);
    assert_eq!(a.post_state(), AnimBehaviour::Repeat);
}

#[test]
fn node_anim_key_lookup_is_bounded_by_the_count() {
    let a = node_anim();
    assert_eq!(a.get_position_key(0), Some(vkey(0.0, 1.0)));
    assert_eq!(a.get_position_key(2), Some(vkey(2.0, 3.0)));
    assert_eq!(a.get_position_key(3), None);
    assert_eq!(a.get_rotation_key(0), Some(qkey(0.5, 1.0)));
    assert_eq!(a.get_rotation_key(1), None);
    assert_eq!(a.get_scaling_key(0), None);
    for (i, k) in a.position_key_iter().iter().enumerate() {
        assert_eq!(a.get_position_key(i), Some(*k));
    }
}

#[test]
fn animation_channels() {
    let anim = Animation {
        name: String::from("walk"),
        duration: 2.0f64.to_bits(),
        ticks_per_second: 25.0f64.to_bits(),
        channels: vec![node_anim()],
    };
    assert_eq!(anim.name(), "walk");
    assert_eq!(anim.num_channels(), 1);
    assert_eq!(f64::from_bits(anim.duration()), 2.0);
    assert_eq!(f64::from_bits(anim.ticks_per_second()), 25.0);
    assert_eq!(anim.channel_iter().len(), 1);
    assert_eq!(anim.get_node_anim(0).map(|c| c.name()), Some("arm"));
    assert!(anim.get_node_anim(1).is_none());
}

#[test]
fn light_getters() {
    let light = Light {
        name: String::from("sun"),
        light_type: LightSourceType::Directional,
        position: v3(1.0, 2.0, 3.0),
        direction: v3(0.0, -1.0, 0.0),
        up: v3(0.0, 0.0, 1.0),
        attenuation_constant: 1.0f32.to_bits(),
        attenuation_linear: 0.09f32.to_bits(),
        attenuation_quadratic: 0.032f32.to_bits(),
        color_diffuse: Color3D { r: 1.0f32.to_bits(), g: 0.5f32.to_bits(), b: 0 },
        color_specular: Color3D { r: 0, g: 0, b: 0 },
        color_ambient: Color3D { r: 0.1f32.to_bits(), g: 0.1f32.to_bits(), b: 0.1f32.to_bits() },
        angle_inner_cone: 0,
        angle_outer_cone: 0,
        size: Vector2D::new(2.0f32.to_bits(), 3.0f32.to_bits()),
    };
    assert_eq!(light.name(), "sun");
    assert_eq!(light.light_type(), LightSourceType::Directional);
    assert_eq!(light.position(), v3(1.0, 2.0, 3.0));
    assert_eq!(light.direction(), v3(0.0, -1.0, 0.0));
    assert_eq!(light.up(), v3(0.0, 0.0, 1.0));
    assert_eq!(f32::from_bits(light.color_diffuse().g), 0.5);
    assert_eq!(light.color_specular(), Color3D { r: 0, g: 0, b: 0 });
    assert_eq!(f32::from_bits(light.color_ambient().r), 0.1);
    assert_eq!(f32::from_bits(light.size().y), 3.0);
    assert_eq!(f32::from_bits(light.attenuation_constant()), 1.0);
    assert_eq!(f32::from_bits(light.attenuation_linear()), 0.09);
    assert_eq!(f32::from_bits(light.attenuation_quadratic()), 0.032);
    assert_eq!(light.angle_inner_cone(), 0);
    assert_eq!(light.angle_outer_cone(), 0);
}

#[test]
fn camera_getters() {
    let cam = Camera {
        name: String::from("main"),
        position: v3(0.0, 0.0, 3.0),
        up: v3(0.0, 1.0, 0.0),
        look_at: v3(0.0, 0.0, -1.0),
        horizontal_fov: 0.785f32.to_bits(),
        clip_plane_near: 0.1f32.to_bits(),
        clip_plane_far: 100.0f32.to_bits(),
        aspect: 1.5f32.to_bits(),
    };
    assert_eq!(cam.name(), "main");
    assert_eq!(cam.position(), v3(0.0, 0.0, 3.0));
    assert_eq!(cam.up(), v3(0.0, 1.0, 0.0));
    assert_eq!(cam.look_at(), v3(0.0, 0.0, -1.0));
    assert_eq!(f32::from_bits(cam.horizontal_fov()), 0.785);
    assert_eq!(f32::from_bits(cam.clip_plane_near()), 0.1);
    assert_eq!(f32::from_bits(cam.clip_plane_far()), 100.0);
    assert_eq!(f32::from_bits(cam.aspect()), 1.5);
}

fn slot(t: AiTextureType, p: &str) -> MaterialTexture {
    MaterialTexture { tex_type: t, path: String::from(p) }
}

#[test]
fn material_textures_by_role() {
    let mat = Material {
        textures: vec![
            slot(AiTextureType::Diffuse, "a.png"),
            slot(AiTextureType::Specular, "s.png"),
            slot(AiTextureType::Normals, "n.png"),
            slot(AiTextureType::Diffuse, "b.png"),
        ],
    };
    assert_eq!(mat.texture_count(AiTextureType::Diffuse), 2);
    assert_eq!(mat.texture_count(AiTextureType::Specular), 1);
    assert_eq!(mat.texture_count(AiTextureType::Height), 0);
    assert_eq!(mat.get_texture(AiTextureType::Diffuse, 0), Some(String::from("a.png")));
    assert_eq!(mat.get_texture(AiTextureType::Diffuse, 1), Some(String::from("b.png")));
    assert_eq!(mat.get_texture(AiTextureType::Diffuse, 2), None);
    assert_eq!(mat.get_texture(AiTextureType::Specular, 0), Some(String::from("s.png")));
    assert_eq!(mat.get_texture(AiTextureType::Normals, 0), Some(String::from("n.png")));
    assert_eq!(mat.get_texture(AiTextureType::NoTexture, 0), None);
    for t in [AiTextureType::Diffuse, AiTextureType::Specular, AiTextureType::Normals] {
        let n = mat.texture_count(t);
        for i in 0..n + 2 {
            assert_eq!(mat.get_texture(t, i).is_some(), i < n);
        }
    }
}

fn hint(bytes: &[u8]) -> [u8; 9] {
    let mut h = [0u8; 9];
    h[..bytes.len()].copy_from_slice(bytes);
    h
}

#[test]
fn texture_compressed_data_fits_width_bytes() {
    let tex = Texture {
        width: 22,
        height: 0,
        format_hint: hint(b"png"),
        data: vec![Texel { b: 1, g: 2, r: 3, a: 4 }; 5],
    };
    assert!(tex.is_compressed());
    assert_eq!(tex.width(), 22);
    assert_eq!(tex.height(), 0);
    assert_eq!(tex.data().len(), 5);
    assert!(tex.data().len() * 4 <= tex.width() as usize);
    assert_eq!(tex.format_hint(), "png");
}

#[test]
fn texture_uncompressed_data_is_width_times_height() {
    let tex = Texture {
        width: 2,
        height: 3,
        format_hint: hint(b"rgba8888"),
        data: vec![Texel { b: 0, g: 0, r: 0, a: 255 }; 6],
    };
    assert!(!tex.is_compressed());
    assert_eq!(tex.data().len(), 6);
    assert_eq!(tex.format_hint(), "rgba8888");
}

#[test]
fn texture_format_hint_stops_at_nul_and_rejects_bad_utf8() {
    let mut h = hint(b"jpg");
    h[5] = b'x';
    let tex = Texture { width: 0, height: 0, format_hint: h, data: vec![] };
    assert_eq!(tex.format_hint(), "jpg");
    let bad = Texture { width: 0, height: 0, format_hint: hint(&[0xff, 0xfe]), data: vec![] };
    assert_eq!(bad.format_hint(), "");
    let empty = Texture { width: 0, height: 0, format_hint: [0; 9], data: vec![] };
    assert_eq!(empty.format_hint(), "");
    let multi = Texture { width: 0, height: 0, format_hint: hint("é".as_bytes()), data: vec![] };
    assert_eq!(multi.format_hint(), "é");
}

#[test]
fn scene_incomplete_flag() {
    let mut scene = Scene {
        flags: 0,
        root: Node { name: String::from("root"), meshes: vec![], children: vec![] },
        meshes: vec![],
        materials: vec![],
    };
    assert!(!scene.is_incomplete());
    scene.flags = 0x1;
    assert!(scene.is_incomplete());
    scene.flags = 0x8;
    assert!(!scene.is_incomplete());
    scene.flags = 0x9;
    assert!(scene.is_incomplete());
}
