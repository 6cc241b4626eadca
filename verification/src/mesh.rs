use vstd::prelude::*;

use crate::math::{Vector2D, Vector3D};
use crate::shader::Shader;
use crate::text::{decimal, lemma_decimal_injective, push_decimal};

verus! {

/// The GL enum of texture unit 0; unit `i` is `TEXTURE0 + i`.
pub const TEXTURE0: u32 = 0x84C0;

/// The size in bytes of one vertex in a vertex buffer: position, normal and
/// texture coordinates as consecutive single-precision floats.
pub const VERTEX_STRIDE: i32 = 32;

/// A vertex of a mesh. Components are IEEE-754 single-precision bit patterns.
#[derive(Clone, Copy, Debug, PartialEq, Eq, Structural)]
pub struct Vertex {
    pub position: Vector3D,
    pub normal: Vector3D,
    pub tex_coords: Vector2D,
}

/// The attributes of a vertex, as the vertex shader receives them.
#[derive(Clone, Copy, Debug, PartialEq, Eq, Structural)]
pub enum VertexDataType {
    Position,
    Normal,
    TexCoords,
}

/// The role of a texture bound to a mesh.
#[derive(Clone, Copy, Debug, PartialEq, Eq, Structural)]
pub enum TextureType {
    Diffuse,
    Specular,
}

/// A GL texture object and its role.
#[derive(Clone, Copy, Debug, PartialEq, Eq, Structural)]
pub struct Texture {
    pub id: u32,
    pub texture_type: TextureType,
}

/// A mesh: its vertices, the vertex indices of its triangles, its textures,
/// and the GL objects that hold its vertex data.
#[derive(Debug, PartialEq, Eq)]
pub struct Mesh {
    pub vertices: Vec<Vertex>,
    pub indices: Vec<u32>,
    pub textures: Vec<Texture>,
    vao: u32,
    vbo: u32,
    ebo: u32,
}

/// A GL call, as the renderer issues it.
#[derive(Debug, PartialEq, Eq)]
pub enum GlCommand {
    /// `glActiveTexture(unit)`
    ActiveTexture(u32),
    /// Sets the integer uniform `name` of shader program `program` to `value`.
    SetInt { program: u32, name: String, value: i32 },
    /// `glBindVertexArray(vao)`
    BindVertexArray(u32),
    /// `glDrawElements(GL_TRIANGLES, count, GL_UNSIGNED_INT, 0)`
    DrawElements { count: i32 },
}

/// What a `GlCommand` says, with the uniform name as text.
pub ghost enum GlCall {
    ActiveTexture(u32),
    SetInt { program: u32, name: Seq<char>, value: i32 },
    BindVertexArray(u32),
    DrawElements { count: i32 },
}

impl GlCommand {
    pub open spec fn call(&self) -> GlCall {
        match self {
            GlCommand::ActiveTexture(u) => GlCall::ActiveTexture(*u),
            GlCommand::SetInt { program, name, value } => GlCall::SetInt {
                program: *program,
                name: name@,
                value: *value,
            },
            GlCommand::BindVertexArray(v) => GlCall::BindVertexArray(*v),
            GlCommand::DrawElements { count } => GlCall::DrawElements { count: *count },
        }
    }
}

/// The calls a sequence of commands makes, in order.
pub open spec fn calls(cmds: Seq<GlCommand>) -> Seq<GlCall> {
    cmds.map_values(|c: GlCommand| c.call())
}

/// The number of textures of role `t` in `textures`.
pub open spec fn type_count(textures: Seq<Texture>, t: TextureType) -> nat
    decreases textures.len(),
{
    if textures.len() == 0 {
        0
    } else {
        type_count(textures.drop_last(), t) + if textures.last().texture_type == t {
            1nat
        } else {
            0nat
        }
    }
}

/// The name of the sampler uniform for texture `i`: `material.texture_diffuseN`
/// or `material.texture_specularN`, where `N` counts the textures of that role
/// from 1 in order.
pub open spec fn uniform_name(textures: Seq<Texture>, i: int) -> Seq<char> {
    let t = textures[i].texture_type;
    let role = match t {
        TextureType::Diffuse => "texture_diffuse"@,
        TextureType::Specular => "texture_specular"@,
    };
    "material."@ + role + decimal(type_count(textures.take(i), t) + 1)
}

/// The calls that bind the textures: for texture `i`, activate unit `i` and
/// point its sampler uniform at unit `i`.
pub open spec fn texture_calls(textures: Seq<Texture>, program: u32) -> Seq<GlCall>
    decreases textures.len(),
{
    if textures.len() == 0 {
        Seq::empty()
    } else {
        let i = textures.len() - 1;
        texture_calls(textures.drop_last(), program) + seq![
            GlCall::ActiveTexture((TEXTURE0 + i) as u32),
            GlCall::SetInt { program, name: uniform_name(textures, i), value: i as i32 },
        ]
    }
}

/// The calls that draw a mesh with shader program `program`.
pub open spec fn draw_calls(
    textures: Seq<Texture>,
    index_count: nat,
    vao: u32,
    program: u32,
) -> Seq<GlCall> {
    texture_calls(textures, program) + seq![
        GlCall::ActiveTexture(0),
        GlCall::BindVertexArray(vao),
        GlCall::DrawElements { count: index_count as i32 },
        GlCall::BindVertexArray(0),
    ]
}

/// The attribute index, component count and byte offset of a vertex attribute.
pub fn attrib_ptr_data(t: VertexDataType) -> (r: (u32, i32, usize))
    ensures
        t == VertexDataType::Position ==> r == (0u32, 0i32, 0usize),
        t == VertexDataType::Normal ==> r == (1u32, 3i32, 12usize),
        t == VertexDataType::TexCoords ==> r == (2u32, 2i32, 24usize),
{
    match t {
        VertexDataType::Position => (0, 0, 0),
        VertexDataType::Normal => (1, 3, 12),
        VertexDataType::TexCoords => (2, 2, 24),
    }
}

/// Builds the sampler uniform name for a texture of role `t` that is the
/// `nr`-th of its role.
fn texture_uniform(t: TextureType, nr: u32) -> (name: String)
    ensures
        name@ == "material."@ + (match t {
            TextureType::Diffuse => "texture_diffuse"@,
            TextureType::Specular => "texture_specular"@,
        }) + decimal(nr as nat),
{
    let mut name = String::from_str("material.");
    match t {
        TextureType::Diffuse => name.append("texture_diffuse"),
        TextureType::Specular => name.append("texture_specular"),
    }
    push_decimal(&mut name, nr);
    name
}

impl Mesh {
    /// The mesh's vertices.
    pub closed spec fn vertex_seq(&self) -> Seq<Vertex> {
        self.vertices@
    }

    /// The vertex indices of the mesh's triangles.
    pub closed spec fn index_seq(&self) -> Seq<u32> {
        self.indices@
    }

    /// The mesh's textures, in binding order.
    pub closed spec fn texture_seq(&self) -> Seq<Texture> {
        self.textures@
    }

    /// The vertex array, vertex buffer and element buffer objects of the mesh.
    pub closed spec fn gl_object_ids(&self) -> (u32, u32, u32) {
        (self.vao, self.vbo, self.ebo)
    }

    /// A mesh of the given data, not yet set up on the GPU (its GL objects are 0).
    pub fn new(vertices: Vec<Vertex>, indices: Vec<u32>, textures: Vec<Texture>) -> (mesh: Mesh)
        ensures
            mesh.vertex_seq() == vertices@,
            mesh.index_seq() == indices@,
            mesh.texture_seq() == textures@,
            mesh.gl_object_ids() == (0u32, 0u32, 0u32),
    {
        Mesh { vertices, indices, textures, vao: 0, vbo: 0, ebo: 0 }
    }

    /// The GL objects holding the mesh's data: vertex array, vertex buffer and
    /// element buffer (0 before the mesh is set up).
    pub fn gl_objects(&self) -> (ids: (u32, u32, u32))
        ensures
            ids == self.gl_object_ids(),
    {
        (self.vao, self.vbo, self.ebo)
    }

    /// Records the GL objects the mesh's data was set up in.
    pub fn set_gl_objects(&mut self, vao: u32, vbo: u32, ebo: u32)
        ensures
            final(self).vertex_seq() == old(self).vertex_seq(),
            final(self).index_seq() == old(self).index_seq(),
            final(self).texture_seq() == old(self).texture_seq(),
            final(self).gl_object_ids() == (vao, vbo, ebo),
    {
        self.vao = vao;
        self.vbo = vbo;
        self.ebo = ebo;
    }

    /// The textures and indices are few enough for the GL calls of `draw`:
    /// every texture unit number fits 32 bits and the index count fits `i32`.
    pub open spec fn drawable(&self) -> bool {
        &&& self.texture_seq().len() + TEXTURE0 <= u32::MAX + 1
        &&& self.index_seq().len() <= i32::MAX
    }

    /// The GL calls that draw the mesh with `shader`: each texture gets unit
    /// `i` and the sampler uniform of its role and number, texture unit 0 is
    /// activated, and the mesh's triangles are drawn from its vertex array.
    pub fn draw(&self, shader: &Shader) -> (cmds: Vec<GlCommand>)
        requires
            self.drawable(),
        ensures
            calls(cmds@) == draw_calls(
                self.texture_seq(),
                self.index_seq().len(),
                self.gl_object_ids().0,
                shader.id,
            ),
    {
        let mut cmds: Vec<GlCommand> = Vec::new();
        let mut diffuse_nr: u32 = 1;
        let mut specular_nr: u32 = 1;
        let mut i: usize = 0;
        while i < self.textures.len()
            invariant
                i <= self.textures.len(),
                self.textures.len() + TEXTURE0 <= u32::MAX + 1,
                diffuse_nr == type_count(self.textures@.take(i as int), TextureType::Diffuse) + 1,
                specular_nr == type_count(self.textures@.take(i as int), TextureType::Specular)
                    + 1,
                diffuse_nr + specular_nr == i + 2,
                calls(cmds@) == texture_calls(self.textures@.take(i as int), shader.id),
            decreases self.textures.len() - i,
        {
            let ghost prev = cmds@;
            let ghost taken = self.textures@.take(i + 1);
            proof {
                assert(taken.drop_last() =~= self.textures@.take(i as int));
                assert(taken.take(i as int) =~= self.textures@.take(i as int));
                assert(taken[i as int] == self.textures@[i as int]);
            }
            cmds.push(GlCommand::ActiveTexture(TEXTURE0 + i as u32));
            let texture = self.textures[i];
            let name = match texture.texture_type {
                TextureType::Diffuse => {
                    let n = texture_uniform(TextureType::Diffuse, diffuse_nr);
                    diffuse_nr = diffuse_nr + 1;
                    n
                },
                TextureType::Specular => {
                    let n = texture_uniform(TextureType::Specular, specular_nr);
                    specular_nr = specular_nr + 1;
                    n
                },
            };
            cmds.push(GlCommand::SetInt { program: shader.id, name, value: i as i32 });
            proof {
                assert(uniform_name(taken, i as int) == name@);
                assert(calls(cmds@) =~= calls(prev) + seq![
                    GlCall::ActiveTexture((TEXTURE0 + i) as u32),
                    GlCall::SetInt { program: shader.id, name: name@, value: i as i32 },
                ]);
            }
            i = i + 1;
        }
        proof {
            assert(self.textures@.take(i as int) =~= self.textures@);
        }
        let ghost before = cmds@;
        cmds.push(GlCommand::ActiveTexture(0));
        cmds.push(GlCommand::BindVertexArray(self.vao));
        cmds.push(GlCommand::DrawElements { count: self.indices.len() as i32 });
        cmds.push(GlCommand::BindVertexArray(0));
        proof {
            assert(calls(cmds@) =~= calls(before) + seq![
                GlCall::ActiveTexture(0),
                GlCall::BindVertexArray(self.vao),
                GlCall::DrawElements { count: self.indices.len() as i32 },
                GlCall::BindVertexArray(0),
            ]);
        }
        cmds
    }
}

/// Counting textures of a role over a longer prefix counts at least as many.
proof fn lemma_type_count_grows(textures: Seq<Texture>, t: TextureType, n: int, m: int)
    requires
        0 <= n <= m <= textures.len(),
    ensures
        type_count(textures.take(n), t) <= type_count(textures.take(m), t),
        n < m && textures[n].texture_type == t ==> type_count(textures.take(n), t) + 1
            <= type_count(textures.take(m), t),
    decreases m - n,
{
    if n < m {
        lemma_type_count_grows(textures, t, n, m - 1);
        assert(textures.take(m).drop_last() =~= textures.take(m - 1));
        if n == m - 1 {
            assert(textures.take(m).last() == textures[n]);
        }
    }
}

/// Law: the textures of a mesh are bound to distinct sampler uniforms.
pub proof fn lemma_uniform_names_distinct(textures: Seq<Texture>, i: int, j: int)
    requires
        0 <= i < j < textures.len(),
    ensures
        uniform_name(textures, i) != uniform_name(textures, j),
{
    reveal_strlit("material.");
    reveal_strlit("texture_diffuse");
    reveal_strlit("texture_specular");
    let ti = textures[i].texture_type;
    let tj = textures[j].texture_type;
    let ni = uniform_name(textures, i);
    let nj = uniform_name(textures, j);
    if ti != tj {
        assert(ni[17] != nj[17]);
    } else {
        lemma_type_count_grows(textures, ti, i, j);
        let ki = type_count(textures.take(i), ti) + 1;
        let kj = type_count(textures.take(j), tj) + 1;
        let role = match ti {
            TextureType::Diffuse => "texture_diffuse"@,
            TextureType::Specular => "texture_specular"@,
        };
        let prefix = "material."@ + role;
        assert(ni.subrange(prefix.len() as int, ni.len() as int) =~= decimal(ki));
        assert(nj.subrange(prefix.len() as int, nj.len() as int) =~= decimal(kj));
        lemma_decimal_injective(ki, kj);
    }
}

} // verus!
