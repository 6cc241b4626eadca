use vstd::prelude::*;
use vstd::string::StrSliceExecFns;

use crate::math::Vector2D;
use crate::mesh::{calls, draw_calls, GlCall, GlCommand, Mesh, Texture, TextureType, Vertex};
use crate::scene::graph::{collect_mesh_order, Face, Scene};
use crate::scene::graph::Mesh as SceneMesh;
use crate::scene::material::{paths_of_type, AiTextureType, Material, MaterialTexture};
use crate::shader::Shader;

verus! {

/// An image file to load as a texture, with the role of its first use.
#[derive(Debug, PartialEq, Eq)]
pub struct ImageRequest {
    pub path: String,
    pub texture_type: TextureType,
}

/// A mesh ready to be set up: its vertices, its triangle indices and, for
/// each of its textures in order, the slot of the image it uses.
#[derive(Debug, PartialEq, Eq)]
pub struct MeshPlan {
    pub vertices: Vec<Vertex>,
    pub indices: Vec<u32>,
    pub texture_slots: Vec<usize>,
}

/// A model read from a scene, waiting for its images: the meshes, and the
/// image files to load, each once.
#[derive(Debug, PartialEq, Eq)]
pub struct ModelPlan {
    pub meshes: Vec<MeshPlan>,
    pub images: Vec<ImageRequest>,
}

/// A model: the meshes it draws.
#[derive(Debug, PartialEq, Eq)]
pub struct Model {
    pub meshes: Vec<Mesh>,
}

/// Why a scene cannot be made into a model.
#[derive(Clone, Copy, Debug, PartialEq, Eq, Structural)]
pub enum LoadError {
    /// The importer flagged the scene as incomplete.
    IncompleteScene,
}

// ---------------------------------------------------------------- paths

/// The position of the last `/` in `path`, or -1 when there is none.
pub open spec fn last_slash(path: Seq<char>) -> int
    decreases path.len(),
{
    if path.len() == 0 {
        -1
    } else if path.last() == '/' {
        path.len() - 1
    } else {
        last_slash(path.drop_last())
    }
}

/// The directory part of `path`: everything before its last `/`.
pub open spec fn directory_of(path: Seq<char>) -> Seq<char> {
    path.subrange(0, last_slash(path))
}

/// `p` resolved against directory `dir`: an absolute `p` stands alone;
/// otherwise it follows `dir`, with a `/` between them unless `dir` is empty
/// or already ends in one.
pub open spec fn join_path(dir: Seq<char>, p: Seq<char>) -> Seq<char> {
    if p.len() > 0 && p[0] == '/' {
        p
    } else if dir.len() > 0 && dir.last() != '/' {
        dir + seq!['/'] + p
    } else {
        dir + p
    }
}

proof fn lemma_last_slash_bounds(path: Seq<char>)
    ensures
        -1 <= last_slash(path) < path.len(),
        last_slash(path) >= 0 ==> path[last_slash(path)] == '/',
        path.contains('/') ==> last_slash(path) >= 0,
    decreases path.len(),
{
    if path.len() > 0 {
        lemma_last_slash_bounds(path.drop_last());
        if path.contains('/') && path.last() != '/' {
            let k = choose|k: int| 0 <= k < path.len() && path[k] == '/';
            assert(path.drop_last()[k] == '/');
        }
    }
}

/// The directory part of `path`.
pub fn directory(path: &str) -> (dir: &str)
    requires
        path@.contains('/'),
    ensures
        dir@ == directory_of(path@),
{
    let n = path.unicode_len();
    let mut i: usize = n;
    proof {
        assert(path@.take(n as int) =~= path@);
    }
    while i > 0 && path.get_char(i - 1) != '/'
        invariant
            i <= n == path@.len(),
            last_slash(path@.take(i as int)) == last_slash(path@),
        decreases i,
    {
        proof {
            let t = path@.take(i as int);
            assert(t.drop_last() =~= path@.take(i - 1));
        }
        i = i - 1;
    }
    proof {
        lemma_last_slash_bounds(path@);
        assert(path@.take(n as int) =~= path@);
        if i == 0 {
            assert(path@.take(0) =~= Seq::<char>::empty());
        }
    }
    path.substring_char(0, i - 1)
}

/// `p` resolved against directory `dir`, as `std::path::Path::join` resolves it.
pub fn join(dir: &str, p: &str) -> (joined: String)
    ensures
        joined@ == join_path(dir@, p@),
{
    let p_len = p.unicode_len();
    if p_len > 0 && p.get_char(0) == '/' {
        return String::from_str(p);
    }
    let d_len = dir.unicode_len();
    let mut joined = String::from_str(dir);
    if d_len > 0 && dir.get_char(d_len - 1) != '/' {
        joined.append("/");
        proof {
            reveal_strlit("/");
            assert("/"@ =~= seq!['/']);
        }
    }
    joined.append(p);
    joined
}

// ---------------------------------------------------------------- images

/// Where path `p` first occurs in `images`, or -1 when it does not.
pub open spec fn first_index(images: Seq<(Seq<char>, TextureType)>, p: Seq<char>) -> int
    decreases images.len(),
{
    if images.len() == 0 {
        -1
    } else {
        let r = first_index(images.drop_last(), p);
        if r >= 0 {
            r
        } else if images.last().0 == p {
            images.len() - 1
        } else {
            -1
        }
    }
}

/// `images` after a texture reference: unchanged when its path is already
/// there, else with the reference appended.
pub open spec fn add_ref(
    images: Seq<(Seq<char>, TextureType)>,
    r: (Seq<char>, TextureType),
) -> Seq<(Seq<char>, TextureType)> {
    if first_index(images, r.0) >= 0 {
        images
    } else {
        images.push(r)
    }
}

/// `images` after a sequence of texture references, in order.
pub open spec fn add_refs(
    images: Seq<(Seq<char>, TextureType)>,
    refs: Seq<(Seq<char>, TextureType)>,
) -> Seq<(Seq<char>, TextureType)>
    decreases refs.len(),
{
    if refs.len() == 0 {
        images
    } else {
        add_ref(add_refs(images, refs.drop_last()), refs.last())
    }
}

/// The images to load for a sequence of texture references: each path once,
/// in order of first use, with the role of its first use.
pub open spec fn unique_images(refs: Seq<(Seq<char>, TextureType)>) -> Seq<(Seq<char>, TextureType)> {
    add_refs(Seq::empty(), refs)
}

/// The texture references of the material slots of one role, resolved against `dir`.
pub open spec fn role_refs(
    slots: Seq<MaterialTexture>,
    dir: Seq<char>,
    t: AiTextureType,
    role: TextureType,
) -> Seq<(Seq<char>, TextureType)> {
    paths_of_type(slots, t).map_values(|p: Seq<char>| (join_path(dir, p), role))
}

/// The texture references of a material: its diffuse textures, then its specular ones.
pub open spec fn material_refs(slots: Seq<MaterialTexture>, dir: Seq<char>) -> Seq<
    (Seq<char>, TextureType),
> {
    role_refs(slots, dir, AiTextureType::Diffuse, TextureType::Diffuse) + role_refs(
        slots,
        dir,
        AiTextureType::Specular,
        TextureType::Specular,
    )
}

/// The texture references of a scene mesh, through its material.
pub open spec fn mesh_refs(scene: Scene, dir: Seq<char>, m: SceneMesh) -> Seq<
    (Seq<char>, TextureType),
> {
    material_refs(scene.materials@[m.material_index as int].textures@, dir)
}

/// The texture references of the meshes with the given indices, in order.
pub open spec fn refs_in_order(scene: Scene, dir: Seq<char>, order: Seq<u32>) -> Seq<
    (Seq<char>, TextureType),
>
    decreases order.len(),
{
    if order.len() == 0 {
        Seq::empty()
    } else {
        refs_in_order(scene, dir, order.drop_last()) + mesh_refs(
            scene,
            dir,
            scene.meshes@[order.last() as int],
        )
    }
}

pub open spec fn request_view(r: ImageRequest) -> (Seq<char>, TextureType) {
    (r.path@, r.texture_type)
}

pub open spec fn requests_view(rs: Seq<ImageRequest>) -> Seq<(Seq<char>, TextureType)> {
    rs.map_values(|r: ImageRequest| request_view(r))
}

proof fn lemma_first_index_bounds(images: Seq<(Seq<char>, TextureType)>, p: Seq<char>)
    ensures
        -1 <= first_index(images, p) < images.len(),
        first_index(images, p) >= 0 ==> images[first_index(images, p)].0 == p,
    decreases images.len(),
{
    if images.len() > 0 {
        lemma_first_index_bounds(images.drop_last(), p);
    }
}

/// `first_index` is the position of the first match, and -1 without one.
proof fn lemma_first_index_is_first(images: Seq<(Seq<char>, TextureType)>, p: Seq<char>, i: int)
    requires
        0 <= i <= images.len(),
        forall|j: int| 0 <= j < i ==> images[j].0 != p,
        i < images.len() ==> images[i].0 == p,
    ensures
        i < images.len() ==> first_index(images, p) == i,
        i == images.len() ==> first_index(images, p) == -1,
    decreases images.len(),
{
    if images.len() > 0 {
        if i < images.len() {
            lemma_first_index_is_first(images.drop_last(), p, i);
        } else {
            lemma_first_index_is_first(images.drop_last(), p, i - 1);
        }
    }
}

/// A path already present keeps its position when a reference is added.
proof fn lemma_first_index_stable(
    images: Seq<(Seq<char>, TextureType)>,
    r: (Seq<char>, TextureType),
    p: Seq<char>,
)
    requires
        first_index(images, p) >= 0,
    ensures
        first_index(add_ref(images, r), p) == first_index(images, p),
{
    if first_index(images, r.0) < 0 {
        assert(images.push(r).drop_last() =~= images);
    }
}

/// Adding references in two runs is adding them in one.
proof fn lemma_add_refs_concat(
    images: Seq<(Seq<char>, TextureType)>,
    a: Seq<(Seq<char>, TextureType)>,
    b: Seq<(Seq<char>, TextureType)>,
)
    ensures
        add_refs(images, a + b) == add_refs(add_refs(images, a), b),
    decreases b.len(),
{
    if b.len() == 0 {
        assert(a + b =~= a);
    } else {
        lemma_add_refs_concat(images, a, b.drop_last());
        assert((a + b).drop_last() =~= a + b.drop_last());
        assert((a + b).last() == b.last());
    }
}

/// Adds a texture reference to the image list and returns the slot of its path.
fn add_texture_ref(images: &mut Vec<ImageRequest>, path: String, role: TextureType) -> (slot:
    usize)
    ensures
        requests_view(final(images)@) == add_ref(requests_view(old(images)@), (path@, role)),
        slot == first_index(requests_view(final(images)@), path@),
{
    let ghost start = requests_view(images@);
    let mut i: usize = 0;
    while i < images.len()
        invariant
            i <= images.len(),
            start == requests_view(images@),
            forall|j: int| 0 <= j < i ==> start[j].0 != path@,
        decreases images.len() - i,
    {
        if images[i].path == path {
            proof {
                lemma_first_index_is_first(start, path@, i as int);
            }
            return i;
        }
        i = i + 1;
    }
    proof {
        lemma_first_index_is_first(start, path@, i as int);
    }
    let ghost path_view = path@;
    images.push(ImageRequest { path, texture_type: role });
    proof {
        let now = requests_view(images@);
        assert(now =~= start.push((path_view, role)));
        assert(now.drop_last() =~= start);
    }
    images.len() - 1
}

// ---------------------------------------------------------------- meshes

/// The vertex made of vertex `i` of a scene mesh: its position and normal,
/// and the first two components of its texture coordinates (zero without any).
pub open spec fn plan_vertex(m: SceneMesh, i: int) -> Vertex {
    Vertex {
        position: m.vertices@[i],
        normal: m.normals@[i],
        tex_coords: match m.texture_coords {
            Some(tc) => Vector2D { x: tc@[i].x, y: tc@[i].y },
            None => Vector2D { x: 0, y: 0 },
        },
    }
}

/// The vertex indices of a sequence of faces, face after face.
pub open spec fn face_indices(faces: Seq<Face>) -> Seq<u32>
    decreases faces.len(),
{
    if faces.len() == 0 {
        Seq::empty()
    } else {
        face_indices(faces.drop_last()) + faces.last().indices@
    }
}

/// `plan` is what scene mesh `m` becomes, its textures referring to `images`.
pub open spec fn mesh_plan_matches(
    m: SceneMesh,
    refs: Seq<(Seq<char>, TextureType)>,
    plan: MeshPlan,
    images: Seq<(Seq<char>, TextureType)>,
) -> bool {
    &&& plan.vertices@ == Seq::new(m.vertices.len() as nat, |i: int| plan_vertex(m, i))
    &&& plan.indices@ == face_indices(m.faces@)
    &&& plan.texture_slots.len() == refs.len()
    &&& forall|k: int|
        0 <= k < refs.len() ==> #[trigger] plan.texture_slots@[k] == first_index(images, refs[k].0)
}

/// A scene mesh has what the model needs of it: a material, a normal for
/// each vertex, and texture coordinates for each vertex where it has any.
pub open spec fn mesh_loadable(scene: Scene, m: SceneMesh) -> bool {
    &&& m.material_index < scene.materials.len()
    &&& m.normals.len() >= m.vertices.len()
    &&& m.texture_coords matches Some(tc) ==> tc.len() >= m.vertices.len()
    &&& scene.materials@[m.material_index as int].textures.len() <= u32::MAX
}

/// Whether a scene mesh has what the model needs of it.
fn check_mesh(scene: &Scene, m: &SceneMesh) -> (ok: bool)
    ensures
        ok == mesh_loadable(*scene, *m),
{
    if m.material_index as usize >= scene.materials.len() {
        return false;
    }
    if m.normals.len() < m.vertices.len() {
        return false;
    }
    match &m.texture_coords {
        Some(tc) => {
            if tc.len() < m.vertices.len() {
                return false;
            }
        },
        None => {},
    }
    scene.materials[m.material_index as usize].textures.len() <= u32::MAX as usize
}

impl Scene {
    /// Whether every mesh the node tree places exists and can be loaded.
    pub fn is_loadable(&self) -> (ok: bool)
        ensures
            ok == self.loadable(),
    {
        let mut order: Vec<u32> = Vec::new();
        collect_mesh_order(&self.root, &mut order);
        proof {
            assert(order@ =~= self.mesh_order());
        }
        let mut k: usize = 0;
        while k < order.len()
            invariant
                k <= order.len(),
                order@ == self.mesh_order(),
                forall|i: int|
                    0 <= i < k ==> {
                        &&& #[trigger] self.mesh_order()[i] < self.meshes.len()
                        &&& mesh_loadable(*self, self.meshes@[self.mesh_order()[i] as int])
                    },
            decreases order.len() - k,
        {
            let idx = order[k] as usize;
            if idx >= self.meshes.len() {
                return false;
            }
            if !check_mesh(self, &self.meshes[idx]) {
                return false;
            }
            k = k + 1;
        }
        true
    }

    /// Every mesh the node tree places exists and can be loaded.
    pub open spec fn loadable(&self) -> bool {
        forall|k: int|
            0 <= k < self.mesh_order().len() ==> {
                &&& #[trigger] self.mesh_order()[k] < self.meshes.len()
                &&& mesh_loadable(*self, self.meshes@[self.mesh_order()[k] as int])
            }
    }
}

impl ModelPlan {
    /// `self` is the model that `scene` makes with its textures looked up in
    /// directory `dir`: one mesh per placed mesh in depth-first node order,
    /// and each image path once, in order of first use.
    pub open spec fn plans(&self, scene: Scene, dir: Seq<char>) -> bool {
        let order = scene.mesh_order();
        &&& self.meshes.len() == order.len()
        &&& requests_view(self.images@) == unique_images(refs_in_order(scene, dir, order))
        &&& forall|j: int|
            0 <= j < order.len() ==> mesh_plan_matches(
                #[trigger] scene.meshes@[order[j] as int],
                mesh_refs(scene, dir, scene.meshes@[order[j] as int]),
                self.meshes@[j],
                requests_view(self.images@),
            )
    }

    /// Every texture slot names one of the images.
    pub open spec fn slots_valid(&self) -> bool {
        forall|j: int, k: int|
            0 <= j < self.meshes.len() && 0 <= k < self.meshes@[j].texture_slots.len()
                ==> #[trigger] self.meshes@[j].texture_slots@[k] < self.images.len()
    }
}

/// Adds the textures of role `t` of a material: resolves each path against
/// `dir`, gives it a slot among `images` and records the slot.
fn add_role_textures(
    mat: &Material,
    t: AiTextureType,
    role: TextureType,
    dir: &str,
    images: &mut Vec<ImageRequest>,
    slots: &mut Vec<usize>,
    Ghost(prev): Ghost<Seq<(Seq<char>, TextureType)>>,
)
    requires
        mat.textures.len() <= u32::MAX,
        old(slots).len() == prev.len(),
        forall|k: int|
            0 <= k < prev.len() ==> #[trigger] old(slots)@[k] == first_index(
                requests_view(old(images)@),
                prev[k].0,
            ),
    ensures
        requests_view(final(images)@) == add_refs(
            requests_view(old(images)@),
            role_refs(mat.textures@, dir@, t, role),
        ),
        final(slots).len() == prev.len() + role_refs(mat.textures@, dir@, t, role).len(),
        forall|k: int|
            0 <= k < final(slots).len() ==> #[trigger] final(slots)@[k] == first_index(
                requests_view(final(images)@),
                (prev + role_refs(mat.textures@, dir@, t, role))[k].0,
            ),
{
    let ghost refs = role_refs(mat.textures@, dir@, t, role);
    let ghost all = prev + refs;
    let ghost start = requests_view(images@);
    let count = mat.texture_count(t);
    let mut i: u32 = 0;
    while i < count
        invariant
            i <= count,
            count == refs.len(),
            refs == role_refs(mat.textures@, dir@, t, role),
            all == prev + refs,
            requests_view(images@) == add_refs(start, refs.take(i as int)),
            slots.len() == prev.len() + i,
            forall|k: int|
                0 <= k < slots.len() ==> #[trigger] slots@[k] == first_index(
                    requests_view(images@),
                    all[k].0,
                ),
        decreases count - i,
    {
        let p = mat.get_texture(t, i).unwrap();
        let full = join(dir, p.as_str());
        let ghost before = requests_view(images@);
        let ghost old_slots = slots@;
        let ghost r = (full@, role);
        let slot = add_texture_ref(images, full, role);
        slots.push(slot);
        proof {
            assert(refs[i as int] == r);
            assert(all[prev.len() + i] == r);
            assert(refs.take(i + 1).drop_last() =~= refs.take(i as int));
            assert forall|k: int| 0 <= k < slots.len() implies #[trigger] slots@[k] == first_index(
                requests_view(images@),
                all[k].0,
            ) by {
                if k < old_slots.len() {
                    assert(slots@[k] == old_slots[k]);
                    lemma_first_index_stable(before, r, all[k].0);
                }
            }
        }
        i = i + 1;
    }
    proof {
        assert(refs.take(i as int) =~= refs);
    }
}

/// Makes the mesh plan of scene mesh `m` with material `mat`, adding the
/// images it uses to `images`.
fn process_mesh(m: &SceneMesh, mat: &Material, dir: &str, images: &mut Vec<ImageRequest>) -> (plan:
    MeshPlan)
    requires
        m.normals.len() >= m.vertices.len(),
        m.texture_coords matches Some(tc) ==> tc.len() >= m.vertices.len(),
        mat.textures.len() <= u32::MAX,
    ensures
        requests_view(final(images)@) == add_refs(
            requests_view(old(images)@),
            material_refs(mat.textures@, dir@),
        ),
        mesh_plan_matches(
            *m,
            material_refs(mat.textures@, dir@),
            plan,
            requests_view(final(images)@),
        ),
{
    // vertices
    let mut vertices: Vec<Vertex> = Vec::new();
    let mut i: usize = 0;
    while i < m.vertices.len()
        invariant
            i <= m.vertices.len() <= m.normals.len(),
            m.texture_coords matches Some(tc) ==> tc.len() >= m.vertices.len(),
            vertices@ == Seq::new(i as nat, |k: int| plan_vertex(*m, k)),
        decreases m.vertices.len() - i,
    {
        let tex_coords = match &m.texture_coords {
            Some(tc) => Vector2D { x: tc[i].x, y: tc[i].y },
            None => Vector2D { x: 0, y: 0 },
        };
        vertices.push(Vertex { position: m.vertices[i], normal: m.normals[i], tex_coords });
        proof {
            assert(vertices@ =~= Seq::new((i + 1) as nat, |k: int| plan_vertex(*m, k)));
        }
        i = i + 1;
    }
    // indices, face after face
    let mut indices: Vec<u32> = Vec::new();
    let mut f: usize = 0;
    while f < m.faces.len()
        invariant
            f <= m.faces.len(),
            indices@ == face_indices(m.faces@.take(f as int)),
        decreases m.faces.len() - f,
    {
        let face = &m.faces[f];
        let ghost base = indices@;
        let mut k: usize = 0;
        while k < face.indices.len()
            invariant
                k <= face.indices.len(),
                indices@ == base + face.indices@.take(k as int),
            decreases face.indices.len() - k,
        {
            indices.push(face.indices[k]);
            proof {
                assert(face.indices@.take(k + 1) =~= face.indices@.take(k as int).push(
                    face.indices@[k as int],
                ));
            }
            k = k + 1;
        }
        proof {
            assert(face.indices@.take(k as int) =~= face.indices@);
            let taken = m.faces@.take(f + 1);
            assert(taken.drop_last() =~= m.faces@.take(f as int));
            assert(taken.last() == m.faces@[f as int]);
        }
        f = f + 1;
    }
    proof {
        assert(m.faces@.take(f as int) =~= m.faces@);
    }
    // textures: diffuse, then specular
    let ghost start = requests_view(images@);
    let mut slots: Vec<usize> = Vec::new();
    add_role_textures(
        mat,
        AiTextureType::Diffuse,
        TextureType::Diffuse,
        dir,
        images,
        &mut slots,
        Ghost(Seq::empty()),
    );
    let ghost diffuse = role_refs(mat.textures@, dir@, AiTextureType::Diffuse, TextureType::Diffuse);
    proof {
        assert(Seq::<(Seq<char>, TextureType)>::empty() + diffuse =~= diffuse);
    }
    add_role_textures(
        mat,
        AiTextureType::Specular,
        TextureType::Specular,
        dir,
        images,
        &mut slots,
        Ghost(diffuse),
    );
    proof {
        lemma_add_refs_concat(
            start,
            diffuse,
            role_refs(mat.textures@, dir@, AiTextureType::Specular, TextureType::Specular),
        );
    }
    MeshPlan { vertices, indices, texture_slots: slots }
}


/// A slot that is already taken keeps its place while more references come.
proof fn lemma_first_index_stable_all(
    images: Seq<(Seq<char>, TextureType)>,
    more: Seq<(Seq<char>, TextureType)>,
    p: Seq<char>,
)
    requires
        first_index(images, p) >= 0,
    ensures
        first_index(add_refs(images, more), p) == first_index(images, p),
    decreases more.len(),
{
    if more.len() > 0 {
        lemma_first_index_stable_all(images, more.drop_last(), p);
        lemma_first_index_stable(add_refs(images, more.drop_last()), more.last(), p);
    }
}

/// A mesh plan keeps matching while more references come.
proof fn lemma_plan_stable(
    m: SceneMesh,
    refs: Seq<(Seq<char>, TextureType)>,
    plan: MeshPlan,
    images: Seq<(Seq<char>, TextureType)>,
    more: Seq<(Seq<char>, TextureType)>,
)
    requires
        mesh_plan_matches(m, refs, plan, images),
    ensures
        mesh_plan_matches(m, refs, plan, add_refs(images, more)),
{
    assert forall|k: int| 0 <= k < refs.len() implies #[trigger] plan.texture_slots@[k]
        == first_index(add_refs(images, more), refs[k].0) by {
        assert(plan.texture_slots@[k] == first_index(images, refs[k].0));
        lemma_first_index_stable_all(images, more, refs[k].0);
    }
}

/// The textures of a mesh whose texture slots are `slots`, once the images
/// have been made into the GL textures `ids`.
pub open spec fn slot_textures(slots: Seq<usize>, ids: Seq<u32>, images: Seq<ImageRequest>) -> Seq<
    Texture,
> {
    Seq::new(
        slots.len(),
        |k: int| Texture { id: ids[slots[k] as int], texture_type: images[slots[k] as int].texture_type },
    )
}

/// The calls that draw the given meshes, one after the other.
pub open spec fn model_draw_calls(meshes: Seq<Mesh>, program: u32) -> Seq<GlCall>
    decreases meshes.len(),
{
    if meshes.len() == 0 {
        Seq::empty()
    } else {
        let last = meshes.last();
        model_draw_calls(meshes.drop_last(), program) + draw_calls(
            last.texture_seq(),
            last.index_seq().len(),
            last.gl_object_ids().0,
            program,
        )
    }
}

impl Model {
    /// Reads the model that `scene`, imported from the file at `path`, holds.
    ///
    /// Fails when the importer flagged the scene as incomplete. Otherwise the
    /// plan holds one mesh for each mesh the node tree places, in depth-first
    /// order, and the image files of their textures, looked up in the
    /// directory of `path`: each file once, in order of first use.
    pub fn load(scene: &Scene, path: &str) -> (res: Result<ModelPlan, LoadError>)
        requires
            !scene.incomplete() ==> path@.contains('/'),
            !scene.incomplete() ==> scene.loadable(),
        ensures
            res is Err <==> scene.incomplete(),
            res is Ok <==> scene.flags % 2 == 0,
            res matches Err(e) ==> e == LoadError::IncompleteScene,
            res matches Ok(plan) ==> plan.plans(*scene, directory_of(path@)),
            res matches Ok(plan) ==> plan.slots_valid(),
    {
        proof {
            crate::scene::graph::lemma_incomplete_is_lowest_bit(*scene);
        }
        if scene.is_incomplete() {
            return Err(LoadError::IncompleteScene);
        }
        let dir = directory(path);
        let mut order: Vec<u32> = Vec::new();
        collect_mesh_order(&scene.root, &mut order);
        proof {
            assert(order@ =~= scene.mesh_order());
        }
        let mut images: Vec<ImageRequest> = Vec::new();
        let mut meshes: Vec<MeshPlan> = Vec::new();
        let mut j: usize = 0;
        proof {
            assert(order@.take(0) =~= Seq::<u32>::empty());
            assert(requests_view(images@) =~= Seq::<(Seq<char>, TextureType)>::empty());
        }
        while j < order.len()
            invariant
                j <= order.len(),
                order@ == scene.mesh_order(),
                scene.loadable(),
                dir@ == directory_of(path@),
                meshes.len() == j,
                requests_view(images@) == unique_images(
                    refs_in_order(*scene, dir@, order@.take(j as int)),
                ),
                forall|jj: int|
                    0 <= jj < j ==> mesh_plan_matches(
                        #[trigger] scene.meshes@[order@[jj] as int],
                        mesh_refs(*scene, dir@, scene.meshes@[order@[jj] as int]),
                        meshes@[jj],
                        requests_view(images@),
                    ),
            decreases order.len() - j,
        {
            let idx = order[j];
            proof {
                assert(scene.mesh_order()[j as int] == idx);
            }
            let m = &scene.meshes[idx as usize];
            let mat = &scene.materials[m.material_index as usize];
            let ghost before = requests_view(images@);
            let ghost new_refs = mesh_refs(*scene, dir@, *m);
            let plan = process_mesh(m, mat, dir, &mut images);
            proof {
                let taken = order@.take(j + 1);
                assert(taken.drop_last() =~= order@.take(j as int));
                assert(taken.last() == idx);
                lemma_add_refs_concat(
                    Seq::empty(),
                    refs_in_order(*scene, dir@, order@.take(j as int)),
                    new_refs,
                );
                assert forall|jj: int| 0 <= jj < j implies mesh_plan_matches(
                    #[trigger] scene.meshes@[order@[jj] as int],
                    mesh_refs(*scene, dir@, scene.meshes@[order@[jj] as int]),
                    meshes@[jj],
                    requests_view(images@),
                ) by {
                    lemma_plan_stable(
                        scene.meshes@[order@[jj] as int],
                        mesh_refs(*scene, dir@, scene.meshes@[order@[jj] as int]),
                        meshes@[jj],
                        before,
                        new_refs,
                    );
                }
            }
            meshes.push(plan);
            j = j + 1;
        }
        proof {
            assert(order@.take(j as int) =~= order@);
        }
        let result = ModelPlan { meshes, images };
        proof {
            let view = requests_view(result.images@);
            assert forall|a: int, k: int|
                0 <= a < result.meshes.len() && 0 <= k < result.meshes@[a].texture_slots.len()
                implies #[trigger] result.meshes@[a].texture_slots@[k] < result.images.len() by {
                let m = scene.meshes@[order@[a] as int];
                let refs = mesh_refs(*scene, dir@, m);
                assert(mesh_plan_matches(m, refs, result.meshes@[a], view));
                lemma_first_index_bounds(view, refs[k].0);
            }
        }
        Ok(result)
    }

    /// The GL calls that draw the model with `shader`: each mesh's calls, in order.
    pub fn draw(&self, shader: &Shader) -> (cmds: Vec<GlCommand>)
        requires
            forall|j: int| 0 <= j < self.meshes.len() ==> #[trigger] self.meshes@[j].drawable(),
        ensures
            calls(cmds@) == model_draw_calls(self.meshes@, shader.id),
    {
        let mut cmds: Vec<GlCommand> = Vec::new();
        let mut j: usize = 0;
        while j < self.meshes.len()
            invariant
                j <= self.meshes.len(),
                forall|jj: int| 0 <= jj < self.meshes.len() ==> #[trigger] self.meshes@[jj].drawable(),
                calls(cmds@) == model_draw_calls(self.meshes@.take(j as int), shader.id),
            decreases self.meshes.len() - j,
        {
            let ghost before = cmds@;
            let mut mesh_cmds = self.meshes[j].draw(shader);
            let ghost added = mesh_cmds@;
            cmds.append(&mut mesh_cmds);
            proof {
                let taken = self.meshes@.take(j + 1);
                assert(taken.drop_last() =~= self.meshes@.take(j as int));
                assert(taken.last() == self.meshes@[j as int]);
                assert(calls(cmds@) =~= calls(before) + calls(added));
            }
            j = j + 1;
        }
        proof {
            assert(self.meshes@.take(j as int) =~= self.meshes@);
        }
        cmds
    }
}

impl ModelPlan {
    /// The model, once image `i` has been made into GL texture `texture_ids[i]`:
    /// each mesh keeps its vertices and indices, its textures are the GL
    /// textures of its slots with the roles of those images, and its GL
    /// objects are not yet made (0).
    pub fn finish(&self, texture_ids: &Vec<u32>) -> (model: Model)
        requires
            texture_ids.len() == self.images.len(),
            self.slots_valid(),
        ensures
            model.meshes.len() == self.meshes.len(),
            forall|j: int|
                0 <= j < self.meshes.len() ==> {
                    &&& (#[trigger] model.meshes@[j]).vertex_seq() == self.meshes@[j].vertices@
                    &&& model.meshes@[j].index_seq() == self.meshes@[j].indices@
                    &&& model.meshes@[j].texture_seq() == slot_textures(
                        self.meshes@[j].texture_slots@,
                        texture_ids@,
                        self.images@,
                    )
                    &&& model.meshes@[j].gl_object_ids() == (0u32, 0u32, 0u32)
                },
    {
        let mut meshes: Vec<Mesh> = Vec::new();
        let mut j: usize = 0;
        while j < self.meshes.len()
            invariant
                j <= self.meshes.len(),
                texture_ids.len() == self.images.len(),
                self.slots_valid(),
                meshes.len() == j,
                forall|jj: int|
                    0 <= jj < j ==> {
                        &&& (#[trigger] meshes@[jj]).vertex_seq() == self.meshes@[jj].vertices@
                        &&& meshes@[jj].index_seq() == self.meshes@[jj].indices@
                        &&& meshes@[jj].texture_seq() == slot_textures(
                            self.meshes@[jj].texture_slots@,
                            texture_ids@,
                            self.images@,
                        )
                        &&& meshes@[jj].gl_object_ids() == (0u32, 0u32, 0u32)
                    },
            decreases self.meshes.len() - j,
        {
            let plan = &self.meshes[j];
            let mut textures: Vec<Texture> = Vec::new();
            let mut k: usize = 0;
            while k < plan.texture_slots.len()
                invariant
                    k <= plan.texture_slots.len(),
                    j < self.meshes.len(),
                    *plan == self.meshes@[j as int],
                    texture_ids.len() == self.images.len(),
                    self.slots_valid(),
                    textures@ == slot_textures(plan.texture_slots@.take(k as int), texture_ids@, self.images@),
                decreases plan.texture_slots.len() - k,
            {
                let slot = plan.texture_slots[k];
                proof {
                    assert(self.meshes@[j as int].texture_slots@[k as int] < self.images.len());
                }
                textures.push(Texture { id: texture_ids[slot], texture_type: self.images[slot].texture_type });
                proof {
                    assert(textures@ =~= slot_textures(plan.texture_slots@.take(k + 1), texture_ids@, self.images@));
                }
                k = k + 1;
            }
            proof {
                assert(plan.texture_slots@.take(k as int) =~= plan.texture_slots@);
            }
            let vertices = plan.vertices.clone();
            let indices = plan.indices.clone();
            proof {
                assert(vertices@ =~= plan.vertices@);
                assert(indices@ =~= plan.indices@);
            }
            meshes.push(Mesh::new(vertices, indices, textures));
            j = j + 1;
        }
        Model { meshes }
    }
}


// ---------------------------------------------------------------- laws

/// A path that occurs in `images` has a first position, at or before any occurrence.
proof fn lemma_first_index_found(images: Seq<(Seq<char>, TextureType)>, p: Seq<char>, i: int)
    requires
        0 <= i < images.len(),
        images[i].0 == p,
    ensures
        0 <= first_index(images, p) <= i,
    decreases images.len(),
{
    if i < images.len() - 1 {
        lemma_first_index_found(images.drop_last(), p, i);
    } else {
        lemma_first_index_bounds(images.drop_last(), p);
    }
}

/// Law: every image to load is one of the texture references.
pub proof fn lemma_images_are_references(refs: Seq<(Seq<char>, TextureType)>)
    ensures
        forall|k: int|
            0 <= k < unique_images(refs).len() ==> exists|i: int|
                0 <= i < refs.len() && refs[i] == #[trigger] unique_images(refs)[k],
    decreases refs.len(),
{
    if refs.len() > 0 {
        let prev = refs.drop_last();
        lemma_images_are_references(prev);
        let u = unique_images(prev);
        assert forall|k: int| 0 <= k < unique_images(refs).len() implies exists|i: int|
            0 <= i < refs.len() && refs[i] == #[trigger] unique_images(refs)[k] by {
            if k < u.len() {
                let i = choose|i: int| 0 <= i < prev.len() && prev[i] == u[k];
                assert(refs[i] == unique_images(refs)[k]);
            } else {
                assert(refs[refs.len() - 1] == unique_images(refs)[k]);
            }
        }
    }
}

/// Law: no image path is loaded twice.
pub proof fn lemma_images_distinct(refs: Seq<(Seq<char>, TextureType)>)
    ensures
        forall|a: int, b: int|
            0 <= a < b < unique_images(refs).len() ==> #[trigger] unique_images(refs)[a].0
                != #[trigger] unique_images(refs)[b].0,
    decreases refs.len(),
{
    if refs.len() > 0 {
        let prev = refs.drop_last();
        lemma_images_distinct(prev);
        let u = unique_images(prev);
        let x = refs.last();
        if first_index(u, x.0) < 0 {
            assert forall|a: int, b: int|
                0 <= a < b < unique_images(refs).len() implies #[trigger] unique_images(refs)[a].0
                != #[trigger] unique_images(refs)[b].0 by {
                if b == u.len() {
                    if u[a].0 == x.0 {
                        lemma_first_index_found(u, x.0, a);
                    }
                }
            }
        }
    }
}

/// Law: every texture reference's path is among the images to load.
pub proof fn lemma_references_loaded(refs: Seq<(Seq<char>, TextureType)>, j: int)
    requires
        0 <= j < refs.len(),
    ensures
        0 <= first_index(unique_images(refs), refs[j].0) < unique_images(refs).len(),
    decreases refs.len(),
{
    let prev = refs.drop_last();
    let u = unique_images(prev);
    if j < refs.len() - 1 {
        lemma_references_loaded(prev, j);
        lemma_first_index_stable(u, refs.last(), refs[j].0);
    } else if first_index(u, refs[j].0) < 0 {
        assert(u.push(refs[j]).drop_last() =~= u);
    }
    lemma_first_index_bounds(unique_images(refs), refs[j].0);
}

/// Law: an image is loaded with the role of the first reference to its path.
pub proof fn lemma_image_role_of_first_use(refs: Seq<(Seq<char>, TextureType)>, j: int)
    requires
        0 <= j < refs.len(),
        forall|i: int| 0 <= i < j ==> refs[i].0 != refs[j].0,
    ensures
        unique_images(refs)[first_index(unique_images(refs), refs[j].0)] == refs[j],
    decreases refs.len(),
{
    let prev = refs.drop_last();
    let u = unique_images(prev);
    if j < refs.len() - 1 {
        assert forall|i: int| 0 <= i < j implies prev[i].0 != prev[j].0 by {
            assert(prev[i] == refs[i]);
        }
        lemma_image_role_of_first_use(prev, j);
        lemma_references_loaded(prev, j);
        lemma_first_index_stable(u, refs.last(), refs[j].0);
    } else {
        lemma_images_are_references(prev);
        if first_index(u, refs[j].0) >= 0 {
            lemma_first_index_bounds(u, refs[j].0);
            let k = first_index(u, refs[j].0);
            let i = choose|i: int| 0 <= i < prev.len() && prev[i] == #[trigger] u[k];
            assert(refs[i].0 == refs[j].0);
        }
        assert(u.push(refs[j]).drop_last() =~= u);
        lemma_first_index_is_first(u.push(refs[j]), refs[j].0, u.len() as int);
    }
}

/// Law: in a model read from a scene, textures that name the same file share
/// one image, hence one GL texture, and the image of every texture slot is
/// the file the texture names.
pub proof fn lemma_plan_shares_images(
    plan: ModelPlan,
    scene: Scene,
    dir: Seq<char>,
    j1: int,
    k1: int,
    j2: int,
    k2: int,
)
    requires
        plan.plans(scene, dir),
        0 <= j1 < plan.meshes.len(),
        0 <= j2 < plan.meshes.len(),
        0 <= k1 < mesh_refs(scene, dir, scene.meshes@[scene.mesh_order()[j1] as int]).len(),
        0 <= k2 < mesh_refs(scene, dir, scene.meshes@[scene.mesh_order()[j2] as int]).len(),
    ensures
        plan.meshes@[j1].texture_slots@[k1] < plan.images.len(),
        plan.images@[plan.meshes@[j1].texture_slots@[k1] as int].path@ == mesh_refs(
            scene,
            dir,
            scene.meshes@[scene.mesh_order()[j1] as int],
        )[k1].0,
        mesh_refs(scene, dir, scene.meshes@[scene.mesh_order()[j1] as int])[k1].0 == mesh_refs(
            scene,
            dir,
            scene.meshes@[scene.mesh_order()[j2] as int],
        )[k2].0 ==> plan.meshes@[j1].texture_slots@[k1] == plan.meshes@[j2].texture_slots@[k2],
{
    let order = scene.mesh_order();
    let view = requests_view(plan.images@);
    let m1 = scene.meshes@[order[j1] as int];
    let m2 = scene.meshes@[order[j2] as int];
    assert(mesh_plan_matches(m1, mesh_refs(scene, dir, m1), plan.meshes@[j1], view));
    assert(mesh_plan_matches(m2, mesh_refs(scene, dir, m2), plan.meshes@[j2], view));
    let p = mesh_refs(scene, dir, m1)[k1].0;
    assert(plan.meshes@[j1].texture_slots@[k1] == first_index(view, p));
    lemma_first_index_bounds(view, p);
}

/// Law: textures of a finished model that name the same file are the same GL texture.
pub proof fn lemma_finished_textures_shared(
    plan: ModelPlan,
    scene: Scene,
    dir: Seq<char>,
    ids: Seq<u32>,
    j1: int,
    k1: int,
    j2: int,
    k2: int,
)
    requires
        plan.plans(scene, dir),
        plan.slots_valid(),
        ids.len() == plan.images.len(),
        0 <= j1 < plan.meshes.len(),
        0 <= j2 < plan.meshes.len(),
        0 <= k1 < mesh_refs(scene, dir, scene.meshes@[scene.mesh_order()[j1] as int]).len(),
        0 <= k2 < mesh_refs(scene, dir, scene.meshes@[scene.mesh_order()[j2] as int]).len(),
        mesh_refs(scene, dir, scene.meshes@[scene.mesh_order()[j1] as int])[k1].0 == mesh_refs(
            scene,
            dir,
            scene.meshes@[scene.mesh_order()[j2] as int],
        )[k2].0,
    ensures
        slot_textures(plan.meshes@[j1].texture_slots@, ids, plan.images@)[k1] == slot_textures(
            plan.meshes@[j2].texture_slots@,
            ids,
            plan.images@,
        )[k2],
{
    lemma_plan_shares_images(plan, scene, dir, j1, k1, j2, k2);
    let order = scene.mesh_order();
    assert(mesh_plan_matches(
        scene.meshes@[order[j1] as int],
        mesh_refs(scene, dir, scene.meshes@[order[j1] as int]),
        plan.meshes@[j1],
        requests_view(plan.images@),
    ));
    assert(mesh_plan_matches(
        scene.meshes@[order[j2] as int],
        mesh_refs(scene, dir, scene.meshes@[order[j2] as int]),
        plan.meshes@[j2],
        requests_view(plan.images@),
    ));
}

/// After references are added, each of their paths is among the images.
proof fn lemma_refs_present(
    images: Seq<(Seq<char>, TextureType)>,
    refs: Seq<(Seq<char>, TextureType)>,
    j: int,
)
    requires
        0 <= j < refs.len(),
    ensures
        first_index(add_refs(images, refs), refs[j].0) >= 0,
    decreases refs.len(),
{
    let prev = refs.drop_last();
    let u = add_refs(images, prev);
    if j < refs.len() - 1 {
        lemma_refs_present(images, prev, j);
        lemma_first_index_stable(u, refs.last(), refs[j].0);
    } else if first_index(u, refs[j].0) < 0 {
        assert(u.push(refs[j]).drop_last() =~= u);
    }
}

/// Adding references whose paths are all among the images changes nothing.
proof fn lemma_add_present_refs(
    images: Seq<(Seq<char>, TextureType)>,
    more: Seq<(Seq<char>, TextureType)>,
)
    requires
        forall|k: int| 0 <= k < more.len() ==> first_index(images, #[trigger] more[k].0) >= 0,
    ensures
        add_refs(images, more) == images,
    decreases more.len(),
{
    if more.len() > 0 {
        assert forall|k: int| 0 <= k < more.drop_last().len() implies first_index(
            images,
            #[trigger] more.drop_last()[k].0,
        ) >= 0 by {
            assert(more.drop_last()[k] == more[k]);
        }
        lemma_add_present_refs(images, more.drop_last());
        assert(first_index(images, more[more.len() - 1].0) >= 0);
    }
}

/// Law: taking the same texture references a second time requests no new
/// image, and every reference gets the slot it got the first time: after any
/// prefix of the repeated references the images are unchanged.
pub proof fn lemma_readding_refs_changes_nothing(
    images: Seq<(Seq<char>, TextureType)>,
    refs: Seq<(Seq<char>, TextureType)>,
)
    ensures
        add_refs(add_refs(images, refs), refs) == add_refs(images, refs),
        forall|k: int|
            0 <= k <= refs.len() ==> #[trigger] add_refs(add_refs(images, refs), refs.take(k))
                == add_refs(images, refs),
        forall|k: int|
            0 <= k < refs.len() ==> first_index(
                add_refs(add_refs(images, refs), #[trigger] refs.take(k + 1)),
                refs[k].0,
            ) == first_index(add_refs(images, refs), refs[k].0),
{
    let v = add_refs(images, refs);
    assert forall|k: int| 0 <= k <= refs.len() implies #[trigger] add_refs(v, refs.take(k)) == v by {
        assert forall|i: int| 0 <= i < refs.take(k).len() implies first_index(
            v,
            #[trigger] refs.take(k)[i].0,
        ) >= 0 by {
            assert(refs.take(k)[i] == refs[i]);
            lemma_refs_present(images, refs, i);
        }
        lemma_add_present_refs(v, refs.take(k));
    }
    assert(refs.take(refs.len() as int) =~= refs);
    assert(add_refs(v, refs.take(refs.len() as int)) == v);
    assert forall|k: int| 0 <= k < refs.len() implies first_index(
        add_refs(v, #[trigger] refs.take(k + 1)),
        refs[k].0,
    ) == first_index(v, refs[k].0) by {
        assert(add_refs(v, refs.take(k + 1)) == v);
    }
}

/// Law: a scene can be loaded exactly when every mesh its nodes place
/// exists and has a material, a normal for each vertex and texture
/// coordinates for each vertex where it has any, and that material has no
/// more texture slots than a 32-bit count holds: any number, none included.
pub proof fn lemma_loadable_conditions(scene: Scene)
    ensures
        scene.loadable() <==> forall|k: int|
            0 <= k < scene.mesh_order().len() ==> {
                let i = #[trigger] scene.mesh_order()[k] as int;
                &&& i < scene.meshes.len()
                &&& scene.meshes@[i].material_index < scene.materials.len()
                &&& scene.meshes@[i].normals.len() >= scene.meshes@[i].vertices.len()
                &&& scene.meshes@[i].texture_coords matches Some(tc) ==> tc.len()
                    >= scene.meshes@[i].vertices.len()
                &&& scene.materials@[scene.meshes@[i].material_index as int].textures.len()
                    <= 4294967295
            },
{
}

/// Law: a mesh whose material has no texture slots at all is loadable when
/// its material exists and it has a normal (and, where it has any, texture
/// coordinates) for each vertex.
pub proof fn lemma_untextured_mesh_loadable(scene: Scene, m: SceneMesh)
    requires
        m.material_index < scene.materials.len(),
        scene.materials@[m.material_index as int].textures.len() == 0,
        m.normals.len() >= m.vertices.len(),
        m.texture_coords matches Some(tc) ==> tc.len() >= m.vertices.len(),
    ensures
        mesh_loadable(scene, m),
{
}

} // verus!
