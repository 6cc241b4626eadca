use vstd::prelude::*;

verus! {

/// The role a texture plays in a material.
#[derive(Clone, Copy, Debug, PartialEq, Eq, Structural)]
pub enum AiTextureType {
    NoTexture,
    Diffuse,
    Specular,
    Ambient,
    Emissive,
    Height,
    Normals,
    Shininess,
    Opacity,
    Displacement,
    Lightmap,
    Reflection,
    Unknown,
}

/// One texture slot of a material: its role and the file it names.
#[derive(Debug, PartialEq, Eq)]
pub struct MaterialTexture {
    pub tex_type: AiTextureType,
    pub path: String,
}

/// A material, as far as the renderer reads it: its texture slots in order.
#[derive(Debug, PartialEq, Eq)]
pub struct Material {
    pub textures: Vec<MaterialTexture>,
}

/// The paths of the slots of role `t`, in slot order.
pub open spec fn paths_of_type(slots: Seq<MaterialTexture>, t: AiTextureType) -> Seq<Seq<char>>
    decreases slots.len(),
{
    if slots.len() == 0 {
        Seq::empty()
    } else {
        let rest = paths_of_type(slots.drop_last(), t);
        if slots.last().tex_type == t {
            rest.push(slots.last().path@)
        } else {
            rest
        }
    }
}

/// The paths of role `t` found among the first slots are a prefix of all of them.
pub proof fn lemma_paths_of_type_prefix(slots: Seq<MaterialTexture>, t: AiTextureType, n: int)
    requires
        0 <= n <= slots.len(),
    ensures
        paths_of_type(slots.take(n), t).len() <= paths_of_type(slots, t).len(),
        forall|k: int|
            0 <= k < paths_of_type(slots.take(n), t).len() ==> #[trigger] paths_of_type(
                slots.take(n),
                t,
            )[k] == paths_of_type(slots, t)[k],
    decreases slots.len() - n,
{
    if n < slots.len() {
        lemma_paths_of_type_prefix(slots, t, n + 1);
        assert(slots.take(n + 1).drop_last() =~= slots.take(n));
        let a = paths_of_type(slots.take(n), t);
        let b = paths_of_type(slots.take(n + 1), t);
        assert forall|k: int| 0 <= k < a.len() implies #[trigger] a[k] == paths_of_type(slots, t)[k] by {
            assert(a[k] == b[k]);
        }
    } else {
        assert(slots.take(n) =~= slots);
    }
}

/// There are no more paths of a role than slots.
pub proof fn lemma_paths_of_type_len(slots: Seq<MaterialTexture>, t: AiTextureType)
    ensures
        paths_of_type(slots, t).len() <= slots.len(),
    decreases slots.len(),
{
    if slots.len() > 0 {
        lemma_paths_of_type_len(slots.drop_last(), t);
    }
}

impl Material {
    /// The paths of the texture slots of role `t`.
    pub open spec fn texture_paths(&self, t: AiTextureType) -> Seq<Seq<char>> {
        paths_of_type(self.textures@, t)
    }

    /// The number of textures of role `tex_type`.
    pub fn texture_count(&self, tex_type: AiTextureType) -> (n: u32)
        requires
            self.textures.len() <= u32::MAX,
        ensures
            n == self.texture_paths(tex_type).len(),
    {
        let mut count: u32 = 0;
        let mut i: usize = 0;
        while i < self.textures.len()
            invariant
                i <= self.textures.len() <= u32::MAX,
                count == paths_of_type(self.textures@.take(i as int), tex_type).len(),
            decreases self.textures.len() - i,
        {
            proof {
                assert(self.textures@.take(i + 1).drop_last() =~= self.textures@.take(i as int));
                lemma_paths_of_type_len(self.textures@.take(i as int), tex_type);
            }
            if self.textures[i].tex_type == tex_type {
                count = count + 1;
            }
            i = i + 1;
        }
        proof {
            assert(self.textures@.take(i as int) =~= self.textures@);
        }
        count
    }

    /// The path of the `index`-th texture of role `tex_type`; `None` when
    /// there are not more than `index` such textures.
    pub fn get_texture(&self, tex_type: AiTextureType, index: u32) -> (path: Option<String>)
        ensures
            path is Some <==> index < self.texture_paths(tex_type).len(),
            path matches Some(p) ==> p@ == self.texture_paths(tex_type)[index as int],
    {
        let mut seen: u32 = 0;
        let mut i: usize = 0;
        while i < self.textures.len()
            invariant
                i <= self.textures.len(),
                seen == paths_of_type(self.textures@.take(i as int), tex_type).len(),
                seen <= index,
            decreases self.textures.len() - i,
        {
            proof {
                assert(self.textures@.take(i + 1).drop_last() =~= self.textures@.take(i as int));
            }
            if self.textures[i].tex_type == tex_type {
                if seen == index {
                    proof {
                        lemma_paths_of_type_prefix(self.textures@, tex_type, i + 1);
                        let taken = self.textures@.take(i + 1);
                        assert(taken.last() == self.textures@[i as int]);
                        assert(paths_of_type(taken, tex_type)[index as int]
                            == self.textures@[i as int].path@);
                    }
                    return Some(self.textures[i].path.clone());
                }
                seen = seen + 1;
            }
            i = i + 1;
        }
        proof {
            assert(self.textures@.take(i as int) =~= self.textures@);
        }
        None
    }
}

} // verus!
