use vstd::prelude::*;

use crate::math::Vector3D;
use crate::scene::material::Material;

verus! {

/// The scene flag set when the importer could not read the whole scene.
pub const AI_SCENE_FLAGS_INCOMPLETE: u32 = 0x1;

/// A polygon of a mesh, as indices into the mesh's vertices.
#[derive(Debug, PartialEq, Eq)]
pub struct Face {
    pub indices: Vec<u32>,
}

/// A mesh of an imported scene.
///
/// `normals[i]` is the normal of vertex `i` where there is one;
/// `texture_coords` is the first texture coordinate channel, if the mesh has one.
#[derive(Debug, PartialEq, Eq)]
pub struct Mesh {
    pub vertices: Vec<Vector3D>,
    pub normals: Vec<Vector3D>,
    pub texture_coords: Option<Vec<Vector3D>>,
    pub faces: Vec<Face>,
    pub material_index: u32,
}

/// A node of the scene graph: the meshes it places and its children.
pub struct Node {
    pub name: String,
    pub meshes: Vec<u32>,
    pub children: Vec<Node>,
}

/// An imported scene: its node tree, meshes and materials.
pub struct Scene {
    pub flags: u32,
    pub root: Node,
    pub meshes: Vec<Mesh>,
    pub materials: Vec<Material>,
}

/// The mesh indices that a node and its subtree place, in depth-first
/// pre-order: the node's own meshes, then each child's subtree in turn.
pub open spec fn node_mesh_order(node: Node) -> Seq<u32>
    decreases node,
{
    node.meshes@ + children_mesh_order(node.children@)
}

/// The mesh indices of a sequence of sibling subtrees, in order.
pub open spec fn children_mesh_order(children: Seq<Node>) -> Seq<u32>
    decreases children,
{
    if children.len() == 0 {
        Seq::empty()
    } else {
        children_mesh_order(children.drop_last()) + node_mesh_order(
            children[children.len() - 1],
        )
    }
}

/// Appends the mesh indices of `node`'s subtree to `order`, in depth-first pre-order.
pub fn collect_mesh_order(node: &Node, order: &mut Vec<u32>)
    ensures
        final(order)@ == old(order)@ + node_mesh_order(*node),
    decreases node,
{
    let ghost start = order@;
    let mut i: usize = 0;
    while i < node.meshes.len()
        invariant
            i <= node.meshes.len(),
            order@ == start + node.meshes@.take(i as int),
        decreases node.meshes.len() - i,
    {
        order.push(node.meshes[i]);
        proof {
            assert(node.meshes@.take(i + 1) =~= node.meshes@.take(i as int).push(node.meshes@[i as int]));
        }
        i = i + 1;
    }
    proof {
        assert(node.meshes@.take(i as int) =~= node.meshes@);
    }
    let mut c: usize = 0;
    while c < node.children.len()
        invariant
            c <= node.children.len(),
            order@ == start + node.meshes@ + children_mesh_order(node.children@.take(c as int)),
        decreases node.children.len() - c,
    {
        let ghost before = order@;
        proof {
            assert(decreases_to!(node => node.children));
        }
        collect_mesh_order(&node.children[c], order);
        proof {
            let taken = node.children@.take(c + 1);
            assert(taken.drop_last() =~= node.children@.take(c as int));
            assert(taken[taken.len() - 1] == node.children@[c as int]);
            assert(order@ =~= start + node.meshes@ + children_mesh_order(taken));
        }
        c = c + 1;
    }
    proof {
        assert(node.children@.take(c as int) =~= node.children@);
    }
}

impl Scene {
    /// Whether the importer flagged the scene as incomplete.
    pub open spec fn incomplete(&self) -> bool {
        self.flags & AI_SCENE_FLAGS_INCOMPLETE != 0
    }

    pub fn is_incomplete(&self) -> (b: bool)
        ensures
            b == self.incomplete(),
            b == (self.flags % 2 == 1),
    {
        proof {
            lemma_incomplete_is_lowest_bit(*self);
        }
        self.flags & AI_SCENE_FLAGS_INCOMPLETE != 0
    }

    /// The mesh indices placed by the scene's node tree, in depth-first pre-order.
    pub open spec fn mesh_order(&self) -> Seq<u32> {
        node_mesh_order(self.root)
    }
}

/// Law: a scene is incomplete exactly when its flags are odd, i.e. the
/// lowest flag bit is set; the other flag bits (such as "validated", 0x2)
/// have no bearing on it.
pub proof fn lemma_incomplete_is_lowest_bit(scene: Scene)
    ensures
        scene.incomplete() <==> scene.flags % 2 == 1,
{
    let f = scene.flags;
    assert((f & 1u32 != 0) <==> f % 2 == 1) by (bit_vector);
}

} // verus!
