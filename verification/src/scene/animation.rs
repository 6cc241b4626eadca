use vstd::prelude::*;

use crate::math::{Quaternion, Vector3D};

verus! {

/// How an animation channel behaves before its first and after its last key.
#[derive(Clone, Copy, Debug, PartialEq, Eq, Structural)]
pub enum AnimBehaviour {
    Default,
    Constant,
    Linear,
    Repeat,
}

/// A position or scaling key of an animation channel.
///
/// `time` is the IEEE-754 double-precision bit pattern of the key's time.
#[derive(Clone, Copy, Debug, PartialEq, Eq, Structural)]
pub struct VectorKey {
    pub time: u64,
    pub value: Vector3D,
}

/// A rotation key of an animation channel.
///
/// `time` is the IEEE-754 double-precision bit pattern of the key's time.
#[derive(Clone, Copy, Debug, PartialEq, Eq, Structural)]
pub struct QuatKey {
    pub time: u64,
    pub value: Quaternion,
}

impl VectorKey {
    /// The key's time, as an IEEE-754 double-precision bit pattern.
    pub fn time(&self) -> (bits: u64)
        ensures
            bits == self.time,
    {
        self.time
    }

    /// The key's value.
    pub fn value(&self) -> (v: Vector3D)
        ensures
            v == self.value,
    {
        self.value
    }
}

impl QuatKey {
    /// The key's time, as an IEEE-754 double-precision bit pattern.
    pub fn time(&self) -> (bits: u64)
        ensures
            bits == self.time,
    {
        self.time
    }

    /// The key's value.
    pub fn value(&self) -> (q: Quaternion)
        ensures
            q == self.value,
    {
        self.value
    }
}

/// The animation of one node: its position, rotation and scaling keys.
#[derive(Debug, PartialEq, Eq)]
pub struct NodeAnim {
    pub node_name: String,
    pub position_keys: Vec<VectorKey>,
    pub rotation_keys: Vec<QuatKey>,
    pub scaling_keys: Vec<VectorKey>,
    pub pre_state: AnimBehaviour,
    pub post_state: AnimBehaviour,
}

impl NodeAnim {
    /// Each key count fits the 32-bit count that the channel reports.
    pub open spec fn wf(&self) -> bool {
        &&& self.position_keys.len() <= u32::MAX
        &&& self.rotation_keys.len() <= u32::MAX
        &&& self.scaling_keys.len() <= u32::MAX
    }

    /// The key at `id` of `keys`, if there is one.
    pub open spec fn key_at<K>(keys: Seq<K>, id: int) -> Option<K> {
        if 0 <= id < keys.len() {
            Some(keys[id])
        } else {
            None
        }
    }

    /// The name of the animated node.
    pub fn name(&self) -> (res: &str)
        ensures
            res@ == self.node_name@,
    {
        self.node_name.as_str()
    }

    pub fn num_position_keys(&self) -> (n: u32)
        requires
            self.wf(),
        ensures
            n == self.position_keys.len(),
    {
        self.position_keys.len() as u32
    }

    pub fn num_rotation_keys(&self) -> (n: u32)
        requires
            self.wf(),
        ensures
            n == self.rotation_keys.len(),
    {
        self.rotation_keys.len() as u32
    }

    pub fn num_scaling_keys(&self) -> (n: u32)
        requires
            self.wf(),
        ensures
            n == self.scaling_keys.len(),
    {
        self.scaling_keys.len() as u32
    }

    /// The position keys, in order.
    pub fn position_key_iter(&self) -> (keys: &[VectorKey])
        ensures
            keys@ == self.position_keys@,
    {
        self.position_keys.as_slice()
    }

    /// The rotation keys, in order.
    pub fn rotation_key_iter(&self) -> (keys: &[QuatKey])
        ensures
            keys@ == self.rotation_keys@,
    {
        self.rotation_keys.as_slice()
    }

    /// The scaling keys, in order.
    pub fn scaling_key_iter(&self) -> (keys: &[VectorKey])
        ensures
            keys@ == self.scaling_keys@,
    {
        self.scaling_keys.as_slice()
    }

    pub fn pre_state(&self) -> (b: AnimBehaviour)
        ensures
            b == self.pre_state,
    {
        self.pre_state
    }

    pub fn post_state(&self) -> (b: AnimBehaviour)
        ensures
            b == self.post_state,
    {
        self.post_state
    }

    /// The position key at `id`; `None` when `id` is not below the key count.
    pub fn get_position_key(&self, id: usize) -> (key: Option<VectorKey>)
        ensures
            key == Self::key_at(self.position_keys@, id as int),
    {
        if id < self.position_keys.len() {
            Some(self.position_keys[id])
        } else {
            None
        }
    }

    /// The rotation key at `id`; `None` when `id` is not below the key count.
    pub fn get_rotation_key(&self, id: usize) -> (key: Option<QuatKey>)
        ensures
            key == Self::key_at(self.rotation_keys@, id as int),
    {
        if id < self.rotation_keys.len() {
            Some(self.rotation_keys[id])
        } else {
            None
        }
    }

    /// The scaling key at `id`; `None` when `id` is not below the key count.
    pub fn get_scaling_key(&self, id: usize) -> (key: Option<VectorKey>)
        ensures
            key == Self::key_at(self.scaling_keys@, id as int),
    {
        if id < self.scaling_keys.len() {
            Some(self.scaling_keys[id])
        } else {
            None
        }
    }
}

/// An animation: a set of node channels.
///
/// `duration` and `ticks_per_second` are IEEE-754 double-precision bit patterns.
#[derive(Debug, PartialEq, Eq)]
pub struct Animation {
    pub name: String,
    pub duration: u64,
    pub ticks_per_second: u64,
    pub channels: Vec<NodeAnim>,
}

impl Animation {
    /// The channel count fits the 32-bit count that the animation reports.
    pub open spec fn wf(&self) -> bool {
        self.channels.len() <= u32::MAX
    }

    pub fn name(&self) -> (res: &str)
        ensures
            res@ == self.name@,
    {
        self.name.as_str()
    }

    /// The animation's duration in ticks, as an IEEE-754 double-precision bit pattern.
    pub fn duration(&self) -> (bits: u64)
        ensures
            bits == self.duration,
    {
        self.duration
    }

    /// Ticks per second, as an IEEE-754 double-precision bit pattern.
    pub fn ticks_per_second(&self) -> (bits: u64)
        ensures
            bits == self.ticks_per_second,
    {
        self.ticks_per_second
    }

    pub fn num_channels(&self) -> (n: u32)
        requires
            self.wf(),
        ensures
            n == self.channels.len(),
    {
        self.channels.len() as u32
    }

    /// The channels, in order.
    pub fn channel_iter(&self) -> (channels: &[NodeAnim])
        ensures
            channels@ == self.channels@,
    {
        self.channels.as_slice()
    }

    /// The channel at `id`; `None` when `id` is not below the channel count.
    pub fn get_node_anim(&self, id: usize) -> (anim: Option<&NodeAnim>)
        ensures
            id < self.channels.len() ==> anim == Some(&self.channels@[id as int]),
            id >= self.channels.len() ==> anim is None,
    {
        if id < self.channels.len() {
            Some(&self.channels[id])
        } else {
            None
        }
    }
}

/// Law: a channel's keys are reached alike by index and by iteration.
/// `get_*_key(id)` yields a key exactly when `id` is below the reported key
/// count, and that key is the `id`-th of the iteration.
pub proof fn lemma_key_lookup_agrees_with_iteration(anim: NodeAnim, id: usize)
    requires
        anim.wf(),
    ensures
        NodeAnim::key_at(anim.position_keys@, id as int) is Some <==> id < anim.position_keys.len(),
        NodeAnim::key_at(anim.rotation_keys@, id as int) is Some <==> id < anim.rotation_keys.len(),
        NodeAnim::key_at(anim.scaling_keys@, id as int) is Some <==> id < anim.scaling_keys.len(),
        id < anim.position_keys.len() ==> NodeAnim::key_at(anim.position_keys@, id as int)
            == Some(anim.position_keys@[id as int]),
        id < anim.rotation_keys.len() ==> NodeAnim::key_at(anim.rotation_keys@, id as int)
            == Some(anim.rotation_keys@[id as int]),
        id < anim.scaling_keys.len() ==> NodeAnim::key_at(anim.scaling_keys@, id as int)
            == Some(anim.scaling_keys@[id as int]),
{
}

} // verus!
