//! The registry of live shaders: the one place that holds them, found again
//! by identity.

use vstd::prelude::*;
use crate::common::Id;
use crate::error::ShaderError;
use crate::shader::Shader;

verus! {

/// No two of `shaders` share an identity.
pub open spec fn ids_distinct(shaders: Seq<Shader>) -> bool {
    forall|i: int, j: int|
        0 <= i < j < shaders.len() ==> (#[trigger] shaders[i]).id != (#[trigger] shaders[j]).id
}

/// `index` is the position in `shaders` of the shader with identity `id`.
pub open spec fn is_position_of(shaders: Seq<Shader>, id: Id, index: int) -> bool {
    0 <= index < shaders.len() && shaders[index].id == id
}

/// One of `shaders` has the identity `id`.
pub open spec fn holds(shaders: Seq<Shader>, id: Id) -> bool {
    exists|i: int| is_position_of(shaders, id, i)
}

/// The modules of `shaders`, in order.
pub open spec fn modules_of(shaders: Seq<Shader>) -> Seq<u64> {
    shaders.map_values(|shader: Shader| shader.module)
}

/// The live shaders, in the order in which they were registered. No two of
/// them share an identity.
#[derive(Debug)]
pub struct ResourceManager {
    shaders: Vec<Shader>,
}

impl View for ResourceManager {
    type V = Seq<Shader>;

    closed spec fn view(&self) -> Seq<Shader> {
        self.shaders@
    }
}

impl ResourceManager {
    #[verifier::type_invariant]
    spec fn distinct(self) -> bool {
        ids_distinct(self.shaders@)
    }

    /// A registry that holds nothing.
    pub fn new() -> (registry: ResourceManager)
        ensures
            registry@ == Seq::<Shader>::empty(),
    {
        ResourceManager { shaders: Vec::new() }
    }

    /// How many shaders are live.
    pub fn len(&self) -> (count: usize)
        ensures
            count == self@.len(),
            ids_distinct(self@),
    {
        proof {
            use_type_invariant(self);
        }
        self.shaders.len()
    }

    /// The position of the shader with identity `id`, if it is live.
    pub fn find(&self, id: Id) -> (found: Option<usize>)
        ensures
            ids_distinct(self@),
            match found {
                Some(index) => is_position_of(self@, id, index as int),
                None => !holds(self@, id),
            },
    {
        proof {
            use_type_invariant(self);
        }
        let mut i: usize = 0;
        while i < self.shaders.len()
            invariant
                i <= self.shaders.len(),
                ids_distinct(self.shaders@),
                forall|k: int| 0 <= k < i ==> !is_position_of(self.shaders@, id, k),
            decreases self.shaders.len() - i,
        {
            if self.shaders[i].id == id {
                return Some(i);
            }
            i += 1;
        }
        None
    }

    /// The live shader at `index`, in the order of registration.
    pub fn get(&self, index: usize) -> (shader: Option<Shader>)
        ensures
            shader == if index < self@.len() {
                Some(self@[index as int])
            } else {
                None
            },
    {
        if index < self.shaders.len() {
            Some(self.shaders[index])
        } else {
            None
        }
    }

    /// Takes `shader` in as the last of the live shaders. A shader whose
    /// identity is live already is turned away, and nothing changes.
    pub fn register_shader(&mut self, shader: Shader) -> (outcome: Result<(), ShaderError>)
        ensures
            ids_distinct(old(self)@),
            ids_distinct(final(self)@),
            holds(old(self)@, shader.id) ==> outcome == Err::<(), _>(ShaderError::Duplicate)
                && final(self)@ == old(self)@,
            !holds(old(self)@, shader.id) ==> outcome is Ok && final(self)@ == old(self)@.push(
                shader,
            ),
    {
        match self.find(shader.id) {
            Some(_) => Err(ShaderError::Duplicate),
            None => {
                proof {
                    use_type_invariant(&*self);
                    let before = self.shaders@;
                    assert forall|i: int, j: int|
                        0 <= i < j < before.push(shader).len() implies (#[trigger] before.push(
                        shader,
                    )[i]).id != (#[trigger] before.push(shader)[j]).id by {
                        if j == before.len() {
                            assert(!is_position_of(before, shader.id, i));
                        }
                    }
                }
                let mut taken = ResourceManager::new();
                std::mem::swap(self, &mut taken);
                let mut shaders = taken.shaders;
                shaders.push(shader);
                *self = ResourceManager { shaders };
                Ok(())
            },
        }
    }

    /// Takes the shader with identity `id` out of the live shaders and hands
    /// it back, so that its module can be destroyed. The others stay, in
    /// their order. Where no such shader is live, nothing changes.
    pub fn delete_shader(&mut self, id: Id) -> (removed: Option<Shader>)
        ensures
            ids_distinct(old(self)@),
            ids_distinct(final(self)@),
            !holds(final(self)@, id),
            match removed {
                Some(shader) => exists|index: int|
                    {
                        &&& #[trigger] is_position_of(old(self)@, id, index)
                        &&& shader == old(self)@[index]
                        &&& final(self)@ == old(self)@.remove(index)
                    },
                None => !holds(old(self)@, id) && final(self)@ == old(self)@,
            },
    {
        match self.find(id) {
            Some(index) => {
                proof {
                    use_type_invariant(&*self);
                    let before = self.shaders@;
                    let after = before.remove(index as int);
                    assert forall|i: int| 0 <= i < after.len() implies (#[trigger] after[i]).id
                        != id by {
                        if i < index {
                            assert(after[i] == before[i]);
                        } else {
                            assert(after[i] == before[i + 1]);
                        }
                    }
                    assert forall|i: int, j: int| 0 <= i < j < after.len() implies (
                    #[trigger] after[i]).id != (#[trigger] after[j]).id by {
                        let pi = if i < index {
                            i
                        } else {
                            i + 1
                        };
                        let pj = if j < index {
                            j
                        } else {
                            j + 1
                        };
                        assert(after[i] == before[pi]);
                        assert(after[j] == before[pj]);
                    }
                }
                let mut taken = ResourceManager::new();
                std::mem::swap(self, &mut taken);
                let mut shaders = taken.shaders;
                let shader = shaders.remove(index);
                *self = ResourceManager { shaders };
                Some(shader)
            },
            None => None,
        }
    }

    /// Takes every live shader out and hands them back in the order in which
    /// they were registered, so that their modules can be destroyed.
    pub fn delete_shaders(&mut self) -> (removed: Vec<Shader>)
        ensures
            removed@ == old(self)@,
            ids_distinct(removed@),
            final(self)@ == Seq::<Shader>::empty(),
    {
        proof {
            use_type_invariant(&*self);
        }
        let mut taken = ResourceManager::new();
        std::mem::swap(self, &mut taken);
        taken.shaders
    }
}

} // verus!
