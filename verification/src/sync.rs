//! The primitives that pace a frame: two semaphores and a fence.

use vstd::prelude::*;
use crate::context::TeardownStep;

verus! {

/// A primitive that is to be created.
#[derive(Clone, Copy, Debug, PartialEq, Eq, Structural)]
pub enum SyncObject {
    /// A semaphore, unsignaled.
    Semaphore,
    /// A fence, signaled from the start or not.
    Fence { signaled: bool },
}

/// The primitives of a context, by their handles.
#[derive(Clone, Copy, Debug, PartialEq, Eq, Structural)]
pub struct SynchronizationPrimitivesManager {
    /// Signaled when the next image is available.
    pub available_image_semaphore: u64,
    /// Signaled when rendering is complete.
    pub render_semaphore: u64,
    /// Signaled when rendering is complete, for the host to wait on.
    pub render_fence: u64,
}

impl SynchronizationPrimitivesManager {
    /// What is created for a context, in this order: the two semaphores, then
    /// the fence. The fence starts signaled, so that the first frame does not
    /// wait for a frame before it.
    pub open spec fn objects() -> Seq<SyncObject> {
        seq![SyncObject::Semaphore, SyncObject::Semaphore, SyncObject::Fence { signaled: true }]
    }

    /// The primitives to create, in order.
    pub fn plan() -> (objects: Vec<SyncObject>)
        ensures
            objects@ == Self::objects(),
    {
        let mut objects: Vec<SyncObject> = Vec::new();
        objects.push(SyncObject::Semaphore);
        objects.push(SyncObject::Semaphore);
        objects.push(SyncObject::Fence { signaled: true });
        assert(objects@ =~= Self::objects());
        objects
    }

    /// Takes over the three primitives that were created.
    pub fn new(available_image_semaphore: u64, render_semaphore: u64, render_fence: u64) -> (sync:
        SynchronizationPrimitivesManager)
        ensures
            sync == (SynchronizationPrimitivesManager {
                available_image_semaphore,
                render_semaphore,
                render_fence,
            }),
    {
        SynchronizationPrimitivesManager {
            available_image_semaphore,
            render_semaphore,
            render_fence,
        }
    }

    /// What releases the primitives: the two semaphores, then the fence.
    pub open spec fn releases(self) -> Seq<TeardownStep> {
        seq![
            TeardownStep::DestroySemaphore(self.available_image_semaphore),
            TeardownStep::DestroySemaphore(self.render_semaphore),
            TeardownStep::DestroyFence(self.render_fence),
        ]
    }

    /// The calls that release the primitives, in order. They are to be made
    /// while the device still exists and after it has gone idle.
    pub fn destroy_resources(&self) -> (steps: Vec<TeardownStep>)
        ensures
            steps@ == self.releases(),
    {
        let mut steps: Vec<TeardownStep> = Vec::new();
        steps.push(TeardownStep::DestroySemaphore(self.available_image_semaphore));
        steps.push(TeardownStep::DestroySemaphore(self.render_semaphore));
        steps.push(TeardownStep::DestroyFence(self.render_fence));
        assert(steps@ =~= self.releases());
        steps
    }
}

} // verus!
