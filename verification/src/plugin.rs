//! The attachment cascade as a pipeline of typed steps: step `N`
//! synchronises slot `N`, and every step hands the same context on.
use crate::attach::{
    cascaded, step_handle_ok, step_result, step_state, CascadeError, CompositeAttachment,
    SyncAction, SyncError,
};
use crate::chain::{Cascade, Chain, InRange, Length, L};
use crate::store::{stored_images, ImageStore};
use wgpu_types::Extent3d;
use vstd::prelude::*;

verus! {

/// What the steps of an attachment pipeline hand on: the store, the
/// composite, the size asked for, and the step that failed, if one did.
pub struct AttachParams {
    pub images: ImageStore,
    pub attach: CompositeAttachment,
    pub size: Extent3d,
    pub stopped: Option<CascadeError>,
}

/// The pipeline that synchronises a composite attachment of `K` slots.
pub struct AttachPlugin<const K: usize>;

impl<const K: usize> Length for AttachPlugin<K> {
    type Len = L<K>;
}

impl<const N: usize, const K: usize> Chain<N> for AttachPlugin<K> where
    Self: InRange<N, <Self as Length>::Len>,
 {
    type In = AttachParams;

    type Out = AttachParams;

    open spec fn accepts(input: AttachParams) -> bool {
        input.attach.wf() && N < input.attach.slots().len()
    }

    open spec fn yields(input: AttachParams, output: AttachParams) -> bool {
        let pre = input.attach.state(input.images);
        let post = output.attach.state(output.images);
        let slot = input.attach.slots()[N as int];
        &&& output.attach.wf()
        &&& output.attach.slots() == input.attach.slots()
        &&& output.size == input.size
        &&& if input.stopped is Some {
            output == input
        } else {
            match step_result(pre.images, pre.handles[N as int], slot, input.size) {
                Ok(_) => {
                    &&& output.stopped is None
                    &&& step_handle_ok(
                        pre.images,
                        pre.handles[N as int],
                        post.handles[N as int],
                        slot,
                        input.size,
                    )
                    &&& post == step_state(pre, slot, N as int, input.size, post.handles[N as int])
                },
                Err(error) => {
                    &&& output.stopped == Some(CascadeError { slot: N, error })
                    &&& output.images == input.images
                    &&& output.attach == input.attach
                },
            }
        }
    }

    /// Synchronises slot `N`, unless an earlier step failed.
    fn chain(input: AttachParams) -> (output: AttachParams) {
        if input.stopped.is_some() {
            return input;
        }
        let mut params = input;
        match params.attach.step(&mut params.images, N, params.size) {
            Ok(_) => {},
            Err(error) => {
                params.stopped = Some(CascadeError { slot: N, error });
            },
        }
        params
    }
}

/// The pipeline of a canvas: a composite attachment with a single slot.
pub type CanvasPlugin = AttachPlugin<1>;

/// Runs the canvas pipeline: its one step synchronises slot 0.
///
/// A context that has already stopped is handed back as it is. Otherwise
/// the result is what one cascade step over slot 0 makes of the context,
/// or the context itself with the failure of that step recorded.
pub fn resize_canvas(input: AttachParams) -> (output: AttachParams)
    requires
        input.attach.wf(),
    ensures
        output.attach.wf(),
        output.attach.slots() == input.attach.slots(),
        output.size == input.size,
        input.stopped is Some ==> output == input,
        input.stopped is None ==> match output.stopped {
            None => cascaded(
                input.attach.state(input.images),
                output.attach.state(output.images),
                input.attach.slots(),
                input.size,
                1,
            ),
            Some(stop) => {
                &&& stop.slot == 0
                &&& step_result(
                    stored_images(input.images),
                    input.attach.handles()[0],
                    input.attach.slots()[0],
                    input.size,
                ) == Err::<SyncAction, SyncError>(stop.error)
                &&& output.images == input.images
                &&& output.attach == input.attach
            },
        },
{
    let output = <CanvasPlugin as Cascade>::cascade(input);
    proof {
        reveal_with_fuel(crate::attach::after, 2);
        reveal_with_fuel(crate::attach::succeeds, 2);
    }
    output
}

} // verus!
