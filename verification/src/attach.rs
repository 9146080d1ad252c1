//! Attachment slots and their synchronisation with a target size.
//!
//! A composite attachment is an ordered, fixed-length row of image
//! handles, each paired with the definition of its slot. One cascade
//! brings every slot, in ascending order of index, to the size asked for.
use crate::store::{
    allocated, block_copy_size, block_dimensions, covers, format_block_copy_size,
    format_block_dimensions, redescribed, resized_data, resized_in_place, store_add, store_lookup,
    store_resize_in_place, store_set_size, stored_images, volume, ImageDescriptor, ImageId,
    ImageInfo, ImageStore, ViewDescriptor,
};
use vstd::arithmetic::div_mod::lemma_fundamental_div_mod_converse;
use vstd::prelude::*;
use wgpu_types::{
    BlendState, ColorTargetState, ColorWrites, Extent3d, TextureAspect, TextureDimension,
    TextureFormat, TextureUsages, TextureViewDescriptor, TextureViewDimension,
};

verus! {

/// The largest number of slots a composite attachment may declare.
pub const MAX_SLOTS: usize = 16;

/// The UUID of Bevy's default image handle, which marks a slot whose image
/// has not been allocated yet.
pub const PLACEHOLDER_UUID: u128 = 200809721996911295814598172825939264631;

/// The handle of a slot that has no image yet.
pub open spec fn placeholder() -> ImageId {
    ImageId::Uuid { value: PLACEHOLDER_UUID }
}

/// The handle of a slot that has no image yet.
pub fn placeholder_handle() -> (id: ImageId)
    ensures
        id == placeholder(),
{
    ImageId::Uuid { value: PLACEHOLDER_UUID }
}

/// Why a slot could not be brought to the size asked for.
#[derive(Clone, Copy, PartialEq, Eq, Structural, Debug)]
pub enum SyncError {
    /// Width, height or layer count is zero.
    InvalidSize,
    /// In-place resize was asked of a format without a byte size per pixel.
    NoPixelSize,
    /// The byte length of the resized image cannot be computed.
    TooLarge,
    /// The image's pixel data does not cover the size it is recorded with.
    ContentMismatch,
    /// A size-only change was asked of an image that holds pixel data.
    CpuContent,
}

/// What synchronising a slot did.
#[derive(Clone, Copy, PartialEq, Eq, Structural, Debug)]
pub enum SyncAction {
    /// The slot held the placeholder: an image was allocated.
    Materialized,
    /// The slot's handle found no image: a new one was allocated.
    Recovered,
    /// The image already had the size asked for.
    Unchanged,
    /// The image was resized in place, keeping its content.
    ResizedInPlace,
    /// Only the image's size descriptor was rewritten.
    Redescribed,
}

/// The definition of one attachment slot.
#[derive(Clone, Copy, Debug)]
pub struct Attach {
    pub label: Option<&'static str>,
    pub blend_state: Option<BlendState>,
    pub color_writes: ColorWrites,
    pub texture_aspect: TextureAspect,
    /// Whether a resize keeps the content of the image.
    pub copy_on_resize: bool,
    pub texture_format: TextureFormat,
    pub texture_usages: TextureUsages,
}

/// Whether an image can be resized in place, or why not, given its extent,
/// the length of its pixel data if it holds any, the block dimensions and
/// the bytes per block of its format, and the extent asked for.
///
/// The format must have blocks of one pixel with a byte size; the new
/// extent must count at most `u32::MAX` pixels and `usize::MAX` bytes; and
/// pixel data, where present, must cover the old extent.
pub open spec fn in_place_outcome(
    from: Extent3d,
    data_len: Option<nat>,
    dims: (u32, u32),
    bytes_per_pixel: Option<u32>,
    to: Extent3d,
) -> Result<(), SyncError> {
    if dims != (1u32, 1u32) || bytes_per_pixel is None {
        Err(SyncError::NoPixelSize)
    } else if volume(to) > u32::MAX || bytes_per_pixel.unwrap() * volume(to) > usize::MAX {
        Err(SyncError::TooLarge)
    } else if data_len is Some && !covers(data_len.unwrap(), bytes_per_pixel.unwrap(), from) {
        Err(SyncError::ContentMismatch)
    } else {
        Ok(())
    }
}

/// An extent with no zero dimension.
pub open spec fn valid_extent(size: Extent3d) -> bool {
    size.width >= 1 && size.height >= 1 && size.depth_or_array_layers >= 1
}

/// What synchronising a slot does, or why it fails, given the images in
/// the store, the slot's handle, its definition and the size asked for.
pub open spec fn step_result(
    images: Map<ImageId, ImageInfo>,
    handle: ImageId,
    slot: Attach,
    size: Extent3d,
) -> Result<SyncAction, SyncError> {
    if !valid_extent(size) {
        Err(SyncError::InvalidSize)
    } else if handle == placeholder() {
        Ok(SyncAction::Materialized)
    } else if !images.dom().contains(handle) {
        Ok(SyncAction::Recovered)
    } else if images[handle].size == size {
        Ok(SyncAction::Unchanged)
    } else if slot.copy_on_resize {
        let info = images[handle];
        match in_place_outcome(
            info.size,
            match info.data {
                Some(bytes) => Some(bytes.len()),
                None => None,
            },
            block_dimensions(info.format),
            block_copy_size(info.format),
            size,
        ) {
            Ok(()) => Ok(SyncAction::ResizedInPlace),
            Err(error) => Err(error),
        }
    } else if images[handle].data is Some {
        Err(SyncError::CpuContent)
    } else {
        Ok(SyncAction::Redescribed)
    }
}

/// Whether an action allocates an image.
pub open spec fn allocates(action: SyncAction) -> bool {
    action == SyncAction::Materialized || action == SyncAction::Recovered
}

/// Whether `chosen` may be a slot's handle after its step: a new index
/// identifier where the step allocates, the handle it had otherwise.
pub open spec fn step_handle_ok(
    images: Map<ImageId, ImageInfo>,
    handle: ImageId,
    chosen: ImageId,
    slot: Attach,
    size: Extent3d,
) -> bool {
    match step_result(images, handle, slot, size) {
        Ok(action) => if allocates(action) {
            chosen is Index && !images.dom().contains(chosen)
        } else {
            chosen == handle
        },
        Err(_) => chosen == handle,
    }
}

/// The images in the store after a slot's step, where `chosen` is the
/// slot's handle after it.
pub open spec fn step_images(
    images: Map<ImageId, ImageInfo>,
    handle: ImageId,
    chosen: ImageId,
    slot: Attach,
    size: Extent3d,
) -> Map<ImageId, ImageInfo> {
    match step_result(images, handle, slot, size) {
        Ok(SyncAction::Materialized) | Ok(SyncAction::Recovered) => images.insert(
            chosen,
            allocated(slot.image_of(size), None),
        ),
        Ok(SyncAction::ResizedInPlace) => images.insert(
            handle,
            resized_in_place(images[handle], size),
        ),
        Ok(SyncAction::Redescribed) => images.insert(handle, redescribed(images[handle], size)),
        _ => images,
    }
}

/// Number of pixels of an extent.
fn pixel_count(size: Extent3d) -> (pixels: u128)
    ensures
        pixels == volume(size),
        pixels <= 0xFFFF_FFFF * 0xFFFF_FFFF * 0xFFFF_FFFF,
{
    let ghost w = size.width as int;
    let ghost h = size.height as int;
    let ghost d = size.depth_or_array_layers as int;
    assert(0 <= w * h <= 0xFFFF_FFFF * 0xFFFF_FFFF) by (nonlinear_arith)
        requires
            0 <= w <= 0xFFFF_FFFF,
            0 <= h <= 0xFFFF_FFFF,
    ;
    assert(0 <= (w * h) * d <= 0xFFFF_FFFF * 0xFFFF_FFFF * 0xFFFF_FFFF) by (nonlinear_arith)
        requires
            0 <= w * h <= 0xFFFF_FFFF * 0xFFFF_FFFF,
            0 <= d <= 0xFFFF_FFFF,
    ;
    (size.width as u128) * (size.height as u128) * (size.depth_or_array_layers as u128)
}

/// Number of bytes of an extent at the given number of bytes per pixel.
fn byte_count(bytes_per_pixel: u32, size: Extent3d) -> (bytes: u128)
    ensures
        bytes == bytes_per_pixel * volume(size),
{
    let pixels = pixel_count(size);
    let ghost v = pixels as int;
    let ghost p = bytes_per_pixel as int;
    assert(0 <= p * v <= 0xFFFF_FFFF * (0xFFFF_FFFF * 0xFFFF_FFFF * 0xFFFF_FFFF))
        by (nonlinear_arith)
        requires
            0 <= p <= 0xFFFF_FFFF,
            0 <= v <= 0xFFFF_FFFF * 0xFFFF_FFFF * 0xFFFF_FFFF,
    ;
    (bytes_per_pixel as u128) * pixels
}

/// Decides whether an image can be resized in place, from what a lookup
/// read of it and what its format reports: see [`in_place_outcome`].
pub fn plan_in_place(
    from: Extent3d,
    data_len: Option<usize>,
    dims: (u32, u32),
    bytes_per_pixel: Option<u32>,
    to: Extent3d,
) -> (res: Result<(), SyncError>)
    ensures
        res == in_place_outcome(
            from,
            match data_len {
                Some(len) => Some(len as nat),
                None => None,
            },
            dims,
            bytes_per_pixel,
            to,
        ),
{
    if dims.0 != 1 || dims.1 != 1 {
        return Err(SyncError::NoPixelSize);
    }
    let bytes_per_pixel = match bytes_per_pixel {
        None => {
            return Err(SyncError::NoPixelSize);
        },
        Some(bytes) => bytes,
    };
    if pixel_count(to) > 0xFFFF_FFFF || byte_count(bytes_per_pixel, to) > usize::MAX as u128 {
        return Err(SyncError::TooLarge);
    }
    if let Some(len) = data_len {
        if from.height == 0 || from.depth_or_array_layers == 0 || (len as u128) < byte_count(
            bytes_per_pixel,
            from,
        ) {
            return Err(SyncError::ContentMismatch);
        }
    }
    Ok(())
}

impl Attach {
    /// The view of this slot's image at the given size: a plain view of
    /// one layer, an array view otherwise, over every mip level and layer.
    pub open spec fn view_of(self, size: Extent3d) -> ViewDescriptor {
        TextureViewDescriptor {
            label: self.label,
            format: Some(self.texture_format),
            dimension: Some(
                if size.depth_or_array_layers == 1 {
                    TextureViewDimension::D2
                } else {
                    TextureViewDimension::D2Array
                },
            ),
            usage: Some(self.texture_usages),
            aspect: self.texture_aspect,
            base_mip_level: 0,
            mip_level_count: None,
            base_array_layer: 0,
            array_layer_count: None,
        }
    }

    /// The colour target of a pipeline that renders to this slot.
    pub fn color_target_state(&self) -> (target: ColorTargetState)
        ensures
            target == (ColorTargetState {
                format: self.texture_format,
                blend: self.blend_state,
                write_mask: self.color_writes,
            }),
    {
        ColorTargetState {
            format: self.texture_format,
            blend: self.blend_state,
            write_mask: self.color_writes,
        }
    }

    /// The image this slot allocates for the given size: two-dimensional,
    /// with one mip level and one sample per pixel.
    pub open spec fn image_of(self, size: Extent3d) -> ImageDescriptor {
        ImageDescriptor {
            label: self.label,
            size,
            mip_level_count: 1,
            sample_count: 1,
            dimension: TextureDimension::D2,
            format: self.texture_format,
            usage: self.texture_usages,
            view: self.view_of(size),
        }
    }

    /// The extent of an attachment for a target of the given width and
    /// height: one layer of that size.
    pub fn compute_size(width: u32, height: u32) -> (size: Extent3d)
        ensures
            size == (Extent3d { width, height, depth_or_array_layers: 1 }),
    {
        Extent3d { width, height, depth_or_array_layers: 1 }
    }

    /// The view through which this slot's image of the given size is used:
    /// a plain view of one layer, an array view of several. An extent
    /// without layers has no view.
    pub fn texture_view(&self, size: Extent3d) -> (view: Result<ViewDescriptor, SyncError>)
        ensures
            size.depth_or_array_layers == 0 <==> view is Err,
            view is Err ==> view == Err::<ViewDescriptor, SyncError>(SyncError::InvalidSize),
            view is Ok ==> view.unwrap() == self.view_of(size),
    {
        if size.depth_or_array_layers == 0 {
            return Err(SyncError::InvalidSize);
        }
        let dimension = if size.depth_or_array_layers == 1 {
            TextureViewDimension::D2
        } else {
            TextureViewDimension::D2Array
        };
        Ok(
            TextureViewDescriptor {
                label: self.label,
                format: Some(self.texture_format),
                dimension: Some(dimension),
                usage: Some(self.texture_usages),
                aspect: self.texture_aspect,
                base_mip_level: 0,
                mip_level_count: None,
                base_array_layer: 0,
                array_layer_count: None,
            },
        )
    }

    /// Describes the image this slot allocates for the given size. An
    /// extent without layers has none.
    pub fn new_image(&self, size: Extent3d) -> (image: Result<ImageDescriptor, SyncError>)
        ensures
            size.depth_or_array_layers == 0 <==> image is Err,
            image is Err ==> image == Err::<ImageDescriptor, SyncError>(SyncError::InvalidSize),
            image is Ok ==> image.unwrap() == self.image_of(size),
    {
        match self.texture_view(size) {
            Err(e) => Err(e),
            Ok(view) => Ok(
                ImageDescriptor {
                    label: self.label,
                    size,
                    mip_level_count: 1,
                    sample_count: 1,
                    dimension: TextureDimension::D2,
                    format: self.texture_format,
                    usage: self.texture_usages,
                    view,
                },
            ),
        }
    }

    /// Brings the image behind `handle` to `size` as this slot's definition
    /// asks, and returns the slot's handle afterwards with what was done.
    ///
    /// A placeholder, or a handle under which the store holds nothing, gets
    /// a newly allocated image. An image of the right size is left alone.
    /// Any other image is resized in place where the slot keeps its content,
    /// and has only its size descriptor rewritten where it does not. On an
    /// error the store is as it was.
    pub fn synchronize(&self, store: &mut ImageStore, handle: ImageId, size: Extent3d) -> (res:
        Result<(ImageId, SyncAction), SyncError>)
        ensures
            match res {
                Ok((chosen, action)) => {
                    &&& step_result(stored_images(*old(store)), handle, *self, size) == Ok::<
                        SyncAction,
                        SyncError,
                    >(action)
                    &&& step_handle_ok(stored_images(*old(store)), handle, chosen, *self, size)
                    &&& stored_images(*final(store)) == step_images(
                        stored_images(*old(store)),
                        handle,
                        chosen,
                        *self,
                        size,
                    )
                    &&& action == SyncAction::Unchanged ==> *final(store) == *old(store)
                },
                Err(error) => {
                    &&& step_result(stored_images(*old(store)), handle, *self, size) == Err::<
                        SyncAction,
                        SyncError,
                    >(error)
                    &&& *final(store) == *old(store)
                },
            },
    {
        if size.width == 0 || size.height == 0 || size.depth_or_array_layers == 0 {
            return Err(SyncError::InvalidSize);
        }
        let descriptor = match self.new_image(size) {
            Ok(descriptor) => descriptor,
            Err(error) => {
                return Err(error);
            },
        };
        if handle == placeholder_handle() {
            let id = store_add(store, descriptor, None);
            return Ok((id, SyncAction::Materialized));
        }
        let info = match store_lookup(store, handle) {
            None => {
                let id = store_add(store, descriptor, None);
                return Ok((id, SyncAction::Recovered));
            },
            Some(info) => info,
        };
        if info.size.width == size.width && info.size.height == size.height
            && info.size.depth_or_array_layers == size.depth_or_array_layers {
            return Ok((handle, SyncAction::Unchanged));
        }
        if !self.copy_on_resize {
            if info.data_len.is_some() {
                return Err(SyncError::CpuContent);
            }
            store_set_size(store, handle, size);
            return Ok((handle, SyncAction::Redescribed));
        }
        let dims = format_block_dimensions(info.format);
        let bytes_per_pixel = format_block_copy_size(info.format);
        match plan_in_place(info.size, info.data_len, dims, bytes_per_pixel, size) {
            Ok(()) => {},
            Err(error) => {
                return Err(error);
            },
        }
        store_resize_in_place(store, handle, size);
        Ok((handle, SyncAction::ResizedInPlace))
    }
}

/// Why a composite attachment could not be defined.
#[derive(Clone, Copy, PartialEq, Eq, Structural, Debug)]
pub enum DefinitionError {
    /// The declared length is zero or above [`MAX_SLOTS`].
    LengthOutOfRange,
    /// The number of slot definitions differs from the declared length.
    SlotCountMismatch,
}

/// A cascade that stopped: the slot at which it did, and why.
#[derive(Clone, Copy, PartialEq, Eq, Structural, Debug)]
pub struct CascadeError {
    pub slot: usize,
    pub error: SyncError,
}

/// The images in the store together with the handles of a composite.
pub ghost struct SyncState {
    pub images: Map<ImageId, ImageInfo>,
    pub handles: Seq<ImageId>,
}

/// The state after the step of slot `index`, where `chosen` is the slot's
/// handle after it.
pub open spec fn step_state(
    state: SyncState,
    slot: Attach,
    index: int,
    size: Extent3d,
    chosen: ImageId,
) -> SyncState {
    SyncState {
        images: step_images(state.images, state.handles[index], chosen, slot, size),
        handles: state.handles.update(index, chosen),
    }
}

/// The state after the steps of slots `0` to `n - 1`, taken in this order,
/// where `chosen` gives each slot's handle after its step.
pub open spec fn after(
    pre: SyncState,
    slots: Seq<Attach>,
    size: Extent3d,
    chosen: Seq<ImageId>,
    n: nat,
) -> SyncState
    decreases n,
{
    if n == 0 {
        pre
    } else {
        step_state(
            after(pre, slots, size, chosen, (n - 1) as nat),
            slots[n - 1],
            n - 1,
            size,
            chosen[n - 1],
        )
    }
}

/// Whether each of the steps of slots `0` to `n - 1` succeeds, with a
/// handle in `chosen` that its step may leave.
pub open spec fn succeeds(
    pre: SyncState,
    slots: Seq<Attach>,
    size: Extent3d,
    chosen: Seq<ImageId>,
    n: nat,
) -> bool
    decreases n,
{
    n == 0 || {
        let mid = after(pre, slots, size, chosen, (n - 1) as nat);
        &&& succeeds(pre, slots, size, chosen, (n - 1) as nat)
        &&& step_result(mid.images, mid.handles[n - 1], slots[n - 1], size) is Ok
        &&& step_handle_ok(mid.images, mid.handles[n - 1], chosen[n - 1], slots[n - 1], size)
    }
}

/// Whether `post` is what the steps of slots `0` to `n - 1`, all
/// successful and taken in this order, make of `pre`.
pub open spec fn cascaded(
    pre: SyncState,
    post: SyncState,
    slots: Seq<Attach>,
    size: Extent3d,
    n: nat,
) -> bool {
    &&& succeeds(pre, slots, size, post.handles, n)
    &&& post == after(pre, slots, size, post.handles, n)
}

/// Whether `actions` names, slot by slot, what the steps of slots `0` to
/// `n - 1` did, each on the images that the steps before it left.
pub open spec fn actions_taken(
    pre: SyncState,
    slots: Seq<Attach>,
    size: Extent3d,
    chosen: Seq<ImageId>,
    actions: Seq<SyncAction>,
    n: nat,
) -> bool {
    &&& actions.len() == n
    &&& forall|k: int|
        0 <= k < n ==> step_result(
            after(pre, slots, size, chosen, k as nat).images,
            pre.handles[k],
            slots[k],
            size,
        ) == Ok::<SyncAction, SyncError>(#[trigger] actions[k])
}

/// Whether every one of the first `n` handles leads to an image of the
/// given size.
pub open spec fn synced(state: SyncState, size: Extent3d, n: nat) -> bool {
    forall|j: int|
        0 <= j < n ==> {
            &&& #[trigger] state.handles[j] != placeholder()
            &&& state.images.dom().contains(state.handles[j])
            &&& state.images[state.handles[j]].size == size
        }
}

/// The state after `n` steps depends on the first `n` chosen handles only.
proof fn lemma_chosen_prefix(
    pre: SyncState,
    slots: Seq<Attach>,
    size: Extent3d,
    a: Seq<ImageId>,
    b: Seq<ImageId>,
    n: nat,
)
    requires
        forall|j: int| 0 <= j < n ==> a[j] == b[j],
    ensures
        after(pre, slots, size, a, n) == after(pre, slots, size, b, n),
        succeeds(pre, slots, size, a, n) == succeeds(pre, slots, size, b, n),
    decreases n,
{
    if n > 0 {
        lemma_chosen_prefix(pre, slots, size, a, b, (n - 1) as nat);
    }
}

/// Steps keep the number of handles, and leave the handles of the slots
/// not yet reached as they were.
proof fn lemma_after_handles(
    pre: SyncState,
    slots: Seq<Attach>,
    size: Extent3d,
    chosen: Seq<ImageId>,
    n: nat,
)
    requires
        n <= pre.handles.len(),
    ensures
        after(pre, slots, size, chosen, n).handles.len() == pre.handles.len(),
        forall|j: int|
            n <= j < pre.handles.len() ==> after(pre, slots, size, chosen, n).handles[j]
                == pre.handles[j],
        forall|j: int|
            0 <= j < n ==> after(pre, slots, size, chosen, n).handles[j] == chosen[j],
    decreases n,
{
    if n > 0 {
        lemma_after_handles(pre, slots, size, chosen, (n - 1) as nat);
    }
}

/// An ordered row of image handles of fixed length, one per slot, each
/// paired with the definition of its slot.
pub struct CompositeAttachment {
    handles: Vec<ImageId>,
    slots: Vec<Attach>,
}

impl CompositeAttachment {
    /// The handles, by slot index.
    pub closed spec fn handles(&self) -> Seq<ImageId> {
        self.handles@
    }

    /// The slot definitions, by slot index.
    pub closed spec fn slots(&self) -> Seq<Attach> {
        self.slots@
    }

    /// Every index has one handle and one definition, and there are
    /// between one and [`MAX_SLOTS`] of them.
    pub open spec fn wf(&self) -> bool {
        &&& self.handles().len() == self.slots().len()
        &&& 1 <= self.slots().len() <= MAX_SLOTS
    }

    /// The handles of this composite beside the images of a store.
    pub open spec fn state(&self, store: ImageStore) -> SyncState {
        SyncState { images: stored_images(store), handles: self.handles() }
    }

    /// Defines a composite of the declared length with one definition per
    /// slot, every handle a placeholder. A length outside 1 to
    /// [`MAX_SLOTS`], or a number of definitions other than the declared
    /// length, is refused here and never later.
    pub fn new(length: usize, slots: Vec<Attach>) -> (res: Result<Self, DefinitionError>)
        ensures
            match res {
                Ok(composite) => {
                    &&& 1 <= length <= MAX_SLOTS
                    &&& slots@.len() == length
                    &&& composite.wf()
                    &&& composite.slots() == slots@
                    &&& composite.handles() == Seq::new(length as nat, |i: int| placeholder())
                },
                Err(error) => if length == 0 || length > MAX_SLOTS {
                    error == DefinitionError::LengthOutOfRange
                } else {
                    slots@.len() != length && error == DefinitionError::SlotCountMismatch
                },
            },
    {
        if length == 0 || length > MAX_SLOTS {
            return Err(DefinitionError::LengthOutOfRange);
        }
        if slots.len() != length {
            return Err(DefinitionError::SlotCountMismatch);
        }
        let mut handles: Vec<ImageId> = Vec::new();
        let mut i: usize = 0;
        while i < length
            invariant
                i <= length,
                handles@ == Seq::new(i as nat, |j: int| placeholder()),
            decreases length - i,
        {
            handles.push(placeholder_handle());
            i += 1;
            assert(handles@ =~= Seq::new(i as nat, |j: int| placeholder()));
        }
        Ok(CompositeAttachment { handles, slots })
    }

    /// The number of slots.
    pub fn len(&self) -> (n: usize)
        ensures
            n == self.handles().len(),
    {
        self.handles.len()
    }

    /// The handle of the slot at `index`, if there is such a slot.
    pub fn handle(&self, index: usize) -> (handle: Option<ImageId>)
        ensures
            handle == if index < self.handles().len() {
                Some(self.handles()[index as int])
            } else {
                None
            },
    {
        if index < self.handles.len() {
            Some(self.handles[index])
        } else {
            None
        }
    }

    /// The definition of the slot at `index`, if there is such a slot.
    pub fn slot(&self, index: usize) -> (slot: Option<Attach>)
        ensures
            slot == if index < self.slots().len() {
                Some(self.slots()[index as int])
            } else {
                None
            },
    {
        if index < self.slots.len() {
            Some(self.slots[index])
        } else {
            None
        }
    }

    /// Replaces the handle of the slot at `index`. Returns whether there
    /// is such a slot; if not, nothing changes.
    pub fn set_handle(&mut self, index: usize, handle: ImageId) -> (done: bool)
        ensures
            done == (index < old(self).handles().len()),
            final(self).slots() == old(self).slots(),
            final(self).handles() == if done {
                old(self).handles().update(index as int, handle)
            } else {
                old(self).handles()
            },
    {
        if index < self.handles.len() {
            self.handles.set(index, handle);
            true
        } else {
            false
        }
    }

    /// Synchronises the slot at `index` with `size`: the slot's handle is
    /// the one its step leaves, and the store is what the step makes of
    /// it. On an error nothing changes.
    pub fn step(&mut self, store: &mut ImageStore, index: usize, size: Extent3d) -> (res: Result<
        SyncAction,
        SyncError,
    >)
        requires
            old(self).wf(),
            index < old(self).slots().len(),
        ensures
            final(self).wf(),
            final(self).slots() == old(self).slots(),
            res == step_result(
                stored_images(*old(store)),
                old(self).handles()[index as int],
                old(self).slots()[index as int],
                size,
            ),
            step_handle_ok(
                stored_images(*old(store)),
                old(self).handles()[index as int],
                final(self).handles()[index as int],
                old(self).slots()[index as int],
                size,
            ),
            res is Ok ==> final(self).state(*final(store)) == step_state(
                old(self).state(*old(store)),
                old(self).slots()[index as int],
                index as int,
                size,
                final(self).handles()[index as int],
            ),
            res is Err ==> *final(self) == *old(self) && *final(store) == *old(store),
            res == Ok::<SyncAction, SyncError>(SyncAction::Unchanged) ==> *final(store) == *old(
                store,
            ) && final(self).handles() == old(self).handles(),
    {
        let handle = self.handles[index];
        let slot = self.slots[index];
        match slot.synchronize(store, handle, size) {
            Err(error) => Err(error),
            Ok((chosen, action)) => {
                self.handles.set(index, chosen);
                assert(action == SyncAction::Unchanged ==> self.handles@ =~= old(self).handles@);
                Ok(action)
            },
        }
    }

    /// Synchronises every slot with `size`, in ascending order of index,
    /// each step seeing the store as the one before it left it.
    ///
    /// On success the handles and the store are what all the steps make of
    /// them, every handle leads to an image of the size asked for, and what
    /// each step did is returned, by slot. The
    /// first step that fails stops the cascade: the steps before it stand,
    /// and the error names the slot. Where every handle already leads to an
    /// image of a valid size asked for, nothing changes.
    pub fn cascade(&mut self, store: &mut ImageStore, size: Extent3d) -> (res: Result<
        Vec<SyncAction>,
        CascadeError,
    >)
        requires
            old(self).wf(),
        ensures
            final(self).wf(),
            final(self).slots() == old(self).slots(),
            valid_extent(size) && synced(
                old(self).state(*old(store)),
                size,
                old(self).slots().len(),
            ) ==> {
                &&& res is Ok
                &&& forall|k: int|
                    0 <= k < old(self).slots().len() ==> #[trigger] res.unwrap()@[k]
                        == SyncAction::Unchanged
                &&& *final(store) == *old(store)
                &&& final(self).handles() == old(self).handles()
            },
            res is Ok ==> synced(
                final(self).state(*final(store)),
                size,
                old(self).slots().len(),
            ),
            match res {
                Ok(actions) => {
                    &&& cascaded(
                        old(self).state(*old(store)),
                        final(self).state(*final(store)),
                        old(self).slots(),
                        size,
                        old(self).slots().len(),
                    )
                    &&& actions_taken(
                        old(self).state(*old(store)),
                        old(self).slots(),
                        size,
                        final(self).handles(),
                        actions@,
                        old(self).slots().len(),
                    )
                },
                Err(stop) => {
                    &&& stop.slot < old(self).slots().len()
                    &&& cascaded(
                        old(self).state(*old(store)),
                        final(self).state(*final(store)),
                        old(self).slots(),
                        size,
                        stop.slot as nat,
                    )
                    &&& step_result(
                        stored_images(*final(store)),
                        final(self).handles()[stop.slot as int],
                        old(self).slots()[stop.slot as int],
                        size,
                    ) == Err::<SyncAction, SyncError>(stop.error)
                },
            },
    {
        let n = self.handles.len();
        let ghost pre = SyncState { images: stored_images(*store), handles: self.handles@ };
        let ghost slots = self.slots@;
        let mut actions: Vec<SyncAction> = Vec::new();
        let mut i: usize = 0;
        while i < n
            invariant
                i <= n,
                n == self.handles@.len(),
                n == slots.len(),
                1 <= n <= MAX_SLOTS,
                self.slots@ == slots,
                slots == old(self).slots(),
                pre == old(self).state(*old(store)),
                pre.handles.len() == n,
                valid_extent(size) && synced(pre, size, n as nat) ==> {
                    &&& *store == *old(store)
                    &&& self.handles@ == pre.handles
                    &&& forall|k: int| 0 <= k < i ==> #[trigger] actions@[k] == SyncAction::Unchanged
                },
                cascaded(
                    pre,
                    SyncState { images: stored_images(*store), handles: self.handles@ },
                    slots,
                    size,
                    i as nat,
                ),
                actions_taken(pre, slots, size, self.handles@, actions@, i as nat),
            decreases n - i,
        {
            let ghost mid = SyncState { images: stored_images(*store), handles: self.handles@ };
            let ghost before = actions@;
            proof {
                lemma_after_handles(pre, slots, size, mid.handles, i as nat);
                assert(mid.handles[i as int] == pre.handles[i as int]);
            }
            assert(valid_extent(size) && synced(pre, size, n as nat) ==> pre.handles[i as int]
                != placeholder());
            match self.step(store, i, size) {
                Err(error) => {
                    return Err(CascadeError { slot: i, error });
                },
                Ok(action) => {
                    actions.push(action);
                    proof {
                        let next = SyncState {
                            images: stored_images(*store),
                            handles: self.handles@,
                        };
                        lemma_chosen_prefix(pre, slots, size, mid.handles, next.handles, i as nat);
                        assert forall|k: int| 0 <= k < i + 1 implies step_result(
                            after(pre, slots, size, next.handles, k as nat).images,
                            pre.handles[k],
                            slots[k],
                            size,
                        ) == Ok::<SyncAction, SyncError>(#[trigger] actions@[k]) by {
                            lemma_chosen_prefix(
                                pre,
                                slots,
                                size,
                                mid.handles,
                                next.handles,
                                k as nat,
                            );
                            if k < i {
                                assert(actions@[k] == before[k]);
                            }
                        }
                    }
                },
            }
            i += 1;
        }
        proof {
            lemma_cascade_syncs(pre, slots, size, self.handles@, n as nat);
        }
        Ok(actions)
    }

    /// One tick of synchronisation with a target that reports its width
    /// and height, or nothing. A target without a size, or with a zero
    /// width or height, is skipped: nothing changes and `None` is
    /// returned. Otherwise every slot is synchronised with one layer of
    /// the target's size, and what each step did is returned; a tick that
    /// finds every slot at that size already changes nothing.
    pub fn resize_cascade(&mut self, store: &mut ImageStore, target: Option<(u32, u32)>) -> (res:
        Result<Option<Vec<SyncAction>>, CascadeError>)
        requires
            old(self).wf(),
        ensures
            final(self).wf(),
            final(self).slots() == old(self).slots(),
            target_size(target) is None ==> {
                &&& res == Ok::<Option<Vec<SyncAction>>, CascadeError>(None)
                &&& *final(self) == *old(self)
                &&& *final(store) == *old(store)
            },
            target_size(target) is Some ==> {
                let size = target_size(target).unwrap();
                &&& synced(old(self).state(*old(store)), size, old(self).slots().len()) ==> {
                    &&& res is Ok
                    &&& res.unwrap() is Some
                    &&& forall|k: int|
                        0 <= k < old(self).slots().len() ==> #[trigger] res.unwrap().unwrap()@[k]
                            == SyncAction::Unchanged
                    &&& *final(store) == *old(store)
                    &&& final(self).handles() == old(self).handles()
                }
                &&& match res {
                    Ok(ran) => {
                        &&& ran is Some
                        &&& cascaded(
                            old(self).state(*old(store)),
                            final(self).state(*final(store)),
                            old(self).slots(),
                            size,
                            old(self).slots().len(),
                        )
                        &&& actions_taken(
                            old(self).state(*old(store)),
                            old(self).slots(),
                            size,
                            final(self).handles(),
                            ran.unwrap()@,
                            old(self).slots().len(),
                        )
                        &&& synced(
                            final(self).state(*final(store)),
                            size,
                            old(self).slots().len(),
                        )
                    },
                    Err(stop) => {
                        &&& stop.slot < old(self).slots().len()
                        &&& cascaded(
                            old(self).state(*old(store)),
                            final(self).state(*final(store)),
                            old(self).slots(),
                            size,
                            stop.slot as nat,
                        )
                        &&& step_result(
                            stored_images(*final(store)),
                            final(self).handles()[stop.slot as int],
                            old(self).slots()[stop.slot as int],
                            size,
                        ) == Err::<SyncAction, SyncError>(stop.error)
                    },
                }
            },
    {
        match target {
            None => Ok(None),
            Some((width, height)) => {
                if width == 0 || height == 0 {
                    return Ok(None);
                }
                match self.cascade(store, Attach::compute_size(width, height)) {
                    Ok(actions) => Ok(Some(actions)),
                    Err(stop) => Err(stop),
                }
            },
        }
    }
}

/// The extent to synchronise with for what a target reports: one layer of
/// its width and height, or nothing where it reports no size or a zero
/// width or height.
pub open spec fn target_size(target: Option<(u32, u32)>) -> Option<Extent3d> {
    match target {
        Some((width, height)) => if width == 0 || height == 0 {
            None
        } else {
            Some(Extent3d { width, height, depth_or_array_layers: 1 })
        },
        None => None,
    }
}

/// After `n` successful steps each of the first `n` handles leads to an
/// image of the size asked for.
proof fn lemma_cascade_syncs(
    pre: SyncState,
    slots: Seq<Attach>,
    size: Extent3d,
    chosen: Seq<ImageId>,
    n: nat,
)
    requires
        n <= pre.handles.len(),
        succeeds(pre, slots, size, chosen, n),
    ensures
        synced(after(pre, slots, size, chosen, n), size, n),
    decreases n,
{
    if n > 0 {
        let k = (n - 1) as nat;
        lemma_cascade_syncs(pre, slots, size, chosen, k);
        lemma_after_handles(pre, slots, size, chosen, k);
        let mid = after(pre, slots, size, chosen, k);
        let post = after(pre, slots, size, chosen, n);
        assert(post == step_state(mid, slots[k as int], k as int, size, chosen[k as int]));
        assert forall|j: int| 0 <= j < n implies {
            &&& #[trigger] post.handles[j] != placeholder()
            &&& post.images.dom().contains(post.handles[j])
            &&& post.images[post.handles[j]].size == size
        } by {
            if j < k {
                assert(mid.handles[j] != placeholder());
                assert(post.handles[j] == mid.handles[j]);
            }
        }
    }
}

/// Where every handle already leads to an image of the size asked for,
/// successful steps change nothing.
proof fn lemma_synced_fixed(
    state: SyncState,
    slots: Seq<Attach>,
    size: Extent3d,
    chosen: Seq<ImageId>,
    n: nat,
)
    requires
        n <= state.handles.len(),
        synced(state, size, state.handles.len()),
        succeeds(state, slots, size, chosen, n),
    ensures
        after(state, slots, size, chosen, n) == state,
    decreases n,
{
    if n > 0 {
        let k = (n - 1) as nat;
        lemma_synced_fixed(state, slots, size, chosen, k);
        assert(state.handles[k as int] != placeholder());
        assert(state.handles.update(k as int, chosen[k as int]) =~= state.handles);
    }
}

/// After `n` successful steps from placeholders only, each of the first
/// `n` handles leads to the image that its slot allocates.
proof fn lemma_materialized(
    pre: SyncState,
    slots: Seq<Attach>,
    size: Extent3d,
    chosen: Seq<ImageId>,
    n: nat,
)
    requires
        n <= pre.handles.len(),
        forall|i: int| 0 <= i < pre.handles.len() ==> pre.handles[i] == placeholder(),
        succeeds(pre, slots, size, chosen, n),
    ensures
        forall|j: int|
            0 <= j < n ==> {
                &&& after(pre, slots, size, chosen, n).images.dom().contains(
                    #[trigger] after(pre, slots, size, chosen, n).handles[j],
                )
                &&& after(pre, slots, size, chosen, n).images[after(
                    pre,
                    slots,
                    size,
                    chosen,
                    n,
                ).handles[j]] == allocated(slots[j].image_of(size), None)
            },
    decreases n,
{
    if n > 0 {
        let k = (n - 1) as nat;
        lemma_materialized(pre, slots, size, chosen, k);
        lemma_after_handles(pre, slots, size, chosen, k);
        let mid = after(pre, slots, size, chosen, k);
        let post = after(pre, slots, size, chosen, n);
        assert(post == step_state(mid, slots[k as int], k as int, size, chosen[k as int]));
        assert(mid.handles[k as int] == pre.handles[k as int]);
        assert forall|j: int| 0 <= j < n implies {
            &&& post.images.dom().contains(#[trigger] post.handles[j])
            &&& post.images[post.handles[j]] == allocated(slots[j].image_of(size), None)
        } by {
            if j < k {
                assert(mid.images.dom().contains(mid.handles[j]));
                assert(post.handles[j] == mid.handles[j]);
            }
        }
    }
}

/// A cascade run again with the same size changes nothing: neither a
/// handle nor an image in the store.
pub proof fn cascade_idempotent(
    first: SyncState,
    second: SyncState,
    third: SyncState,
    slots: Seq<Attach>,
    size: Extent3d,
)
    requires
        first.handles.len() == slots.len(),
        cascaded(first, second, slots, size, slots.len()),
        cascaded(second, third, slots, size, slots.len()),
    ensures
        third == second,
        synced(second, size, slots.len()),
{
    lemma_cascade_syncs(first, slots, size, second.handles, slots.len());
    lemma_after_handles(first, slots, size, second.handles, slots.len());
    lemma_synced_fixed(second, slots, size, third.handles, slots.len());
}

/// A cascade over placeholders only gives every slot an image in the
/// store of exactly the size asked for, with the slot's format and usage,
/// and no two slots the same image.
pub proof fn cascade_materializes(
    pre: SyncState,
    post: SyncState,
    slots: Seq<Attach>,
    size: Extent3d,
)
    requires
        pre.handles.len() == slots.len(),
        forall|i: int| 0 <= i < pre.handles.len() ==> pre.handles[i] == placeholder(),
        cascaded(pre, post, slots, size, slots.len()),
    ensures
        forall|i: int|
            0 <= i < slots.len() ==> {
                &&& post.images.dom().contains(#[trigger] post.handles[i])
                &&& post.images[post.handles[i]].size == size
                &&& post.images[post.handles[i]].format == slots[i].texture_format
                &&& post.images[post.handles[i]] == allocated(slots[i].image_of(size), None)
            },
{
    lemma_materialized(pre, slots, size, post.handles, slots.len());
}

/// A slot whose image is resized without keeping its content reports the
/// size asked for afterwards, and no other image changes.
pub proof fn discarding_resize_reports_size(
    images: Map<ImageId, ImageInfo>,
    handle: ImageId,
    slot: Attach,
    size: Extent3d,
)
    requires
        step_result(images, handle, slot, size) == Ok::<SyncAction, SyncError>(
            SyncAction::Redescribed,
        ),
    ensures
        !slot.copy_on_resize,
        step_images(images, handle, handle, slot, size)[handle].size == size,
        step_images(images, handle, handle, slot, size) == images.insert(
            handle,
            redescribed(images[handle], size),
        ),
{
}

/// A handle under which the store holds nothing is replaced, on any valid
/// size, by a newly allocated image of that size; the step does not fail
/// and the images already in the store stay as they were.
pub proof fn dangling_handle_recovers(
    images: Map<ImageId, ImageInfo>,
    handle: ImageId,
    chosen: ImageId,
    slot: Attach,
    size: Extent3d,
)
    requires
        valid_extent(size),
        handle != placeholder(),
        !images.dom().contains(handle),
        step_handle_ok(images, handle, chosen, slot, size),
    ensures
        step_result(images, handle, slot, size) == Ok::<SyncAction, SyncError>(
            SyncAction::Recovered,
        ),
        !images.dom().contains(chosen),
        step_images(images, handle, chosen, slot, size).dom().contains(chosen),
        step_images(images, handle, chosen, slot, size)[chosen].size == size,
        forall|other: ImageId|
            images.dom().contains(other) ==> step_images(images, handle, chosen, slot, size)[other]
                == images[other],
{
}

/// An in-place resize keeps the content of the region that the old and
/// the new extent share: the byte at place `x` of row `y` of layer `z` is
/// after the resize what it was before, at its place in the new layout.
pub proof fn in_place_resize_keeps_content(
    old_data: Seq<u8>,
    bytes_per_pixel: int,
    from: Extent3d,
    to: Extent3d,
    x: int,
    y: int,
    z: int,
)
    requires
        0 <= x < bytes_per_pixel * from.width,
        x < bytes_per_pixel * to.width,
        0 <= y < from.height,
        y < to.height,
        0 <= z < from.depth_or_array_layers,
        z < to.depth_or_array_layers,
    ensures
        resized_data(old_data, bytes_per_pixel, from, to).len() == bytes_per_pixel * volume(to),
        0 <= z * (bytes_per_pixel * to.width * to.height) + y * (bytes_per_pixel * to.width) + x
            < bytes_per_pixel * volume(to),
        resized_data(old_data, bytes_per_pixel, from, to)[z * (bytes_per_pixel * to.width
            * to.height) + y * (bytes_per_pixel * to.width) + x] == old_data[z * (bytes_per_pixel
            * from.width * from.height) + y * (bytes_per_pixel * from.width) + x],
{
    let row = bytes_per_pixel * to.width;
    let height = to.height as int;
    let depth = to.depth_or_array_layers as int;
    let layer = row * height;
    let rest = y * row + x;
    let index = z * layer + rest;
    assert(0 <= rest < layer) by (nonlinear_arith)
        requires
            0 <= x < row,
            0 <= y < height,
            rest == y * row + x,
            layer == row * height,
    ;
    assert(0 <= index < layer * depth) by (nonlinear_arith)
        requires
            0 <= rest < layer,
            0 <= z < depth,
            index == z * layer + rest,
    ;
    assert(layer * depth == bytes_per_pixel * volume(to)) by (nonlinear_arith)
        requires
            layer == (bytes_per_pixel * to.width) * to.height,
            depth == to.depth_or_array_layers,
            volume(to) == to.width * to.height * to.depth_or_array_layers,
    ;
    assert(index == (z * height + y) * row + x) by (nonlinear_arith)
        requires
            index == z * layer + rest,
            rest == y * row + x,
            layer == row * height,
    ;
    lemma_fundamental_div_mod_converse(index, layer, z, rest);
    lemma_fundamental_div_mod_converse(rest, row, y, x);
    lemma_fundamental_div_mod_converse(index, row, z * height + y, x);
    assert(bytes_per_pixel * to.width * to.height == layer);
    assert(bytes_per_pixel * from.width * from.height == (bytes_per_pixel * from.width)
        * from.height);
}

/// Steps that all succeed up to `n` all succeed up to any `k` below it.
proof fn lemma_succeeds_prefix(
    pre: SyncState,
    slots: Seq<Attach>,
    size: Extent3d,
    chosen: Seq<ImageId>,
    n: nat,
    k: nat,
)
    requires
        k <= n,
        succeeds(pre, slots, size, chosen, n),
    ensures
        succeeds(pre, slots, size, chosen, k),
    decreases n,
{
    if k < n {
        lemma_succeeds_prefix(pre, slots, size, chosen, (n - 1) as nat, k);
    }
}

/// A cascade takes the slots in ascending order: when the turn of slot
/// `k` comes, the slots below it have been synchronised and hold the
/// handles they end with, slot `k` still holds the handle it began with,
/// and its step works on what the steps before it left.
pub proof fn cascade_runs_in_order(
    pre: SyncState,
    post: SyncState,
    slots: Seq<Attach>,
    size: Extent3d,
    n: nat,
    k: nat,
)
    requires
        k < n <= pre.handles.len(),
        cascaded(pre, post, slots, size, n),
    ensures
        cascaded(pre, after(pre, slots, size, post.handles, k), slots, size, k),
        after(pre, slots, size, post.handles, k).handles[k as int] == pre.handles[k as int],
        forall|j: int|
            0 <= j < k ==> after(pre, slots, size, post.handles, k).handles[j]
                == #[trigger] post.handles[j],
        step_result(
            after(pre, slots, size, post.handles, k).images,
            pre.handles[k as int],
            slots[k as int],
            size,
        ) is Ok,
        step_handle_ok(
            after(pre, slots, size, post.handles, k).images,
            pre.handles[k as int],
            post.handles[k as int],
            slots[k as int],
            size,
        ),
{
    let mid = after(pre, slots, size, post.handles, k);
    lemma_succeeds_prefix(pre, slots, size, post.handles, n, k);
    lemma_succeeds_prefix(pre, slots, size, post.handles, n, k + 1);
    lemma_after_handles(pre, slots, size, post.handles, k);
    lemma_chosen_prefix(pre, slots, size, post.handles, mid.handles, k);
    assert(mid.handles[k as int] == pre.handles[k as int]);
}

} // verus!
