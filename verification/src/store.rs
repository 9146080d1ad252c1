//! The image store, as this library sees it.
//!
//! Images live in Bevy's `Assets<Image>`. Nothing in this file is proved:
//! each function here makes one call into Bevy or wgpu and states what that
//! call does, over a map from image identifiers to plain records.
use bevy::asset::uuid::Uuid;
use bevy::asset::{AssetId, AssetIndex, Assets};
use bevy::image::Image;
use std::marker::PhantomData;
use vstd::prelude::*;
use wgpu_types::{
    BlendState, ColorTargetState, ColorWrites, Extent3d, TextureAspect, TextureDimension,
    TextureFormat, TextureUsages, TextureViewDescriptor, TextureViewDimension,
};

verus! {

/// wgpu's texture format, carried through unread.
#[verifier::external_type_specification]
#[verifier::external_body]
pub struct ExTextureFormat(TextureFormat);

/// wgpu's texture usage flags, carried through unread.
#[verifier::external_type_specification]
#[verifier::external_body]
pub struct ExTextureUsages(TextureUsages);

/// wgpu's colour write mask, carried through unread.
#[verifier::external_type_specification]
#[verifier::external_body]
pub struct ExColorWrites(ColorWrites);

/// wgpu's blend state, carried through unread.
#[verifier::external_type_specification]
#[verifier::external_body]
pub struct ExBlendState(BlendState);

/// wgpu's extent, with its three fields.
#[verifier::external_type_specification]
pub struct ExExtent3d(Extent3d);

/// wgpu's texture dimension, with its variants.
#[verifier::external_type_specification]
pub struct ExTextureDimension(TextureDimension);

/// wgpu's texture aspect, with its variants.
#[verifier::external_type_specification]
pub struct ExTextureAspect(TextureAspect);

/// wgpu's texture view dimension, with its variants.
#[verifier::external_type_specification]
pub struct ExTextureViewDimension(TextureViewDimension);

/// wgpu's texture view descriptor, with its fields.
#[verifier::external_type_specification]
#[verifier::reject_recursive_types(Label)]
pub struct ExTextureViewDescriptor<Label>(TextureViewDescriptor<Label>);

/// wgpu's colour target state, with its fields.
#[verifier::external_type_specification]
pub struct ExColorTargetState(ColorTargetState);

/// Bevy's collection of image assets. Verus sees nothing inside it: what
/// it holds is named by [`stored_images`].
#[verifier::external_body]
pub struct ImageStore {
    pub assets: Assets<Image>,
}

/// A texture view descriptor with the label that Bevy's images use.
pub type ViewDescriptor = TextureViewDescriptor<Option<&'static str>>;

/// Identifies an image in the store, as Bevy's `AssetId` does: by a
/// generational index packed into 64 bits, or by a UUID.
#[derive(Clone, Copy, PartialEq, Eq, Structural, Debug)]
pub enum ImageId {
    Index { bits: u64 },
    Uuid { value: u128 },
}

/// What this library states of a stored image.
pub ghost struct ImageInfo {
    pub label: Option<&'static str>,
    pub size: Extent3d,
    pub mip_level_count: u32,
    pub sample_count: u32,
    pub dimension: TextureDimension,
    pub format: TextureFormat,
    pub usage: TextureUsages,
    pub view: Option<ViewDescriptor>,
    /// The pixel data held on the CPU side, if any is.
    pub data: Option<Seq<u8>>,
    /// Whether the GPU copy is to be carried over at the next upload.
    pub copy_on_resize: bool,
}

/// What this library reads of a stored image.
#[derive(Clone, Copy, Debug)]
pub struct StoredImage {
    pub size: Extent3d,
    pub format: TextureFormat,
    pub data_len: Option<usize>,
}

/// Describes an image to allocate.
#[derive(Debug)]
pub struct ImageDescriptor {
    pub label: Option<&'static str>,
    pub size: Extent3d,
    pub mip_level_count: u32,
    pub sample_count: u32,
    pub dimension: TextureDimension,
    pub format: TextureFormat,
    pub usage: TextureUsages,
    pub view: ViewDescriptor,
}

/// The images that a store holds, each under its identifier.
pub uninterp spec fn stored_images(store: ImageStore) -> Map<ImageId, ImageInfo>;

/// Width and height of one block of a format, as wgpu's
/// `TextureFormat::block_dimensions` gives them.
pub uninterp spec fn block_dimensions(format: TextureFormat) -> (u32, u32);

/// Bytes of one block of a format when no aspect is chosen, as wgpu's
/// `TextureFormat::block_copy_size` gives them.
pub uninterp spec fn block_copy_size(format: TextureFormat) -> Option<u32>;

/// Number of pixels of an extent.
pub open spec fn volume(size: Extent3d) -> int {
    size.width * size.height * size.depth_or_array_layers
}

/// Whether `found` is what a lookup reads of an image's record: its size,
/// its format and the length of its pixel data.
pub open spec fn reads(found: StoredImage, info: ImageInfo) -> bool {
    &&& found.size == info.size
    &&& found.format == info.format
    &&& match info.data {
        Some(bytes) => found.data_len == Some(bytes.len() as usize) && bytes.len() <= usize::MAX,
        None => found.data_len is None,
    }
}

/// The record of an image just allocated from a descriptor, with the
/// given pixel data.
pub open spec fn allocated(descriptor: ImageDescriptor, data: Option<Vec<u8>>) -> ImageInfo {
    ImageInfo {
        label: descriptor.label,
        size: descriptor.size,
        mip_level_count: descriptor.mip_level_count,
        sample_count: descriptor.sample_count,
        dimension: descriptor.dimension,
        format: descriptor.format,
        usage: descriptor.usage,
        view: Some(descriptor.view),
        data: match data {
            Some(bytes) => Some(bytes@),
            None => None,
        },
        copy_on_resize: false,
    }
}

/// Whether pixel data of the given length covers an extent at the given
/// number of bytes per pixel, the extent having rows and layers.
pub open spec fn covers(len: nat, bytes_per_pixel: u32, size: Extent3d) -> bool {
    &&& size.height >= 1
    &&& size.depth_or_array_layers >= 1
    &&& len >= bytes_per_pixel * volume(size)
}

/// Whether Bevy's in-place resize runs to its end on an image: the format
/// has one-pixel blocks of a known byte size, the new extent has no zero
/// dimension and a byte length that can be computed, and pixel data, where
/// present, covers the old extent.
pub open spec fn in_place_safe(info: ImageInfo, size: Extent3d) -> bool {
    &&& block_dimensions(info.format) == (1u32, 1u32)
    &&& block_copy_size(info.format) is Some
    &&& size.width >= 1 && size.height >= 1 && size.depth_or_array_layers >= 1
    &&& volume(size) <= u32::MAX
    &&& block_copy_size(info.format).unwrap() * volume(size) <= usize::MAX
    &&& info.data is Some ==> covers(
        info.data.unwrap().len(),
        block_copy_size(info.format).unwrap(),
        info.size,
    )
}

/// One byte of pixel data after an in-place resize: the byte at the same
/// place within its row, row and layer where the old extent has that
/// place, zero where it has not.
pub open spec fn resized_byte(
    old_data: Seq<u8>,
    bytes_per_pixel: int,
    from: Extent3d,
    to: Extent3d,
    index: int,
) -> u8 {
    let row = bytes_per_pixel * to.width;
    let layer = row * to.height;
    let old_row = bytes_per_pixel * from.width;
    let old_layer = old_row * from.height;
    let z = index / layer;
    let y = (index % layer) / row;
    let x = index % row;
    if z < from.depth_or_array_layers && y < from.height && x < old_row {
        old_data[z * old_layer + y * old_row + x]
    } else {
        0
    }
}

/// Pixel data after an in-place resize from one extent to another: layers
/// of rows of pixels in the new extent, anchored at the top left, the old
/// content kept where the extents overlap and zero elsewhere.
pub open spec fn resized_data(
    old_data: Seq<u8>,
    bytes_per_pixel: int,
    from: Extent3d,
    to: Extent3d,
) -> Seq<u8> {
    Seq::new(
        (bytes_per_pixel * volume(to)) as nat,
        |index: int| resized_byte(old_data, bytes_per_pixel, from, to, index),
    )
}

/// The record of an image after Bevy's in-place resize: the new size; pixel
/// data, where present, carried over as [`resized_data`] says; where absent,
/// the GPU copy marked to be carried over.
pub open spec fn resized_in_place(info: ImageInfo, size: Extent3d) -> ImageInfo {
    ImageInfo {
        label: info.label,
        size,
        mip_level_count: info.mip_level_count,
        sample_count: info.sample_count,
        dimension: info.dimension,
        format: info.format,
        usage: info.usage,
        view: info.view,
        data: match info.data {
            Some(bytes) => Some(
                resized_data(
                    bytes,
                    block_copy_size(info.format).unwrap() as int,
                    info.size,
                    size,
                ),
            ),
            None => None,
        },
        copy_on_resize: info.copy_on_resize || info.data is None,
    }
}

/// The record of an image after only its size descriptor was rewritten.
pub open spec fn redescribed(info: ImageInfo, size: Extent3d) -> ImageInfo {
    ImageInfo {
        label: info.label,
        size,
        mip_level_count: info.mip_level_count,
        sample_count: info.sample_count,
        dimension: info.dimension,
        format: info.format,
        usage: info.usage,
        view: info.view,
        data: info.data,
        copy_on_resize: info.copy_on_resize,
    }
}

/// Calls `TextureFormat::block_dimensions`. The result is named, not stated.
#[verifier::external_body]
pub(crate) fn format_block_dimensions(format: TextureFormat) -> (dims: (u32, u32))
    ensures
        dims == block_dimensions(format),
{
    format.block_dimensions()
}

/// Calls `TextureFormat::block_copy_size` with no aspect. The result is
/// named, not stated.
#[verifier::external_body]
pub(crate) fn format_block_copy_size(format: TextureFormat) -> (bytes: Option<u32>)
    ensures
        bytes == block_copy_size(format),
{
    format.block_copy_size(None)
}

/// Calls `Assets::get` and copies out size, format and data length of the
/// image found: `None` exactly when the store holds no image under `id`.
#[verifier::external_body]
pub(crate) fn store_lookup(store: &ImageStore, id: ImageId) -> (found: Option<StoredImage>)
    ensures
        found is Some <==> stored_images(*store).dom().contains(id),
        found is Some ==> reads(found.unwrap(), stored_images(*store)[id]),
{
    let key = match id {
        ImageId::Index { bits } => {
            AssetId::Index { index: AssetIndex::from_bits(bits), marker: PhantomData }
        },
        ImageId::Uuid { value } => AssetId::Uuid { uuid: Uuid::from_u128(value) },
    };
    store.assets.get(key).map(|image| StoredImage {
        size: image.texture_descriptor.size,
        format: image.texture_descriptor.format,
        data_len: image.data.as_ref().map(|data| data.len()),
    })
}

/// Fills Bevy's default image with the descriptor and the pixel data and
/// calls `Assets::add`. The new image is stored under an index identifier
/// that the store did not hold before; nothing else in the store changes.
#[verifier::external_body]
pub(crate) fn store_add(
    store: &mut ImageStore,
    descriptor: ImageDescriptor,
    data: Option<Vec<u8>>,
) -> (id: ImageId)
    ensures
        id is Index,
        !stored_images(*old(store)).dom().contains(id),
        stored_images(*final(store)) == stored_images(*old(store)).insert(
            id,
            allocated(descriptor, data),
        ),
{
    let mut image = Image::default();
    image.data = data;
    image.texture_descriptor.label = descriptor.label;
    image.texture_descriptor.size = descriptor.size;
    image.texture_descriptor.mip_level_count = descriptor.mip_level_count;
    image.texture_descriptor.sample_count = descriptor.sample_count;
    image.texture_descriptor.dimension = descriptor.dimension;
    image.texture_descriptor.format = descriptor.format;
    image.texture_descriptor.usage = descriptor.usage;
    image.texture_view_descriptor = Some(descriptor.view);
    match store.assets.add(image).id() {
        AssetId::Index { index, .. } => ImageId::Index { bits: index.to_bits() },
        AssetId::Uuid { uuid } => ImageId::Uuid { value: uuid.as_u128() },
    }
}

/// Calls `Image::resize_in_place` on the image stored under `id`. Only that
/// image changes, as [`resized_in_place`] says.
#[verifier::external_body]
pub(crate) fn store_resize_in_place(store: &mut ImageStore, id: ImageId, size: Extent3d)
    requires
        stored_images(*old(store)).dom().contains(id),
        in_place_safe(stored_images(*old(store))[id], size),
    ensures
        stored_images(*final(store)) == stored_images(*old(store)).insert(
            id,
            resized_in_place(stored_images(*old(store))[id], size),
        ),
{
    let key = match id {
        ImageId::Index { bits } => {
            AssetId::Index { index: AssetIndex::from_bits(bits), marker: PhantomData }
        },
        ImageId::Uuid { value } => AssetId::Uuid { uuid: Uuid::from_u128(value) },
    };
    store.assets.get_mut(key).map(|image| image.resize_in_place(size));
}

/// Takes the image stored under `id` by `Assets::get_mut` and overwrites
/// the size in its texture descriptor. Only that field of that image
/// changes.
#[verifier::external_body]
pub(crate) fn store_set_size(store: &mut ImageStore, id: ImageId, size: Extent3d)
    requires
        stored_images(*old(store)).dom().contains(id),
    ensures
        stored_images(*final(store)) == stored_images(*old(store)).insert(
            id,
            redescribed(stored_images(*old(store))[id], size),
        ),
{
    let key = match id {
        ImageId::Index { bits } => {
            AssetId::Index { index: AssetIndex::from_bits(bits), marker: PhantomData }
        },
        ImageId::Uuid { value } => AssetId::Uuid { uuid: Uuid::from_u128(value) },
    };
    store.assets.get_mut(key).map(|image| image.texture_descriptor.size = size);
}

} // verus!
