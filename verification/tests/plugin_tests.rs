use bevy::asset::uuid::Uuid;
use bevy::asset::{AssetId, AssetIndex, Assets};
use bevy::image::Image;
use bevy::render::render_resource::{Extent3d, TextureFormat, TextureUsages};
use bevy::render::render_resource::{ColorWrites, TextureAspect};
use bevy_micro_tools::attach::{
    placeholder_handle, Attach, CascadeError, CompositeAttachment, SyncError,
};
use bevy_micro_tools::chain::{Cascade, Chain, Length, Link};
use bevy_micro_tools::plugin::{resize_canvas, AttachParams, AttachPlugin};
use bevy_micro_tools::store::{ImageId, ImageStore};
use std::marker::PhantomData;

fn key(id: ImageId) -> AssetId<Image> {
    match id {
        ImageId::Index { bits } => {
            AssetId::Index { index: AssetIndex::from_bits(bits), marker: PhantomData }
        }
        ImageId::Uuid { value } => AssetId::Uuid { uuid: Uuid::from_u128(value) },
    }
}

fn slot(format: TextureFormat, copy_on_resize: bool) -> Attach {
    Attach {
        label: None,
        blend_state: None,
        color_writes: ColorWrites::ALL,
        texture_aspect: TextureAspect::All,
        copy_on_resize,
        texture_format: format,
        texture_usages: TextureUsages::RENDER_ATTACHMENT,
    }
}

fn params(slots: Vec<Attach>, width: u32, height: u32) -> AttachParams {
    AttachParams {
        images: ImageStore { assets: Assets::<Image>::default() },
        attach: CompositeAttachment::new(slots.len(), slots).unwrap(),
        size: Extent3d { width, height, depth_or_array_layers: 1 },
        stopped: None,
    }
}

#[test]
fn pipeline_length_is_the_number_of_slots() {
    assert_eq!(<AttachPlugin<1> as Length>::len(), 1);
    assert_eq!(<AttachPlugin<16> as Length>::len(), 16);
}

#[test]
fn pipeline_synchronises_every_slot() {
    let formats =
        [TextureFormat::Rgba8Unorm, TextureFormat::R32Float, TextureFormat::Rg16Float];
    let input = params(formats.iter().map(|f| slot(*f, false)).collect(), 320, 200);
    let output = <AttachPlugin<3> as Cascade>::cascade(input);
    assert_eq!(output.stopped, None);
    assert_eq!(output.size, Extent3d { width: 320, height: 200, depth_or_array_layers: 1 });
    assert_eq!(output.images.assets.len(), 3);
    for i in 0..3 {
        let id = output.attach.handle(i).unwrap();
        let image = output.images.assets.get(key(id)).unwrap();
        assert_eq!(image.texture_descriptor.format, formats[i]);
        assert_eq!(
            image.texture_descriptor.size,
            Extent3d { width: 320, height: 200, depth_or_array_layers: 1 }
        );
    }
}

#[test]
fn pipeline_allocates_in_slot_order() {
    let input = params(vec![slot(TextureFormat::Rgba8Unorm, false); 4], 8, 8);
    let output = <AttachPlugin<4> as Cascade>::cascade(input);
    let indices: Vec<u64> = (0..4)
        .map(|i| match output.attach.handle(i).unwrap() {
            ImageId::Index { bits } => bits & 0xFFFF_FFFF,
            ImageId::Uuid { .. } => unreachable!(),
        })
        .collect();
    assert_eq!(indices, vec![0, 1, 2, 3]);
}

#[test]
fn link_stops_after_its_prefix() {
    let input = params(vec![slot(TextureFormat::Rgba8Unorm, false); 3], 8, 8);
    let output = <AttachPlugin<3> as Link<2>>::link(input);
    assert_ne!(output.attach.handle(0), Some(placeholder_handle()));
    assert_ne!(output.attach.handle(1), Some(placeholder_handle()));
    assert_eq!(output.attach.handle(2), Some(placeholder_handle()));
    let output = <AttachPlugin<3> as Chain<2>>::chain(output);
    assert_ne!(output.attach.handle(2), Some(placeholder_handle()));
}

#[test]
fn pipeline_records_the_first_failure_and_passes_it_on() {
    let mut input = params(vec![slot(TextureFormat::Rgba8Unorm, false); 3], 8, 8);
    input.size = Extent3d { width: 8, height: 8, depth_or_array_layers: 0 };
    let output = <AttachPlugin<3> as Cascade>::cascade(input);
    assert_eq!(output.stopped, Some(CascadeError { slot: 0, error: SyncError::InvalidSize }));
    assert_eq!(output.images.assets.len(), 0);
    for i in 0..3 {
        assert_eq!(output.attach.handle(i), Some(placeholder_handle()));
    }
}

#[test]
fn canvas_pipeline_follows_its_target() {
    let input = params(vec![slot(TextureFormat::Rgba32Float, true)], 1920, 1080);
    let mut output = resize_canvas(input);
    assert_eq!(output.stopped, None);
    let id = output.attach.handle(0).unwrap();
    output.size = Extent3d { width: 1280, height: 720, depth_or_array_layers: 1 };
    let output = resize_canvas(output);
    assert_eq!(output.attach.handle(0), Some(id));
    let image = output.images.assets.get(key(id)).unwrap();
    assert_eq!(
        image.texture_descriptor.size,
        Extent3d { width: 1280, height: 720, depth_or_array_layers: 1 }
    );
    assert!(image.copy_on_resize);
    let stopped = AttachParams {
        stopped: Some(CascadeError { slot: 0, error: SyncError::TooLarge }),
        size: Extent3d { width: 1, height: 1, depth_or_array_layers: 1 },
        ..output
    };
    let output = resize_canvas(stopped);
    assert_eq!(output.stopped, Some(CascadeError { slot: 0, error: SyncError::TooLarge }));
    assert_eq!(
        output.images.assets.get(key(id)).unwrap().texture_descriptor.size,
        Extent3d { width: 1280, height: 720, depth_or_array_layers: 1 }
    );
}
