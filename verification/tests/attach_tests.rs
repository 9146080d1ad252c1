use bevy::asset::uuid::Uuid;
use bevy::asset::{AssetId, AssetIndex, Assets, Handle};
use bevy::image::Image;
use bevy::render::render_resource::{Extent3d, TextureFormat, TextureUsages};
use bevy::render::render_resource::{
    BlendState, ColorWrites, TextureAspect, TextureDimension, TextureViewDimension,
};
use bevy_micro_tools::attach::{
    placeholder_handle, plan_in_place, Attach, CascadeError, CompositeAttachment,
    DefinitionError, SyncAction, SyncError, MAX_SLOTS, PLACEHOLDER_UUID,
};
use bevy_micro_tools::store::{ImageId, ImageStore};
use std::marker::PhantomData;

fn new_store() -> ImageStore {
    ImageStore { assets: Assets::<Image>::default() }
}

fn key(id: ImageId) -> AssetId<Image> {
    match id {
        ImageId::Index { bits } => {
            AssetId::Index { index: AssetIndex::from_bits(bits), marker: PhantomData }
        }
        ImageId::Uuid { value } => AssetId::Uuid { uuid: Uuid::from_u128(value) },
    }
}

fn slot(format: TextureFormat, copy_on_resize: bool) -> Attach {
    Attach {
        label: Some("slot"),
        blend_state: None,
        color_writes: ColorWrites::ALL,
        texture_aspect: TextureAspect::All,
        copy_on_resize,
        texture_format: format,
        texture_usages: TextureUsages::RENDER_ATTACHMENT | TextureUsages::TEXTURE_BINDING,
    }
}

fn extent(width: u32, height: u32, layers: u32) -> Extent3d {
    Extent3d { width, height, depth_or_array_layers: layers }
}

fn stored_size(store: &ImageStore, id: ImageId) -> Option<Extent3d> {
    store.assets.get(key(id)).map(|image| image.texture_descriptor.size)
}

#[test]
fn placeholder_is_the_default_handle_of_the_store() {
    assert_eq!(
        Handle::<Image>::default().id(),
        AssetId::Uuid { uuid: Uuid::from_u128(PLACEHOLDER_UUID) }
    );
    assert_eq!(placeholder_handle(), ImageId::Uuid { value: PLACEHOLDER_UUID });
}

#[test]
fn definition_needs_one_slot_per_declared_index() {
    let a = slot(TextureFormat::Rgba8Unorm, false);
    assert_eq!(
        CompositeAttachment::new(3, vec![a, a]).err(),
        Some(DefinitionError::SlotCountMismatch)
    );
    assert_eq!(
        CompositeAttachment::new(2, vec![a, a, a]).err(),
        Some(DefinitionError::SlotCountMismatch)
    );
    assert_eq!(
        CompositeAttachment::new(0, vec![]).err(),
        Some(DefinitionError::LengthOutOfRange)
    );
    assert_eq!(
        CompositeAttachment::new(MAX_SLOTS + 1, vec![a; MAX_SLOTS + 1]).err(),
        Some(DefinitionError::LengthOutOfRange)
    );
    let composite = CompositeAttachment::new(MAX_SLOTS, vec![a; MAX_SLOTS]).unwrap();
    assert_eq!(composite.len(), 16);
    let composite = CompositeAttachment::new(3, vec![a, a, a]).unwrap();
    assert_eq!(composite.len(), 3);
    for i in 0..3 {
        assert_eq!(composite.handle(i), Some(placeholder_handle()));
        assert!(composite.slot(i).is_some());
    }
    assert_eq!(composite.handle(3), None);
    assert!(composite.slot(3).is_none());
}

#[test]
fn placeholders_are_materialized_with_size_and_format() {
    let formats =
        [TextureFormat::Rgba8Unorm, TextureFormat::Rgba32Float, TextureFormat::Depth32Float];
    let slots = vec![slot(formats[0], false), slot(formats[1], true), slot(formats[2], false)];
    let mut composite = CompositeAttachment::new(3, slots).unwrap();
    let mut store = new_store();
    assert_eq!(
        composite.cascade(&mut store, extent(640, 480, 1)),
        Ok(vec![SyncAction::Materialized; 3])
    );
    assert_eq!(store.assets.len(), 3);
    for i in 0..3 {
        let id = composite.handle(i).unwrap();
        assert_ne!(id, placeholder_handle());
        let image = store.assets.get(key(id)).unwrap();
        assert_eq!(
            image.texture_descriptor.size,
            Extent3d { width: 640, height: 480, depth_or_array_layers: 1 }
        );
        assert_eq!(image.texture_descriptor.format, formats[i]);
        assert_eq!(
            image.texture_descriptor.usage,
            TextureUsages::RENDER_ATTACHMENT | TextureUsages::TEXTURE_BINDING
        );
        assert_eq!(image.texture_descriptor.label, Some("slot"));
        assert!(image.data.is_none());
    }
    assert_ne!(composite.handle(0), composite.handle(1));
    assert_ne!(composite.handle(1), composite.handle(2));
    assert_ne!(composite.handle(0), composite.handle(2));
}

#[test]
fn second_cascade_with_the_same_size_changes_nothing() {
    let slots = vec![slot(TextureFormat::Rgba8Unorm, true), slot(TextureFormat::Rgba8Unorm, false)];
    let mut composite = CompositeAttachment::new(2, slots).unwrap();
    let mut store = new_store();
    assert!(composite.cascade(&mut store, extent(32, 16, 1)).is_ok());
    let handles = [composite.handle(0), composite.handle(1)];
    let before: Vec<(AssetId<Image>, Image)> =
        store.assets.iter().map(|(id, image)| (id, image.clone())).collect();
    assert_eq!(
        composite.cascade(&mut store, extent(32, 16, 1)),
        Ok(vec![SyncAction::Unchanged; 2])
    );
    assert_eq!([composite.handle(0), composite.handle(1)], handles);
    let after: Vec<(AssetId<Image>, Image)> =
        store.assets.iter().map(|(id, image)| (id, image.clone())).collect();
    assert_eq!(before.len(), 2);
    assert_eq!(after.len(), 2);
    for ((id_a, image_a), (id_b, image_b)) in before.iter().zip(after.iter()) {
        assert_eq!(id_a, id_b);
        assert_eq!(image_a.data, image_b.data);
        assert_eq!(image_a.texture_descriptor, image_b.texture_descriptor);
        assert_eq!(image_a.copy_on_resize, image_b.copy_on_resize);
    }
    let a = slot(TextureFormat::Rgba8Unorm, true);
    assert_eq!(
        a.synchronize(&mut store, handles[0].unwrap(), extent(32, 16, 1)),
        Ok((handles[0].unwrap(), SyncAction::Unchanged))
    );
}

#[test]
fn in_place_resize_keeps_the_written_region() {
    let (w, h) = (4u32, 6u32);
    let a = slot(TextureFormat::Rgba8Unorm, true);
    let mut composite = CompositeAttachment::new(1, vec![a]).unwrap();
    let mut store = new_store();
    assert!(composite.cascade(&mut store, extent(w, h, 1)).is_ok());
    let id = composite.handle(0).unwrap();
    // Fill the image, marking each pixel of the region with its position.
    let mut data = vec![0u8; (w * h * 4) as usize];
    for y in 0..h / 2 {
        for x in 0..w / 2 {
            let at = ((y * w + x) * 4) as usize;
            data[at] = 1 + x as u8;
            data[at + 1] = 1 + y as u8;
            data[at + 2] = 0xAB;
            data[at + 3] = 0xCD;
        }
    }
    store.assets.get_mut(key(id)).unwrap().data = Some(data);
    assert_eq!(
        a.synchronize(&mut store, id, extent(2 * w, 2 * h, 1)),
        Ok((id, SyncAction::ResizedInPlace))
    );
    let image = store.assets.get(key(id)).unwrap();
    assert_eq!(
        image.texture_descriptor.size,
        Extent3d { width: 2 * w, height: 2 * h, depth_or_array_layers: 1 }
    );
    let data = image.data.as_ref().unwrap();
    assert_eq!(data.len(), (2 * w * 2 * h * 4) as usize);
    for y in 0..h / 2 {
        for x in 0..w / 2 {
            let at = ((y * 2 * w + x) * 4) as usize;
            assert_eq!(&data[at..at + 4], &[1 + x as u8, 1 + y as u8, 0xAB, 0xCD]);
        }
    }
    // What lies beyond the old extent is zero.
    for y in 0..2 * h {
        for x in 0..2 * w {
            if x >= w || y >= h {
                let at = ((y * 2 * w + x) * 4) as usize;
                assert_eq!(&data[at..at + 4], &[0, 0, 0, 0]);
            }
        }
    }
}

#[test]
fn in_place_resize_clips_when_shrinking() {
    let a = slot(TextureFormat::R8Unorm, true);
    let mut store = new_store();
    let (id, _) = a.synchronize(&mut store, placeholder_handle(), extent(3, 2, 2)).unwrap();
    let data: Vec<u8> = (1..=12).collect();
    store.assets.get_mut(key(id)).unwrap().data = Some(data);
    assert_eq!(
        a.synchronize(&mut store, id, extent(2, 3, 1)),
        Ok((id, SyncAction::ResizedInPlace))
    );
    let image = store.assets.get(key(id)).unwrap();
    assert_eq!(image.data, Some(vec![1, 2, 4, 5, 0, 0]));
}

#[test]
fn in_place_resize_without_pixel_data_marks_the_gpu_copy() {
    let a = slot(TextureFormat::Rgba32Float, true);
    let mut composite = CompositeAttachment::new(1, vec![a]).unwrap();
    let mut store = new_store();
    assert!(composite.cascade(&mut store, extent(8, 8, 1)).is_ok());
    let id = composite.handle(0).unwrap();
    assert!(!store.assets.get(key(id)).unwrap().copy_on_resize);
    assert_eq!(
        composite.cascade(&mut store, extent(16, 4, 1)),
        Ok(vec![SyncAction::ResizedInPlace])
    );
    assert_eq!(composite.handle(0), Some(id));
    let image = store.assets.get(key(id)).unwrap();
    assert_eq!(
        image.texture_descriptor.size,
        Extent3d { width: 16, height: 4, depth_or_array_layers: 1 }
    );
    assert!(image.data.is_none());
    assert!(image.copy_on_resize);
}

#[test]
fn discarding_resize_reports_the_new_size() {
    let a = slot(TextureFormat::Rgba8Unorm, false);
    let mut composite = CompositeAttachment::new(1, vec![a]).unwrap();
    let mut store = new_store();
    assert!(composite.cascade(&mut store, extent(10, 20, 1)).is_ok());
    let id = composite.handle(0).unwrap();
    assert_eq!(
        a.synchronize(&mut store, id, extent(30, 40, 1)),
        Ok((id, SyncAction::Redescribed))
    );
    let image = store.assets.get(key(id)).unwrap();
    assert_eq!(
        image.texture_descriptor.size,
        Extent3d { width: 30, height: 40, depth_or_array_layers: 1 }
    );
    assert!(!image.copy_on_resize);
    assert_eq!(store.assets.len(), 1);
}

#[test]
fn dangling_handle_is_replaced_by_a_new_image() {
    let a = slot(TextureFormat::Rgba8Unorm, false);
    let b = slot(TextureFormat::Rgba32Float, true);
    let mut composite = CompositeAttachment::new(2, vec![a, b]).unwrap();
    let mut store = new_store();
    assert!(composite.cascade(&mut store, extent(64, 64, 1)).is_ok());
    let stale = composite.handle(1).unwrap();
    let kept = composite.handle(0).unwrap();
    assert!(store.assets.remove(key(stale)).is_some());
    assert_eq!(stored_size(&store, stale), None);
    assert_eq!(
        composite.cascade(&mut store, extent(64, 64, 1)),
        Ok(vec![SyncAction::Unchanged, SyncAction::Recovered])
    );
    let fresh = composite.handle(1).unwrap();
    assert_ne!(fresh, stale);
    assert_eq!(composite.handle(0), Some(kept));
    let image = store.assets.get(key(fresh)).unwrap();
    assert_eq!(
        image.texture_descriptor.size,
        Extent3d { width: 64, height: 64, depth_or_array_layers: 1 }
    );
    assert_eq!(image.texture_descriptor.format, TextureFormat::Rgba32Float);
}

#[test]
fn synchronize_names_what_it_did() {
    let a = slot(TextureFormat::Rgba8Unorm, false);
    let mut store = new_store();
    let (id, action) =
        a.synchronize(&mut store, placeholder_handle(), extent(2, 2, 1)).unwrap();
    assert_eq!(action, SyncAction::Materialized);
    assert!(matches!(id, ImageId::Index { .. }));
    let missing = ImageId::Index { bits: AssetIndex::to_bits(AssetIndex::from_bits(77)) };
    let (other, action) = a.synchronize(&mut store, missing, extent(2, 2, 1)).unwrap();
    assert_eq!(action, SyncAction::Recovered);
    assert_ne!(other, missing);
    assert_ne!(other, id);
    assert_eq!(store.assets.len(), 2);
}

#[test]
fn placeholder_is_materialized_even_where_the_store_holds_it() {
    let a = slot(TextureFormat::Rgba8Unorm, false);
    let mut store = new_store();
    store.assets.insert(&Handle::default(), Image::default()).unwrap();
    let (id, action) =
        a.synchronize(&mut store, placeholder_handle(), extent(2, 2, 1)).unwrap();
    assert_eq!(action, SyncAction::Materialized);
    assert_ne!(id, placeholder_handle());
    assert_eq!(store.assets.len(), 2);
}

#[test]
fn invalid_size_is_refused_and_nothing_is_allocated() {
    let a = slot(TextureFormat::Rgba8Unorm, false);
    let mut store = new_store();
    for size in [extent(0, 4, 1), extent(4, 0, 1), extent(4, 4, 0)] {
        assert_eq!(
            a.synchronize(&mut store, placeholder_handle(), size),
            Err(SyncError::InvalidSize)
        );
    }
    assert_eq!(store.assets.len(), 0);
    let mut composite = CompositeAttachment::new(2, vec![a, a]).unwrap();
    assert_eq!(
        composite.cascade(&mut store, extent(4, 4, 0)),
        Err(CascadeError { slot: 0, error: SyncError::InvalidSize })
    );
    assert_eq!(composite.handle(0), Some(placeholder_handle()));
    assert_eq!(store.assets.len(), 0);
}

#[test]
fn in_place_resize_needs_a_pixel_size() {
    let mut store = new_store();
    for format in [TextureFormat::Bc1RgbaUnorm, TextureFormat::Depth24PlusStencil8] {
        let a = slot(format, true);
        let (id, _) = a.synchronize(&mut store, placeholder_handle(), extent(8, 8, 1)).unwrap();
        assert_eq!(
            a.synchronize(&mut store, id, extent(16, 16, 1)),
            Err(SyncError::NoPixelSize)
        );
        assert_eq!(
            stored_size(&store, id),
            Some(Extent3d { width: 8, height: 8, depth_or_array_layers: 1 })
        );
    }
}

#[test]
fn in_place_resize_refuses_a_size_beyond_32_bits_of_pixels() {
    let a = slot(TextureFormat::Rgba8Unorm, true);
    let mut store = new_store();
    let (id, _) = a.synchronize(&mut store, placeholder_handle(), extent(8, 8, 1)).unwrap();
    assert_eq!(
        a.synchronize(&mut store, id, extent(65_536, 65_536, 1)),
        Err(SyncError::TooLarge)
    );
    assert_eq!(
        stored_size(&store, id),
        Some(Extent3d { width: 8, height: 8, depth_or_array_layers: 1 })
    );
}

#[test]
fn in_place_resize_refuses_an_image_with_too_few_bytes() {
    let a = slot(TextureFormat::Rgba8Unorm, true);
    let mut store = new_store();
    let (id, _) = a.synchronize(&mut store, placeholder_handle(), extent(4, 4, 1)).unwrap();
    store.assets.get_mut(key(id)).unwrap().data = Some(vec![0u8; 63]);
    assert_eq!(a.synchronize(&mut store, id, extent(8, 8, 1)), Err(SyncError::ContentMismatch));
    store.assets.get_mut(key(id)).unwrap().data = Some(vec![0u8; 64]);
    assert_eq!(
        a.synchronize(&mut store, id, extent(8, 8, 1)),
        Ok((id, SyncAction::ResizedInPlace))
    );
    assert_eq!(store.assets.get(key(id)).unwrap().data.as_ref().unwrap().len(), 256);
}

#[test]
fn discarding_resize_refuses_an_image_with_pixel_data() {
    let a = slot(TextureFormat::Rgba8Unorm, false);
    let mut store = new_store();
    let (id, _) = a.synchronize(&mut store, placeholder_handle(), extent(4, 4, 1)).unwrap();
    store.assets.get_mut(key(id)).unwrap().data = Some(vec![7u8; 64]);
    assert_eq!(a.synchronize(&mut store, id, extent(8, 8, 1)), Err(SyncError::CpuContent));
    let image = store.assets.get(key(id)).unwrap();
    assert_eq!(
        image.texture_descriptor.size,
        Extent3d { width: 4, height: 4, depth_or_array_layers: 1 }
    );
    assert_eq!(image.data, Some(vec![7u8; 64]));
}

#[test]
fn cascade_stops_at_the_first_failing_slot() {
    let keep = slot(TextureFormat::Rgba8Unorm, true);
    let discard = slot(TextureFormat::Rgba8Unorm, false);
    let mut composite = CompositeAttachment::new(3, vec![keep, discard, keep]).unwrap();
    let mut store = new_store();
    assert!(composite.cascade(&mut store, extent(4, 4, 1)).is_ok());
    let ids = [
        composite.handle(0).unwrap(),
        composite.handle(1).unwrap(),
        composite.handle(2).unwrap(),
    ];
    store.assets.get_mut(key(ids[1])).unwrap().data = Some(vec![0u8; 64]);
    assert_eq!(
        composite.cascade(&mut store, extent(8, 8, 1)),
        Err(CascadeError { slot: 1, error: SyncError::CpuContent })
    );
    let sizes: Vec<u32> =
        ids.iter().map(|id| stored_size(&store, *id).unwrap().width).collect();
    assert_eq!(sizes, vec![8, 4, 4]);
}

#[test]
fn target_without_a_size_is_skipped() {
    let a = slot(TextureFormat::Rgba8Unorm, false);
    let mut composite = CompositeAttachment::new(1, vec![a]).unwrap();
    let mut store = new_store();
    assert_eq!(composite.resize_cascade(&mut store, None), Ok(None));
    assert_eq!(composite.resize_cascade(&mut store, Some((0, 600))), Ok(None));
    assert_eq!(composite.resize_cascade(&mut store, Some((800, 0))), Ok(None));
    assert_eq!(composite.handle(0), Some(placeholder_handle()));
    assert_eq!(store.assets.len(), 0);
    assert_eq!(
        composite.resize_cascade(&mut store, Some((800, 600))),
        Ok(Some(vec![SyncAction::Materialized]))
    );
    assert_eq!(
        composite.resize_cascade(&mut store, Some((800, 600))),
        Ok(Some(vec![SyncAction::Unchanged]))
    );
    assert_eq!(
        composite.resize_cascade(&mut store, Some((1024, 768))),
        Ok(Some(vec![SyncAction::Redescribed]))
    );
    assert_eq!(
        composite.resize_cascade(&mut store, Some((800, 600))),
        Ok(Some(vec![SyncAction::Redescribed]))
    );
    let id = composite.handle(0).unwrap();
    assert_eq!(
        stored_size(&store, id),
        Some(Extent3d { width: 800, height: 600, depth_or_array_layers: 1 })
    );
    assert_eq!(composite.resize_cascade(&mut store, None), Ok(None));
    assert_eq!(composite.handle(0), Some(id));
}

#[test]
fn set_handle_replaces_one_slot() {
    let a = slot(TextureFormat::Rgba8Unorm, false);
    let mut composite = CompositeAttachment::new(2, vec![a, a]).unwrap();
    let id = ImageId::Index { bits: 5 };
    assert!(composite.set_handle(1, id));
    assert!(!composite.set_handle(2, id));
    assert_eq!(composite.handle(0), Some(placeholder_handle()));
    assert_eq!(composite.handle(1), Some(id));
}

#[test]
fn size_of_a_target_is_one_layer() {
    assert_eq!(Attach::compute_size(1920, 1080), extent(1920, 1080, 1));
    assert_eq!(Attach::compute_size(0, 7), extent(0, 7, 1));
}

#[test]
fn view_follows_the_layer_count() {
    let a = slot(TextureFormat::Rgba16Float, false);
    assert_eq!(a.texture_view(extent(4, 4, 0)).err(), Some(SyncError::InvalidSize));
    let one = a.texture_view(extent(4, 4, 1)).unwrap();
    assert_eq!(one.dimension, Some(TextureViewDimension::D2));
    assert_eq!(one.format, Some(TextureFormat::Rgba16Float));
    assert_eq!(one.label, Some("slot"));
    assert_eq!(one.usage, Some(a.texture_usages));
    assert_eq!(one.aspect, TextureAspect::All);
    assert_eq!(one.base_mip_level, 0);
    assert_eq!(one.mip_level_count, None);
    assert_eq!(one.base_array_layer, 0);
    assert_eq!(one.array_layer_count, None);
    let many = a.texture_view(extent(4, 4, 6)).unwrap();
    assert_eq!(many.dimension, Some(TextureViewDimension::D2Array));
    let mut depth = slot(TextureFormat::Depth32Float, false);
    depth.texture_aspect = TextureAspect::DepthOnly;
    assert_eq!(depth.texture_view(extent(4, 4, 1)).unwrap().aspect, TextureAspect::DepthOnly);
}

#[test]
fn new_image_carries_the_slot_definition() {
    let a = slot(TextureFormat::Rgba16Float, true);
    assert_eq!(a.new_image(extent(4, 4, 0)).err(), Some(SyncError::InvalidSize));
    let image = a.new_image(extent(12, 34, 2)).unwrap();
    assert_eq!(image.size, extent(12, 34, 2));
    assert_eq!(image.format, TextureFormat::Rgba16Float);
    assert_eq!(image.usage, a.texture_usages);
    assert_eq!(image.label, Some("slot"));
    assert_eq!(image.mip_level_count, 1);
    assert_eq!(image.sample_count, 1);
    assert_eq!(image.dimension, TextureDimension::D2);
    assert_eq!(image.view, a.texture_view(extent(12, 34, 2)).unwrap());
    assert_eq!(image.view.dimension, Some(TextureViewDimension::D2Array));
}

#[test]
fn allocated_image_carries_its_view() {
    let a = slot(TextureFormat::Rgba16Float, false);
    let mut store = new_store();
    let (id, _) = a.synchronize(&mut store, placeholder_handle(), extent(5, 6, 3)).unwrap();
    let image = store.assets.get(key(id)).unwrap();
    assert_eq!(image.texture_view_descriptor, Some(a.texture_view(extent(5, 6, 3)).unwrap()));
    assert_eq!(image.texture_descriptor.mip_level_count, 1);
    assert_eq!(image.texture_descriptor.sample_count, 1);
    assert_eq!(image.texture_descriptor.dimension, TextureDimension::D2);
    assert!(image.texture_descriptor.view_formats.is_empty());
    assert!(!image.copy_on_resize);
}

#[test]
fn color_target_carries_format_blend_and_mask() {
    let mut a = slot(TextureFormat::Rgba16Float, false);
    let target = a.color_target_state();
    assert_eq!(target.format, TextureFormat::Rgba16Float);
    assert_eq!(target.blend, None);
    assert_eq!(target.write_mask, ColorWrites::ALL);
    a.blend_state = Some(BlendState::ALPHA_BLENDING);
    a.color_writes = ColorWrites::RED;
    let target = a.color_target_state();
    assert_eq!(target.blend, Some(BlendState::ALPHA_BLENDING));
    assert_eq!(target.write_mask, ColorWrites::RED);
}

#[test]
fn cascade_takes_slots_in_ascending_order() {
    let a = slot(TextureFormat::Rgba8Unorm, false);
    let mut composite = CompositeAttachment::new(4, vec![a; 4]).unwrap();
    let mut store = new_store();
    assert!(composite.cascade(&mut store, extent(8, 8, 1)).is_ok());
    // The store hands out indices in the order of allocation.
    let order: Vec<u64> = (0..4)
        .map(|i| match composite.handle(i).unwrap() {
            ImageId::Index { bits } => bits & 0xFFFF_FFFF,
            ImageId::Uuid { .. } => unreachable!(),
        })
        .collect();
    assert_eq!(order, vec![0, 1, 2, 3]);
    // A later run takes the slots in the same order: a failure at slot 2
    // leaves slots 0 and 1 resized and slot 3 untouched.
    let id = composite.handle(2).unwrap();
    store.assets.get_mut(key(id)).unwrap().data = Some(vec![0u8; 256]);
    assert_eq!(
        composite.cascade(&mut store, extent(4, 4, 1)),
        Err(CascadeError { slot: 2, error: SyncError::CpuContent })
    );
    let widths: Vec<u32> = (0..4)
        .map(|i| stored_size(&store, composite.handle(i).unwrap()).unwrap().width)
        .collect();
    assert_eq!(widths, vec![4, 4, 8, 8]);
}

#[test]
fn step_synchronises_one_slot() {
    let a = slot(TextureFormat::Rgba8Unorm, false);
    let mut composite = CompositeAttachment::new(2, vec![a, a]).unwrap();
    let mut store = new_store();
    assert_eq!(composite.step(&mut store, 1, extent(8, 8, 1)), Ok(SyncAction::Materialized));
    assert_eq!(composite.handle(0), Some(placeholder_handle()));
    assert_ne!(composite.handle(1), Some(placeholder_handle()));
    assert_eq!(composite.step(&mut store, 1, extent(8, 8, 1)), Ok(SyncAction::Unchanged));
    assert_eq!(composite.step(&mut store, 1, extent(9, 8, 1)), Ok(SyncAction::Redescribed));
    assert_eq!(composite.step(&mut store, 1, extent(0, 8, 1)), Err(SyncError::InvalidSize));
    assert_eq!(store.assets.len(), 1);
}

#[test]
fn in_place_plan_on_given_values() {
    let from = extent(4, 4, 1);
    let to = extent(8, 8, 1);
    assert_eq!(plan_in_place(from, None, (1, 1), Some(4), to), Ok(()));
    assert_eq!(plan_in_place(from, Some(64), (1, 1), Some(4), to), Ok(()));
    assert_eq!(plan_in_place(from, Some(1_000), (1, 1), Some(4), to), Ok(()));
    // a format with blocks of several pixels, or without a byte size
    assert_eq!(plan_in_place(from, None, (4, 4), Some(8), to), Err(SyncError::NoPixelSize));
    assert_eq!(plan_in_place(from, None, (1, 1), None, to), Err(SyncError::NoPixelSize));
    // 2^32 pixels are one too many; 2^32 - 1 pixels of 1 byte are not
    assert_eq!(
        plan_in_place(from, None, (1, 1), Some(1), extent(65_536, 65_536, 1)),
        Err(SyncError::TooLarge)
    );
    assert_eq!(plan_in_place(from, None, (1, 1), Some(1), extent(65_535, 65_537, 1)), Ok(()));
    assert_eq!(
        plan_in_place(from, None, (1, 1), Some(u32::MAX), extent(u32::MAX, 2, 2)),
        Err(SyncError::TooLarge)
    );
    // pixel data one byte short of the old extent
    assert_eq!(
        plan_in_place(from, Some(63), (1, 1), Some(4), to),
        Err(SyncError::ContentMismatch)
    );
    // pixel data of an extent without rows or layers
    assert_eq!(
        plan_in_place(extent(4, 0, 1), Some(0), (1, 1), Some(4), to),
        Err(SyncError::ContentMismatch)
    );
    assert_eq!(
        plan_in_place(extent(4, 4, 0), Some(64), (1, 1), Some(4), to),
        Err(SyncError::ContentMismatch)
    );
    // the format is looked at first, the new extent second, the data last
    assert_eq!(
        plan_in_place(from, Some(0), (2, 2), None, extent(65_536, 65_536, 1)),
        Err(SyncError::NoPixelSize)
    );
    assert_eq!(
        plan_in_place(from, Some(0), (1, 1), Some(4), extent(65_536, 65_536, 1)),
        Err(SyncError::TooLarge)
    );
}
