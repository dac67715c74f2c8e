use cotton::device::DeviceContext;
use cotton::error::BuildError;
use cotton::flags::INSTANCE_FORCE_OPAQUE;
use cotton::flags::MEMORY_DEVICE_LOCAL;
use cotton::flags::MEMORY_HOST_COHERENT;
use cotton::flags::MEMORY_HOST_VISIBLE;
use cotton::scene::pack_24_8;
use cotton::scene::unpack_high_8;
use cotton::scene::unpack_low_24;
use cotton::scene::InstancePlacement;
use cotton::scene::Scene;

fn sample_context() -> DeviceContext {
    let memory_types = vec![
        MEMORY_DEVICE_LOCAL,
        MEMORY_HOST_VISIBLE | MEMORY_HOST_COHERENT | MEMORY_DEVICE_LOCAL,
    ];
    DeviceContext::new(memory_types, 0b11)
}

fn identity_transform() -> [u32; 12] {
    let one = 1.0f32.to_bits();
    [one, 0, 0, 0, 0, one, 0, 0, 0, 0, one, 0]
}

#[test]
fn custom_index_and_mask_pack_losslessly() {
    let packed = pack_24_8(0, 0xff);
    assert_eq!(unpack_low_24(packed), 0);
    assert_eq!(unpack_high_8(packed), 0xff);
}

#[test]
fn sbt_offset_and_flags_pack_losslessly() {
    let packed = pack_24_8(0, INSTANCE_FORCE_OPAQUE as u8);
    assert_eq!(unpack_low_24(packed), 0);
    assert_eq!(unpack_high_8(packed), INSTANCE_FORCE_OPAQUE as u8);
}

#[test]
fn nontrivial_split_packs_losslessly() {
    let packed = pack_24_8(0x00ab_cdef, 0x7b);
    assert_eq!(unpack_low_24(packed), 0x00ab_cdef);
    assert_eq!(unpack_high_8(packed), 0x7b);
}

#[test]
fn triangle_instance_carries_the_expected_packed_words() {
    let record = Scene::create_triangle_instance(0x1234, identity_transform());
    assert_eq!(record.instance_custom_index_and_mask, 0xff00_0000);
    assert_eq!(record.instance_shader_binding_table_record_offset_and_flags, 0x0400_0000);
    assert_eq!(record.acceleration_structure_reference, 0x1234);
}

#[test]
fn scene_packs_one_record_into_sixty_four_bytes() {
    let mut ctx = sample_context();
    let placements = vec![InstancePlacement {
        transform: identity_transform(),
        blas_address: 0x1122_3344_5566_7788,
    }];
    let scene = Scene::build_scene(&mut ctx, &placements).unwrap();
    assert_eq!(scene.instances.len(), 1);
    assert_eq!(scene.instance_buffer.size, 64);

    let bytes = scene.instance_buffer.mapped_bytes();
    assert_eq!(bytes.len(), 64);

    let mut expected: Vec<u8> = Vec::new();
    for word in identity_transform() {
        expected.extend_from_slice(&word.to_le_bytes());
    }
    expected.extend_from_slice(&0xff00_0000u32.to_le_bytes());
    expected.extend_from_slice(&0x0400_0000u32.to_le_bytes());
    expected.extend_from_slice(&0x1122_3344_5566_7788u64.to_le_bytes());
    assert_eq!(bytes, &expected);
}

#[test]
fn scene_packs_records_in_placement_order() {
    let mut ctx = sample_context();
    let placements = vec![
        InstancePlacement { transform: identity_transform(), blas_address: 0xaaaa },
        InstancePlacement { transform: identity_transform(), blas_address: 0xbbbb },
    ];
    let scene = Scene::build_scene(&mut ctx, &placements).unwrap();
    assert_eq!(scene.instances.len(), 2);
    assert_eq!(scene.instance_buffer.size, 128);
    assert_eq!(scene.instances[0].acceleration_structure_reference, 0xaaaa);
    assert_eq!(scene.instances[1].acceleration_structure_reference, 0xbbbb);

    let bytes = scene.instance_buffer.mapped_bytes();
    // The second record's reference stands in the last eight bytes.
    assert_eq!(&bytes[120..128], &0xbbbbu64.to_le_bytes());
    // The first record's reference stands in bytes 56..64.
    assert_eq!(&bytes[56..64], &0xaaaau64.to_le_bytes());
}

#[test]
fn scene_build_fails_without_compatible_memory() {
    let mut ctx = DeviceContext::new(vec![MEMORY_DEVICE_LOCAL], 0b1);
    let placements = vec![InstancePlacement {
        transform: identity_transform(),
        blas_address: 0x1,
    }];
    let result = Scene::build_scene(&mut ctx, &placements);
    assert!(matches!(result, Err(BuildError::NoSuitableMemoryType)));
}
