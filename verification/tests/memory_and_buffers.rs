use cotton::buffer::Buffers;
use cotton::device::DeviceContext;
use cotton::error::BuildError;
use cotton::flags::MEMORY_DEVICE_LOCAL;
use cotton::flags::MEMORY_HOST_COHERENT;
use cotton::flags::MEMORY_HOST_VISIBLE;
use cotton::flags::USAGE_SHADER_DEVICE_ADDRESS;
use cotton::flags::USAGE_STORAGE_BUFFER;
use cotton::get_memory_type_index;

fn sample_context() -> DeviceContext {
    let memory_types = vec![
        MEMORY_DEVICE_LOCAL,
        MEMORY_HOST_VISIBLE | MEMORY_HOST_COHERENT,
        MEMORY_HOST_VISIBLE | MEMORY_HOST_COHERENT | MEMORY_DEVICE_LOCAL,
    ];
    DeviceContext::new(memory_types, 0b111)
}

#[test]
fn memory_type_index_picks_first_match() {
    let types = vec![
        MEMORY_DEVICE_LOCAL,
        MEMORY_HOST_VISIBLE | MEMORY_HOST_COHERENT,
        MEMORY_HOST_VISIBLE | MEMORY_HOST_COHERENT,
    ];
    assert_eq!(get_memory_type_index(&types, 0b111, MEMORY_HOST_VISIBLE), Some(1));
    assert_eq!(get_memory_type_index(&types, 0b111, MEMORY_DEVICE_LOCAL), Some(0));
}

#[test]
fn memory_type_index_respects_type_filter() {
    let types = vec![
        MEMORY_HOST_VISIBLE | MEMORY_HOST_COHERENT,
        MEMORY_HOST_VISIBLE | MEMORY_HOST_COHERENT,
    ];
    // Bit 0 is masked out, so only type 1 qualifies.
    assert_eq!(get_memory_type_index(&types, 0b10, MEMORY_HOST_VISIBLE), Some(1));
}

#[test]
fn memory_type_index_none_when_nothing_matches() {
    let types = vec![MEMORY_DEVICE_LOCAL, MEMORY_DEVICE_LOCAL];
    assert_eq!(get_memory_type_index(&types, 0b11, MEMORY_HOST_VISIBLE), None);
}

#[test]
fn create_succeeds_for_matching_triple() {
    let mut ctx = sample_context();
    let buffer = Buffers::new(
        &mut ctx,
        64,
        USAGE_STORAGE_BUFFER | USAGE_SHADER_DEVICE_ADDRESS,
        MEMORY_HOST_VISIBLE | MEMORY_HOST_COHERENT,
    )
    .unwrap();
    assert_eq!(buffer.size, 64);
    assert_eq!(buffer.memory_type_index, 1);
}

#[test]
fn create_fails_without_matching_memory_type() {
    let mut ctx = DeviceContext::new(vec![MEMORY_DEVICE_LOCAL], 0b1);
    let result = Buffers::new(
        &mut ctx,
        64,
        USAGE_STORAGE_BUFFER,
        MEMORY_HOST_VISIBLE | MEMORY_HOST_COHERENT,
    );
    assert!(matches!(result, Err(BuildError::NoSuitableMemoryType)));
}

#[test]
fn create_fails_when_address_space_runs_out() {
    let mut ctx = sample_context();
    let first = Buffers::new(
        &mut ctx,
        u64::MAX - 4,
        USAGE_SHADER_DEVICE_ADDRESS,
        MEMORY_HOST_VISIBLE | MEMORY_HOST_COHERENT,
    );
    assert!(first.is_ok());
    let second = Buffers::new(
        &mut ctx,
        64,
        USAGE_SHADER_DEVICE_ADDRESS,
        MEMORY_HOST_VISIBLE | MEMORY_HOST_COHERENT,
    );
    assert!(matches!(second, Err(BuildError::DeviceAddressSpaceExhausted)));
}

#[test]
fn address_is_nonzero_and_stable() {
    let mut ctx = sample_context();
    let buffer = Buffers::new(
        &mut ctx,
        32,
        USAGE_SHADER_DEVICE_ADDRESS,
        MEMORY_HOST_VISIBLE | MEMORY_HOST_COHERENT,
    )
    .unwrap();
    let first = buffer.get_buffer_address();
    let second = buffer.get_buffer_address();
    assert_ne!(first, 0);
    assert_eq!(first, second);
}

#[test]
fn addresses_of_distinct_buffers_differ() {
    let mut ctx = sample_context();
    let a = Buffers::new(
        &mut ctx,
        32,
        USAGE_SHADER_DEVICE_ADDRESS,
        MEMORY_HOST_VISIBLE | MEMORY_HOST_COHERENT,
    )
    .unwrap();
    let b = Buffers::new(
        &mut ctx,
        32,
        USAGE_SHADER_DEVICE_ADDRESS,
        MEMORY_HOST_VISIBLE | MEMORY_HOST_COHERENT,
    )
    .unwrap();
    assert_ne!(a.get_buffer_address(), b.get_buffer_address());
}

#[test]
fn buffer_without_address_usage_has_no_address() {
    let mut ctx = sample_context();
    let buffer = Buffers::new(
        &mut ctx,
        32,
        USAGE_STORAGE_BUFFER,
        MEMORY_HOST_VISIBLE | MEMORY_HOST_COHERENT,
    )
    .unwrap();
    assert_eq!(buffer.device_address, 0);
}

#[test]
fn store_round_trips_through_debug_mapping() {
    let mut ctx = sample_context();
    let mut buffer = Buffers::new(
        &mut ctx,
        8,
        USAGE_SHADER_DEVICE_ADDRESS,
        MEMORY_HOST_VISIBLE | MEMORY_HOST_COHERENT,
    )
    .unwrap();
    let payload = vec![0xde, 0xad, 0xbe, 0xef, 0x01, 0x02, 0x03, 0x04];
    buffer.store(&payload).unwrap();
    assert_eq!(buffer.mapped_bytes(), &payload);
}

#[test]
fn store_accepts_payload_exactly_at_capacity() {
    let mut ctx = sample_context();
    let mut buffer = Buffers::new(
        &mut ctx,
        4,
        USAGE_SHADER_DEVICE_ADDRESS,
        MEMORY_HOST_VISIBLE | MEMORY_HOST_COHERENT,
    )
    .unwrap();
    assert!(buffer.store(&vec![1, 2, 3, 4]).is_ok());
    assert_eq!(buffer.mapped_bytes(), &vec![1, 2, 3, 4]);
}

#[test]
fn oversized_store_is_rejected_and_leaves_buffer_untouched() {
    let mut ctx = sample_context();
    let mut buffer = Buffers::new(
        &mut ctx,
        4,
        USAGE_SHADER_DEVICE_ADDRESS,
        MEMORY_HOST_VISIBLE | MEMORY_HOST_COHERENT,
    )
    .unwrap();
    buffer.store(&vec![9, 9, 9, 9]).unwrap();
    let result = buffer.store(&vec![1, 2, 3, 4, 5]);
    assert!(matches!(result, Err(BuildError::PayloadTooLarge)));
    assert_eq!(buffer.mapped_bytes(), &vec![9, 9, 9, 9]);
    assert!(!buffer.mapped);
}

#[test]
fn map_and_unmap_toggle_the_mapping_state() {
    let mut ctx = sample_context();
    let mut buffer = Buffers::new(
        &mut ctx,
        16,
        USAGE_STORAGE_BUFFER,
        MEMORY_HOST_VISIBLE | MEMORY_HOST_COHERENT,
    )
    .unwrap();
    assert!(!buffer.mapped);
    buffer.map(16);
    assert!(buffer.mapped);
    buffer.unmap();
    assert!(!buffer.mapped);
}
