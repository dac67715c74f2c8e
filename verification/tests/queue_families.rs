use cotton::flags::QUEUE_GRAPHICS;
use cotton::queue_family_indices::QueueFamilyIndices;

#[test]
fn picks_the_last_matching_families() {
    let flags = vec![QUEUE_GRAPHICS, 0, QUEUE_GRAPHICS | 0x2];
    let present = vec![false, true, false];
    let indices = QueueFamilyIndices::new(&flags, &present);
    assert_eq!(indices.graphics_family, Some(2));
    assert_eq!(indices.present_family, Some(1));
    assert!(indices.is_all_complete());
}

#[test]
fn reports_missing_families_as_none() {
    let flags = vec![0x2, 0x4];
    let present = vec![false, false];
    let indices = QueueFamilyIndices::new(&flags, &present);
    assert_eq!(indices.graphics_family, None);
    assert_eq!(indices.present_family, None);
    assert!(!indices.is_all_complete());
}

#[test]
fn incomplete_indices_are_not_all_complete() {
    let flags = vec![QUEUE_GRAPHICS];
    let present = vec![false];
    let indices = QueueFamilyIndices::new(&flags, &present);
    assert_eq!(indices.graphics_family, Some(0));
    assert!(!indices.is_all_complete());
}

#[test]
fn suitability_needs_families_extension_and_swapchain_details() {
    let flags = vec![QUEUE_GRAPHICS];
    let present = vec![true];
    let indices = QueueFamilyIndices::new(&flags, &present);
    assert!(indices.is_device_suitable(true, true, true));
    assert!(!indices.is_device_suitable(false, true, true));
    assert!(!indices.is_device_suitable(true, false, true));
    assert!(!indices.is_device_suitable(true, true, false));
}
