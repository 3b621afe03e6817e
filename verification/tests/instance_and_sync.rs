//! Instance configuration, shader-word decoding, fences, render pass,
//! and the small helpers.

use magmacraft::builder::BuilderProduct;
use magmacraft::debugging::{is_in_debug_mode, is_in_release_mode, BuildMode};
use magmacraft::errors::VulkanError;
use magmacraft::instance::{
    check_if_validation_layers_are_available, encode_version, instance_extensions_for,
    validation_layer_name, validation_layers_for,
};
use magmacraft::render_pass::{
    plan_render_pass, AttachmentLoadOp, AttachmentStoreOp, ImageLayout,
};
use magmacraft::renderer::required_device_extensions;
use magmacraft::shader_words::words_from_bytes;
use magmacraft::synchronization::{
    fence_creation_signaled, fence_wait_timeout_nanos, interpret_fence_status, FenceStatus,
};

#[test]
fn version_encoding_packs_the_fields() {
    assert_eq!(encode_version(0, 0, 0), 0);
    assert_eq!(encode_version(1, 0, 0), 0x400000);
    assert_eq!(encode_version(1, 2, 3), 0x400000 + 2 * 0x1000 + 3);
}

#[test]
fn debug_mode_requests_the_validation_layer() {
    assert_eq!(validation_layers_for(true), vec![validation_layer_name()]);
    assert!(validation_layers_for(false).is_empty());
    assert_eq!(validation_layer_name(), "VK_LAYER_KHRONOS_validation");
}

#[test]
fn layer_availability_is_checked_by_name() {
    let available = vec!["VK_LAYER_KHRONOS_validation".to_string()];
    assert_eq!(
        check_if_validation_layers_are_available(&validation_layers_for(true), &available),
        Ok(())
    );
    assert_eq!(
        check_if_validation_layers_are_available(&validation_layers_for(true), &vec![]),
        Err(VulkanError::ValidationLayersNotAvailable)
    );
}

#[test]
fn debug_mode_appends_the_debug_utils_extension() {
    let base = vec!["VK_KHR_surface".to_string()];
    let with_debug = instance_extensions_for(base.clone(), true);
    assert_eq!(
        with_debug,
        vec!["VK_KHR_surface".to_string(), "VK_EXT_debug_utils".to_string()]
    );
    let without_debug = instance_extensions_for(base.clone(), false);
    assert_eq!(without_debug, base);
}

#[test]
fn the_swapchain_extension_is_required() {
    assert_eq!(required_device_extensions(), vec!["VK_KHR_swapchain".to_string()]);
}

#[test]
fn shader_words_decode_little_endian() {
    let bytes = vec![0x01, 0x02, 0x03, 0x04, 0xFF, 0x00, 0x00, 0x00];
    let words = words_from_bytes(&bytes).unwrap();
    assert_eq!(words, vec![0x04030201, 0x000000FF]);
    assert_eq!(words_from_bytes(&vec![]).unwrap(), Vec::<u32>::new());
}

#[test]
fn shader_byte_length_must_be_word_aligned() {
    let err = words_from_bytes(&vec![1, 2, 3]).unwrap_err();
    assert_eq!(err, VulkanError::ShaderCodeSizeError);
}

#[test]
fn fence_flags_and_status_codes() {
    assert!(fence_creation_signaled(FenceStatus::Ready));
    assert!(!fence_creation_signaled(FenceStatus::NotReady));

    assert_eq!(interpret_fence_status(Ok(())), Ok(FenceStatus::Ready));
    assert_eq!(interpret_fence_status(Err(1)), Ok(FenceStatus::NotReady));
    assert_eq!(
        interpret_fence_status(Err(-4)),
        Err(VulkanError::FenceGetStatusError { result: -4 })
    );
}

#[test]
fn fence_timeouts_are_bounded() {
    assert_eq!(fence_wait_timeout_nanos(5), Ok(5));
    assert_eq!(fence_wait_timeout_nanos(u64::MAX as u128), Ok(u64::MAX));
    assert_eq!(
        fence_wait_timeout_nanos(u64::MAX as u128 + 1),
        Err(VulkanError::FenceTimeoutTooLargeError)
    );
}

#[test]
fn render_pass_declares_clear_then_present() {
    let plan = plan_render_pass(44);
    assert_eq!(plan.attachment.format, 44);
    assert_eq!(plan.attachment.samples, 1);
    assert_eq!(plan.attachment.load_op, AttachmentLoadOp::Clear);
    assert_eq!(plan.attachment.store_op, AttachmentStoreOp::Store);
    assert_eq!(plan.attachment.stencil_load_op, AttachmentLoadOp::DontCare);
    assert_eq!(plan.attachment.stencil_store_op, AttachmentStoreOp::DontCare);
    assert_eq!(plan.attachment.initial_layout, ImageLayout::Undefined);
    assert_eq!(plan.attachment.final_layout, ImageLayout::PresentSource);
    assert_eq!(plan.color_reference.attachment, 0);
    assert_eq!(plan.color_reference.layout, ImageLayout::ColorAttachmentOptimal);
}

#[test]
fn build_modes_are_opposites() {
    assert!(is_in_debug_mode(BuildMode::Debug));
    assert!(!is_in_debug_mode(BuildMode::Release));
    assert!(is_in_release_mode(BuildMode::Release));
    assert!(!is_in_release_mode(BuildMode::Debug));
}

#[test]
fn builder_product_holds_the_finished_value() {
    let mut product: BuilderProduct<u32> = BuilderProduct::none();
    assert!(product.value.is_none());
    product.set(17);
    product.set(18);
    assert_eq!(product.unwrap(), 18);
}
