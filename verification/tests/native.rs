use ash::vk;
use ash::vk::Handle;
use gfx_core::command::CommandBuffer;
use gfx_core::error::{Error, FenceStatus, NATIVE_DEVICE_LOST, NATIVE_SUCCESS, NATIVE_TIMEOUT};

#[test]
fn result_codes_are_those_of_the_driver() {
    assert_eq!(NATIVE_SUCCESS, vk::Result::SUCCESS.as_raw());
    assert_eq!(NATIVE_TIMEOUT, vk::Result::TIMEOUT.as_raw());
    assert_eq!(NATIVE_DEVICE_LOST, vk::Result::ERROR_DEVICE_LOST.as_raw());
}

#[test]
fn a_driver_result_is_read_as_a_fence_status() {
    assert_eq!(FenceStatus::from_native(vk::Result::SUCCESS.as_raw()), Ok(FenceStatus::Signaled));
    assert_eq!(FenceStatus::from_native(vk::Result::TIMEOUT.as_raw()), Ok(FenceStatus::TimedOut));
    assert_eq!(
        FenceStatus::from_native(vk::Result::ERROR_DEVICE_LOST.as_raw()),
        Err(Error::DeviceLost)
    );
}

#[test]
fn a_driver_handle_goes_through_a_buffer_unchanged() {
    let raw = vk::CommandBuffer::from_raw(0xdead_beef);
    let mut buffer = CommandBuffer::new(raw.as_raw(), 0);
    let info = buffer.end(vk::Result::SUCCESS.as_raw()).ok().expect("the buffer was recording");
    assert_eq!(vk::CommandBuffer::from_raw(info.command_buffer), raw);
    assert_eq!(vk::CommandBuffer::from_raw(buffer.handle()), raw);
}
