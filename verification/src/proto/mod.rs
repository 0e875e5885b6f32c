pub mod memcardinfo;
pub mod usb_device;
