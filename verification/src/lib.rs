//! Boot-payload pipeline of a fastboot agent: payload classification, Android
//! boot image parsing, the download engine, the session controller and the
//! hand-off sequence, all as functions on plain values with machine-checked
//! contracts. Talking to the firmware is left to the program around it.

pub mod abootimg;
pub mod buffer;
pub mod download;
pub mod error;
pub mod fastboot;
pub mod handoff;
pub mod hex;
pub mod inflate;
pub mod initrd;
pub mod le;
pub mod memcardinfo;
pub mod peimage;
pub mod proto;
pub mod text;
pub mod usb_device;
