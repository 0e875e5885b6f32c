use vstd::prelude::*;
use vstd::slice::slice_to_vec;
use vstd::string::StringSliceAdditionalSpecFns;
use vstd::utf8::encode_utf8;
use crate::abootimg::{boot_image_outcome, handle_bootimg, is_boot_image, is_bootimg, BootImage};
use crate::buffer::{FastbootBuffer, MemoryClass, Region};
use crate::error::BootError;
use crate::initrd::{initrd_media_guid, vendor_path, LinuxInitrd};
use crate::peimage::{handle_peimage, is_pe_image, is_peimage};
use crate::text::{is_ucs2_text, lemma_encoding_length, ucs2_into};

verus! {

/// The runtime-properties record that advertises no runtime service:
/// version 1, length 8, an empty service mask.
pub open spec fn rt_properties_table() -> Seq<u8> {
    seq![1u8, 0, 8, 0, 0, 0, 0, 0]
}

/// Builds the empty runtime-properties table in runtime data memory.
pub fn create_empty_rt_properties_table() -> (table: FastbootBuffer)
    ensures
        table.class() == MemoryClass::RuntimeServicesData,
        table.bytes() == rt_properties_table(),
        table.write_offset() == 8,
{
    let record: [u8; 8] = [1, 0, 8, 0, 0, 0, 0, 0];
    assert(record@ =~= rt_properties_table());
    FastbootBuffer::filled(MemoryClass::RuntimeServicesData, record.as_slice())
}

/// Everything the firmware needs to start a payload.
#[derive(Debug)]
pub struct BootPlan {
    /// The image to load and start.
    pub kernel: FastbootBuffer,
    /// The ramdisk to expose to the next stage, if the payload brought one.
    pub ramdisk: Option<FastbootBuffer>,
    /// The device-tree blob to install, if the payload brought one.
    pub dtb: Option<FastbootBuffer>,
    /// The command line to attach as load options, if the payload brought one.
    pub cmdline: Option<String>,
    /// The runtime-properties table to install.
    pub rt_properties: FastbootBuffer,
}

/// The contents of a `BootPlan`.
pub struct BootPlanView {
    pub kernel: Region,
    pub ramdisk: Option<Region>,
    pub dtb: Option<Region>,
    pub cmdline: Option<Seq<char>>,
    pub rt_properties: Region,
}

impl BootPlan {
    pub open spec fn view(&self) -> BootPlanView {
        BootPlanView {
            kernel: self.kernel.region(),
            ramdisk: match self.ramdisk {
                Some(ramdisk) => Some(ramdisk.region()),
                None => None,
            },
            dtb: match self.dtb {
                Some(dtb) => Some(dtb.region()),
                None => None,
            },
            cmdline: match self.cmdline {
                Some(cmdline) => Some(cmdline@),
                None => None,
            },
            rt_properties: self.rt_properties.region(),
        }
    }
}

/// What a load returns, with the plan reduced to its contents.
pub open spec fn plan_view(r: Result<BootPlan, BootError>) -> Result<BootPlanView, BootError> {
    match r {
        Ok(plan) => Ok(plan@),
        Err(e) => Err(e),
    }
}

/// The plan that `p` resolves to: an executable image is the kernel as it
/// stands and brings nothing else; a boot image brings what its sections
/// hold, each in the memory class of its consumer; anything else is not
/// recognized.
pub open spec fn plan_of(p: Seq<u8>) -> Result<BootPlanView, BootError> {
    let rt_properties = Region {
        class: MemoryClass::RuntimeServicesData,
        bytes: rt_properties_table(),
    };
    if is_pe_image(p) {
        Ok(
            BootPlanView {
                kernel: Region { class: MemoryClass::RuntimeServicesCode, bytes: p },
                ramdisk: None,
                dtb: None,
                cmdline: None,
                rt_properties,
            },
        )
    } else if is_boot_image(p) {
        match boot_image_outcome(p) {
            Ok(image) => Ok(
                BootPlanView {
                    kernel: Region { class: MemoryClass::RuntimeServicesCode, bytes: image.kernel },
                    ramdisk: Some(
                        Region { class: MemoryClass::BootServicesData, bytes: image.ramdisk },
                    ),
                    dtb: Some(Region { class: MemoryClass::AcpiReclaim, bytes: image.dtb }),
                    cmdline: Some(image.cmdline),
                    rt_properties,
                },
            ),
            Err(e) => Err(e),
        }
    } else {
        Err(BootError::UnrecognizedFormat)
    }
}

/// Resolves a downloaded payload: an executable image first, a boot image
/// second, and nothing else.
pub fn handle_boot(payload: &[u8]) -> (r: Result<BootPlan, BootError>)
    ensures
        plan_view(r) == plan_of(payload@),
{
    if is_peimage(payload) {
        let kernel = handle_peimage(payload);
        Ok(
            BootPlan {
                kernel,
                ramdisk: None,
                dtb: None,
                cmdline: None,
                rt_properties: create_empty_rt_properties_table(),
            },
        )
    } else if is_bootimg(payload) {
        match handle_bootimg(payload) {
            Err(e) => Err(e),
            Ok(image) => {
                let BootImage { kernel, ramdisk, dtb, cmdline } = image;
                Ok(
                    BootPlan {
                        kernel,
                        ramdisk: Some(ramdisk),
                        dtb: Some(dtb),
                        cmdline: Some(cmdline),
                        rt_properties: create_empty_rt_properties_table(),
                    },
                )
            },
        }
    } else {
        Err(BootError::UnrecognizedFormat)
    }
}

/// The load options of an image as they are attached: the text buffer and
/// the size that is declared for it.
#[derive(Debug)]
pub struct LoadOptions {
    pub text: Vec<u16>,
    pub size: u32,
}

/// One step of the hand-off, with what it works on.
#[derive(Debug)]
pub enum HandOffStep {
    /// Install the device-tree blob in the configuration table.
    InstallDeviceTree(FastbootBuffer),
    /// Register the ramdisk and its path record with the firmware.
    RegisterRamdisk(LinuxInitrd),
    /// Load the kernel as an image.
    LoadImage(FastbootBuffer),
    /// Attach the load options to the image that was loaded.
    AttachLoadOptions(LoadOptions),
    /// Install the runtime-properties table in the configuration table.
    InstallRuntimeProperties(FastbootBuffer),
    /// Send this response to the host.
    Acknowledge(Vec<u8>),
    /// Start the image that was loaded.
    StartImage,
}

/// The contents of a `HandOffStep`.
pub enum HandOffStepView {
    InstallDeviceTree(Region),
    RegisterRamdisk { ramdisk: Region, device_path: Seq<u8> },
    LoadImage(Region),
    AttachLoadOptions { text: Seq<u16>, size: u32 },
    InstallRuntimeProperties(Region),
    Acknowledge(Seq<u8>),
    StartImage,
}

impl HandOffStep {
    pub open spec fn view(&self) -> HandOffStepView {
        match *self {
            HandOffStep::InstallDeviceTree(dtb) => HandOffStepView::InstallDeviceTree(dtb.region()),
            HandOffStep::RegisterRamdisk(initrd) => HandOffStepView::RegisterRamdisk {
                ramdisk: initrd.load_file.buffer.region(),
                device_path: initrd.device_path@,
            },
            HandOffStep::LoadImage(kernel) => HandOffStepView::LoadImage(kernel.region()),
            HandOffStep::AttachLoadOptions(options) => HandOffStepView::AttachLoadOptions {
                text: options.text@,
                size: options.size,
            },
            HandOffStep::InstallRuntimeProperties(table) => {
                HandOffStepView::InstallRuntimeProperties(table.region())
            },
            HandOffStep::Acknowledge(response) => HandOffStepView::Acknowledge(response@),
            HandOffStep::StartImage => HandOffStepView::StartImage,
        }
    }
}

/// The contents of a sequence of steps.
pub open spec fn step_views(steps: Seq<HandOffStep>) -> Seq<HandOffStepView> {
    steps.map_values(|step: HandOffStep| step@)
}

/// A command line can be attached where it has only 16-bit characters, none
/// of them zero, and its declared size fits 32 bits.
pub open spec fn attachable(cmdline: Seq<char>) -> bool {
    is_ucs2_text(cmdline) && encode_utf8(cmdline).len() * 2 <= u32::MAX
}

/// The steps of a hand-off, in their order: the device-tree blob is
/// installed and the ramdisk registered, where the plan has them; the kernel
/// is loaded and, where the plan has a command line, the load options are
/// attached; the runtime-properties table is installed; the host is told of
/// the success; and the image is started.
pub open spec fn steps_of(plan: BootPlanView) -> Seq<HandOffStepView> {
    let device_tree = match plan.dtb {
        Some(dtb) => seq![HandOffStepView::InstallDeviceTree(dtb)],
        None => seq![],
    };
    let ramdisk = match plan.ramdisk {
        Some(ramdisk) => seq![
            HandOffStepView::RegisterRamdisk {
                ramdisk,
                device_path: vendor_path(initrd_media_guid()),
            },
        ],
        None => seq![],
    };
    let options = match plan.cmdline {
        Some(cmdline) => seq![
            HandOffStepView::AttachLoadOptions {
                text: load_options_of(cmdline, encode_utf8(cmdline).len()),
                size: (encode_utf8(cmdline).len() * 2) as u32,
            },
        ],
        None => seq![],
    };
    device_tree + ramdisk + seq![HandOffStepView::LoadImage(plan.kernel)] + options + seq![
        HandOffStepView::InstallRuntimeProperties(plan.rt_properties),
        HandOffStepView::Acknowledge("OKAY".spec_bytes()),
        HandOffStepView::StartImage,
    ]
}

/// The hand-off that a plan leads to: its steps, or the refusal of a
/// command line that cannot be attached.
pub open spec fn hand_off_of(plan: BootPlanView) -> Result<Seq<HandOffStepView>, BootError> {
    match plan.cmdline {
        Some(cmdline) => if attachable(cmdline) {
            Ok(steps_of(plan))
        } else {
            Err(BootError::InvalidCommandLine)
        },
        None => Ok(steps_of(plan)),
    }
}

/// What the sequencer returns, with the steps reduced to their contents.
pub open spec fn hand_off_view(r: Result<Vec<HandOffStep>, BootError>) -> Result<
    Seq<HandOffStepView>,
    BootError,
> {
    match r {
        Ok(steps) => Ok(step_views(steps@)),
        Err(e) => Err(e),
    }
}

/// Lays out the hand-off of a plan as the steps the firmware is asked to
/// take, in their order.
pub fn hand_off_sequence(plan: BootPlan) -> (r: Result<Vec<HandOffStep>, BootError>)
    ensures
        hand_off_view(r) == hand_off_of(plan@),
{
    let BootPlan { kernel, ramdisk, dtb, cmdline, rt_properties } = plan;
    let options = match &cmdline {
        None => None,
        Some(text) => {
            let size = match load_options_size(text.as_str()) {
                Some(size) => size,
                None => {
                    return Err(BootError::InvalidCommandLine);
                },
            };
            match load_options(text.as_str()) {
                Some(text) => Some(LoadOptions { text, size }),
                None => {
                    return Err(BootError::InvalidCommandLine);
                },
            }
        },
    };
    let mut steps: Vec<HandOffStep> = Vec::new();
    let ghost mut views: Seq<HandOffStepView> = seq![];
    if let Some(dtb) = dtb {
        steps.push(HandOffStep::InstallDeviceTree(dtb));
        proof {
            views = views.push(steps@.last()@);
        }
    }
    if let Some(ramdisk) = ramdisk {
        steps.push(HandOffStep::RegisterRamdisk(LinuxInitrd::new(ramdisk)));
        proof {
            views = views.push(steps@.last()@);
        }
    }
    steps.push(HandOffStep::LoadImage(kernel));
    proof {
        views = views.push(steps@.last()@);
    }
    if let Some(options) = options {
        steps.push(HandOffStep::AttachLoadOptions(options));
        proof {
            views = views.push(steps@.last()@);
        }
    }
    assert(step_views(steps@) =~= views);
    steps.push(HandOffStep::InstallRuntimeProperties(rt_properties));
    steps.push(HandOffStep::Acknowledge(slice_to_vec("OKAY".as_bytes())));
    steps.push(HandOffStep::StartImage);
    assert(step_views(steps@) =~= steps_of(plan@));
    Ok(steps)
}

/// The load options of an image: the command line in 16-bit characters with
/// its terminator, in a buffer of one character more than the text has bytes.
pub open spec fn load_options_of(text: Seq<char>, bytes: nat) -> Seq<u16> {
    Seq::new(
        bytes + 1,
        |i: int|
            if i < text.len() {
                text[i] as u16
            } else {
                0u16
            },
    )
}

/// Builds the load-options buffer for `cmdline`. There is none for a text
/// with a zero character or one beyond the 16-bit range, nor for one so long
/// that the buffer could not be addressed.
pub fn load_options(cmdline: &str) -> (r: Option<Vec<u16>>)
    ensures
        r is Some <==> is_ucs2_text(cmdline@) && cmdline.spec_bytes().len() < usize::MAX,
        r is Some ==> r->Some_0@ == load_options_of(cmdline@, cmdline.spec_bytes().len()),
{
    let bytes: usize = cmdline.as_bytes().len();
    if bytes == usize::MAX {
        return None;
    }
    let mut buf: Vec<u16> = vec![0u16; bytes + 1];
    proof {
        lemma_encoding_length(cmdline@);
    }
    if ucs2_into(cmdline, &mut buf) {
        assert(buf@ =~= load_options_of(cmdline@, cmdline.spec_bytes().len()));
        Some(buf)
    } else {
        None
    }
}

/// The size in bytes that is declared for the load options: two for every
/// byte of the text, the terminator not counted.
pub fn load_options_size(cmdline: &str) -> (r: Option<u32>)
    ensures
        r is Some <==> cmdline.spec_bytes().len() * 2 <= u32::MAX,
        r is Some ==> r->Some_0 == cmdline.spec_bytes().len() * 2,
{
    let n: usize = cmdline.as_bytes().len();
    if n > 0x7fff_ffff {
        None
    } else {
        Some((n as u32) * 2)
    }
}

} // verus!
