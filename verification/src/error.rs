use vstd::prelude::*;

verus! {

/// Everything that can go wrong while a payload is received, parsed or handed off.
#[derive(Clone, Copy, Debug, PartialEq, Eq, Structural)]
pub enum BootError {
    /// The firmware allocator could not provide the requested region.
    AllocationFailure,
    /// A buffer write would run past the end of the region.
    OutOfBounds,
    /// The payload is neither an executable image nor a boot image container.
    UnrecognizedFormat,
    /// The boot image header declares a version other than 2.
    UnsupportedHeaderVersion,
    /// A declared section lies beyond the end of the payload.
    TruncatedPayload,
    /// The compressed kernel section could not be inflated.
    KernelDecompressionFailed,
    /// The kernel section is not a loadable application.
    InvalidKernelImage,
    /// The command-line field does not hold valid text.
    InvalidCommandLine,
    /// A call into the USB device service failed.
    TransportFailure,
    /// The destination of a ramdisk read is absent or too short.
    BufferTooSmall,
}

} // verus!
