use fastboot::buffer::MemoryClass;
use fastboot::download::{data_response, Download, DownloadStep, RECEIVE_CHUNK};
use fastboot::fastboot::{
    fail_response, failure_reason, fastboot_respond, okay_response, parse_command, Command,
    ConnectionState, Next, Reaction, Session, COMMAND_BUFFER_SIZE,
};
use fastboot::error::BootError;
use fastboot::handoff::HandOffStep;
use fastboot::usb_device::EfiUsbDeviceEvent;

fn connected_session() -> Session {
    let (session, reaction) = Session::new().on_event(EfiUsbDeviceEvent::Connected);
    assert!(reaction.response.is_none());
    assert!(matches!(reaction.next, Next::ReceiveCommand(COMMAND_BUFFER_SIZE)));
    session
}

fn send(session: Session, request: &[u8]) -> (Session, Reaction) {
    session.on_event(EfiUsbDeviceEvent::OutData(request.to_vec()))
}

fn session_pe_sample() -> Vec<u8> {
    let mut image = vec![0u8; 0x40 + 94];
    image[0] = b'M';
    image[1] = b'Z';
    image[0x3c] = 0x40;
    image[0x40..0x44].copy_from_slice(b"PE\0\0");
    image[0x44..0x46].copy_from_slice(&0xaa64u16.to_le_bytes());
    image[0x54..0x56].copy_from_slice(&0xf0u16.to_le_bytes());
    image[0x58..0x5a].copy_from_slice(&0x020bu16.to_le_bytes());
    image[0x9c..0x9e].copy_from_slice(&10u16.to_le_bytes());
    image
}

fn download(session: Session, payload: &[u8]) -> Session {
    let request = format!("download:{:08x}", payload.len());
    let (session, reaction) = send(session, request.as_bytes());
    assert!(matches!(reaction.next, Next::ReceiveData(_)));
    let (session, reaction) = session.on_event(EfiUsbDeviceEvent::OutData(payload.to_vec()));
    assert_eq!(reaction.response.as_deref(), Some(&b"OKAY"[..]));
    session
}

#[test]
fn commands_are_recognised() {
    assert_eq!(parse_command(b"boot"), Command::Boot);
    assert_eq!(parse_command(b"reboot"), Command::Reboot);
    assert_eq!(parse_command(b"continue"), Command::Continue);
    assert_eq!(parse_command(b"download:00000400"), Command::Download(1024));
    assert_eq!(parse_command(b"download:0"), Command::Download(0));
    assert_eq!(parse_command(b"download:DeadBeef"), Command::Download(0xdead_beef));
    assert_eq!(parse_command(b"download:+1f"), Command::Download(0x1f));
    assert_eq!(parse_command(b"download:10:20"), Command::Download(0x10));
    assert_eq!(
        parse_command(b"download:000000000000000000000000000000000001"),
        Command::Download(1)
    );
}

#[test]
fn anything_else_is_unknown() {
    for request in [
        &b""[..],
        b"boot ",
        b" boot",
        b"Boot",
        b"boot\0",
        b"reboot-bootloader",
        b"flash:boot",
        b"getvar:version",
        b"download",
        b"download:",
        b"download:+",
        b"download:-1",
        b"download:0x10",
        b"download:12g4",
        b"download: 10",
        b"download::10",
        b"download:fffffffffffffffffffffffff",
        b"\xff\xfe",
    ] {
        assert_eq!(parse_command(request), Command::Unknown, "{request:?}");
    }
}

#[test]
fn download_size_is_bounded_by_the_machine_word() {
    let request = format!("download:{:x}", usize::MAX);
    assert_eq!(parse_command(request.as_bytes()), Command::Download(usize::MAX));
    let request = format!("download:{:x}0", usize::MAX);
    assert_eq!(parse_command(request.as_bytes()), Command::Unknown);
    let request = format!("download:1{:x}", usize::MAX);
    assert_eq!(parse_command(request.as_bytes()), Command::Unknown);
}

#[test]
fn responses_are_spelled_as_the_protocol_wants() {
    assert_eq!(okay_response(), b"OKAY");
    assert_eq!(fail_response("unknown command"), b"FAILunknown command");
    assert_eq!(fail_response(""), b"FAIL");
    assert_eq!(data_response(1024), b"DATA00000400");
    assert_eq!(data_response(0), b"DATA00000000");
    assert_eq!(data_response(0xffff_ffff), b"DATAffffffff");
    assert_eq!(data_response(20 * 1024 * 1024), b"DATA01400000");
    assert_eq!(data_response(0xabcdef), b"DATA00abcdef");
}

#[test]
fn data_response_grows_beyond_eight_digits() {
    if usize::BITS > 32 {
        let size = 0x1_2345_6789u64 as usize;
        assert_eq!(data_response(size), b"DATA123456789");
    }
}

#[test]
fn every_error_has_its_reason() {
    assert_eq!(failure_reason(BootError::UnrecognizedFormat), "");
    assert_eq!(failure_reason(BootError::UnsupportedHeaderVersion), "only version 2 supported");
    assert_eq!(failure_reason(BootError::KernelDecompressionFailed), "failed to decompress kernel");
    assert_eq!(
        failure_reason(BootError::InvalidKernelImage),
        "kernel payload is not an EFI application"
    );
    for e in [
        BootError::AllocationFailure,
        BootError::OutOfBounds,
        BootError::TruncatedPayload,
        BootError::InvalidCommandLine,
        BootError::TransportFailure,
        BootError::BufferTooSmall,
    ] {
        assert!(!failure_reason(e).is_empty());
        assert!(failure_reason(e).len() < 59);
    }
}

#[test]
fn response_is_framed_with_a_terminator() {
    assert_eq!(fastboot_respond(b"OKAY").unwrap(), b"OKAY\0");
    assert_eq!(fastboot_respond(b"").unwrap(), b"\0");
    assert_eq!(fastboot_respond(&[b'a'; 63]).unwrap().len(), 64);
    assert!(fastboot_respond(&[b'a'; 64]).is_none());
}

#[test]
fn new_session_is_disconnected_and_empty() {
    let session = Session::new();
    assert_eq!(session.connection, ConnectionState::Disconnected);
    assert!(session.payload.is_none());
    assert!(session.download.is_none());
}

#[test]
fn connect_arms_the_command_buffer() {
    let session = connected_session();
    assert_eq!(session.connection, ConnectionState::Connected);
    assert_eq!(COMMAND_BUFFER_SIZE, 1024 * 1024);
}

#[test]
fn no_event_polls_again() {
    let (session, reaction) = connected_session().on_event(EfiUsbDeviceEvent::NoEvent);
    assert!(reaction.response.is_none());
    assert!(matches!(reaction.next, Next::Poll));
    assert_eq!(session.connection, ConnectionState::Connected);
}

#[test]
fn disconnect_is_noted() {
    let (session, reaction) = connected_session().on_event(EfiUsbDeviceEvent::Disconnected);
    assert!(reaction.response.is_none());
    assert!(matches!(reaction.next, Next::Poll));
    assert_eq!(session.connection, ConnectionState::Disconnected);
}

#[test]
fn payload_does_not_outlive_a_detach() {
    let session = download(connected_session(), &session_pe_sample());
    assert!(session.payload.is_some());
    let (session, _) = session.on_event(EfiUsbDeviceEvent::Disconnected);
    assert!(session.payload.is_none());
    let (session, _) = session.on_event(EfiUsbDeviceEvent::Connected);
    let (_, reaction) = send(session, b"boot");
    assert_eq!(reaction.response.unwrap(), b"FAILdownload something first");
}

#[test]
fn download_of_1024_bytes_in_one_chunk() {
    let (session, reaction) = send(connected_session(), b"download:00000400");
    assert_eq!(reaction.response.as_deref(), Some(&b"DATA00000400"[..]));
    assert!(matches!(reaction.next, Next::ReceiveData(1024)));
    assert_eq!(session.connection, ConnectionState::Streaming);
    assert!(session.payload.is_none());

    let data: Vec<u8> = (0..1024u32).map(|i| (i % 256) as u8).collect();
    let (session, reaction) = session.on_event(EfiUsbDeviceEvent::OutData(data.clone()));
    assert_eq!(reaction.response.as_deref(), Some(&b"OKAY"[..]));
    assert!(matches!(reaction.next, Next::ReceiveCommand(COMMAND_BUFFER_SIZE)));
    assert_eq!(session.connection, ConnectionState::Connected);
    assert!(session.download.is_none());
    let payload = session.payload.as_ref().unwrap();
    assert_eq!(payload.len(), 1024);
    assert_eq!(payload.offset(), 1024);
    assert_eq!(payload.as_slice(), &data[..]);
    assert_eq!(payload.memory_class(), MemoryClass::BootServicesData);
}

#[test]
fn download_of_20_mib_takes_two_chunks() {
    let size = 20 * 1024 * 1024;
    let (mut session, reaction) = send(connected_session(), b"download:01400000");
    assert_eq!(reaction.response.as_deref(), Some(&b"DATA01400000"[..]));
    let mut requested = Vec::new();
    let mut next = reaction.next;
    let mut sent = 0usize;
    let last = loop {
        let chunk = match next {
            Next::ReceiveData(n) => n,
            other => panic!("unexpected {other:?}"),
        };
        assert!(chunk <= RECEIVE_CHUNK);
        requested.push(chunk);
        let data: Vec<u8> = (sent..sent + chunk).map(|i| (i / 4096) as u8).collect();
        sent += chunk;
        let (after, reaction) = session.on_event(EfiUsbDeviceEvent::OutData(data));
        session = after;
        if reaction.response.is_some() {
            break reaction;
        }
        next = reaction.next;
    };
    assert_eq!(requested, vec![16 * 1024 * 1024, 4 * 1024 * 1024]);
    assert_eq!(requested.iter().sum::<usize>(), size);
    assert_eq!(last.response.as_deref(), Some(&b"OKAY"[..]));
    assert!(matches!(last.next, Next::ReceiveCommand(COMMAND_BUFFER_SIZE)));
    let payload = session.payload.as_ref().unwrap();
    assert_eq!(payload.len(), size);
    assert!(payload.as_slice().iter().enumerate().step_by(4099).all(|(i, &b)| b == (i / 4096) as u8));
}

#[test]
fn boot_without_download_fails_and_does_nothing() {
    let (session, reaction) = send(connected_session(), b"boot");
    let response = reaction.response.unwrap();
    assert!(response.starts_with(b"FAIL"));
    assert_eq!(response, b"FAILdownload something first");
    assert!(matches!(reaction.next, Next::ReceiveCommand(COMMAND_BUFFER_SIZE)));
    assert!(session.payload.is_none());
    assert!(session.download.is_none());
    assert_eq!(session.connection, ConnectionState::Connected);
}

#[test]
fn short_chunks_are_collected_in_order() {
    let (session, _) = send(connected_session(), b"download:a");
    let (session, reaction) = session.on_event(EfiUsbDeviceEvent::OutData(vec![1, 2, 3]));
    assert!(reaction.response.is_none());
    assert!(matches!(reaction.next, Next::ReceiveData(7)));
    let (session, reaction) = session.on_event(EfiUsbDeviceEvent::NoEvent);
    assert!(matches!(reaction.next, Next::Poll));
    let (session, reaction) = session.on_event(EfiUsbDeviceEvent::OutData(vec![]));
    assert!(matches!(reaction.next, Next::ReceiveData(7)));
    let (session, reaction) = session.on_event(EfiUsbDeviceEvent::OutData(vec![4, 5, 6, 7, 8, 9, 10]));
    assert_eq!(reaction.response.as_deref(), Some(&b"OKAY"[..]));
    assert_eq!(session.payload.unwrap().as_slice(), &[1, 2, 3, 4, 5, 6, 7, 8, 9, 10]);
}

#[test]
fn empty_download_completes_on_the_first_transfer() {
    let (session, reaction) = send(connected_session(), b"download:0");
    assert_eq!(reaction.response.as_deref(), Some(&b"DATA00000000"[..]));
    assert!(matches!(reaction.next, Next::ReceiveData(0)));
    let (session, reaction) = session.on_event(EfiUsbDeviceEvent::OutData(vec![]));
    assert_eq!(reaction.response.as_deref(), Some(&b"OKAY"[..]));
    assert_eq!(session.payload.unwrap().len(), 0);
}

#[test]
fn disconnect_during_download_gives_no_acknowledgment() {
    let session = download(connected_session(), &[1, 2, 3]);
    let (session, _) = send(session, b"download:8");
    assert!(session.payload.is_none());
    let (session, _) = session.on_event(EfiUsbDeviceEvent::OutData(vec![1, 2, 3]));
    let (session, reaction) = session.on_event(EfiUsbDeviceEvent::Disconnected);
    assert!(reaction.response.is_none());
    assert!(matches!(reaction.next, Next::ReceiveCommand(COMMAND_BUFFER_SIZE)));
    assert_eq!(session.connection, ConnectionState::Disconnected);
    assert!(session.download.is_none());
    assert!(session.payload.is_none());
    let (_, reaction) = send(session, b"boot");
    assert_eq!(reaction.response.unwrap(), b"FAILdownload something first");
}

#[test]
fn reconnect_during_download_drops_it() {
    let (session, _) = send(connected_session(), b"download:8");
    let (session, reaction) = session.on_event(EfiUsbDeviceEvent::Connected);
    assert!(reaction.response.is_none());
    assert!(matches!(reaction.next, Next::ReceiveCommand(COMMAND_BUFFER_SIZE)));
    assert_eq!(session.connection, ConnectionState::Connected);
    assert!(session.download.is_none());
}

#[test]
fn too_much_data_fails_the_download() {
    let (session, _) = send(connected_session(), b"download:4");
    let (session, reaction) = session.on_event(EfiUsbDeviceEvent::OutData(vec![0; 5]));
    assert_eq!(reaction.response.unwrap(), b"FAILtoo much data");
    assert!(matches!(reaction.next, Next::ReceiveCommand(COMMAND_BUFFER_SIZE)));
    assert!(session.download.is_none());
    assert!(session.payload.is_none());
}

#[test]
fn reboot_is_acknowledged_first() {
    let (_, reaction) = send(connected_session(), b"reboot");
    assert_eq!(reaction.response.unwrap(), b"OKAY");
    assert!(matches!(reaction.next, Next::Reboot));
}

#[test]
fn continue_ends_the_session() {
    let (_, reaction) = send(connected_session(), b"continue");
    assert_eq!(reaction.response.unwrap(), b"OKAY");
    assert!(matches!(reaction.next, Next::Stop));
}

#[test]
fn unknown_command_fails_and_rearms() {
    let (session, reaction) = send(connected_session(), b"getvar:all");
    assert_eq!(reaction.response.unwrap(), b"FAILunknown command");
    assert!(matches!(reaction.next, Next::ReceiveCommand(COMMAND_BUFFER_SIZE)));
    assert_eq!(session.connection, ConnectionState::Connected);
    let (_, reaction) = send(session, b"download:zz");
    assert_eq!(reaction.response.unwrap(), b"FAILunknown command");
}

#[test]
fn boot_of_an_executable_image_hands_off() {
    let image = session_pe_sample();
    let session = download(connected_session(), &image);
    let (session, reaction) = send(session, b"boot");
    assert!(reaction.response.is_none());
    let steps = match reaction.next {
        Next::HandOff(steps) => steps,
        other => panic!("unexpected {other:?}"),
    };
    assert_eq!(steps.len(), 4);
    match &steps[0] {
        HandOffStep::LoadImage(kernel) => {
            assert_eq!(kernel.as_slice(), &image[..]);
            assert_eq!(kernel.memory_class(), MemoryClass::RuntimeServicesCode);
        }
        other => panic!("unexpected {other:?}"),
    }
    match &steps[1] {
        HandOffStep::InstallRuntimeProperties(table) => {
            assert_eq!(table.as_slice(), &[1, 0, 8, 0, 0, 0, 0, 0]);
        }
        other => panic!("unexpected {other:?}"),
    }
    assert!(matches!(&steps[2], HandOffStep::Acknowledge(response) if response == b"OKAY"));
    assert!(matches!(&steps[3], HandOffStep::StartImage));
    assert_eq!(session.payload.unwrap().as_slice(), &image[..]);
}

#[test]
fn boot_of_an_unrecognised_payload_fails() {
    let session = download(connected_session(), b"neither one nor the other");
    let (session, reaction) = send(session, b"boot");
    assert_eq!(reaction.response.unwrap(), b"FAIL");
    assert!(matches!(reaction.next, Next::ReceiveCommand(COMMAND_BUFFER_SIZE)));
    assert!(session.payload.is_some());
}

#[test]
fn boot_of_a_broken_boot_image_reports_the_reason() {
    let session = download(connected_session(), b"ANDROID! but nothing else");
    let (_, reaction) = send(session, b"boot");
    assert_eq!(reaction.response.unwrap(), b"FAILtruncated boot image");
    assert!(matches!(reaction.next, Next::ReceiveCommand(COMMAND_BUFFER_SIZE)));
}

#[test]
fn new_download_replaces_the_old_payload() {
    let session = download(connected_session(), &[1, 2, 3]);
    let session = download(session, &[9, 8]);
    assert_eq!(session.payload.unwrap().as_slice(), &[9, 8]);
}

#[test]
fn download_engine_reports_each_step() {
    let mut engine = Download::begin(6);
    assert_eq!(engine.next_chunk(), 6);
    assert_eq!(engine.on_event(&EfiUsbDeviceEvent::NoEvent), DownloadStep::Wait);
    assert_eq!(engine.on_event(&EfiUsbDeviceEvent::OutData(vec![1, 2])), DownloadStep::Receive(4));
    assert_eq!(engine.on_event(&EfiUsbDeviceEvent::OutData(vec![0; 5])), DownloadStep::Overrun);
    assert_eq!(engine.target.offset(), 2);
    assert_eq!(engine.on_event(&EfiUsbDeviceEvent::OutData(vec![3, 4, 5, 6])), DownloadStep::Complete);
    assert_eq!(engine.into_payload().as_slice(), &[1, 2, 3, 4, 5, 6]);
    let mut engine = Download::begin(6);
    assert_eq!(engine.on_event(&EfiUsbDeviceEvent::Disconnected), DownloadStep::Aborted);
    assert_eq!(engine.on_event(&EfiUsbDeviceEvent::Connected), DownloadStep::Aborted);
    let engine = Download::begin(RECEIVE_CHUNK + 1);
    assert_eq!(engine.next_chunk(), RECEIVE_CHUNK);
    assert_eq!(RECEIVE_CHUNK, 16 * 1024 * 1024);
}

fn session_boot_image(cmdline: &[u8]) -> Vec<u8> {
    let kernel = session_pe_sample();
    let mut image = vec![0u8; 1660];
    image[..8].copy_from_slice(b"ANDROID!");
    image[8..12].copy_from_slice(&(kernel.len() as u32).to_le_bytes());
    image[16..20].copy_from_slice(&5u32.to_le_bytes());
    image[36..40].copy_from_slice(&2048u32.to_le_bytes());
    image[40..44].copy_from_slice(&2u32.to_le_bytes());
    image[64..64 + cmdline.len()].copy_from_slice(cmdline);
    image[1644..1648].copy_from_slice(&1660u32.to_le_bytes());
    image[1648..1652].copy_from_slice(&3u32.to_le_bytes());
    image.resize(2048, 0);
    image.extend_from_slice(&kernel);
    image.resize(4096, 0);
    image.extend_from_slice(&[1, 2, 3, 4, 5]);
    image.resize(6144, 0);
    image.extend_from_slice(&[7, 8, 9]);
    image
}

#[test]
fn boot_of_a_boot_image_hands_off_in_order() {
    let image = session_boot_image(b"console=tty0");
    let session = download(connected_session(), &image);
    let (_, reaction) = send(session, b"boot");
    assert!(reaction.response.is_none());
    let steps = match reaction.next {
        Next::HandOff(steps) => steps,
        other => panic!("unexpected {other:?}"),
    };
    assert_eq!(steps.len(), 7);
    match &steps[0] {
        HandOffStep::InstallDeviceTree(dtb) => {
            assert_eq!(dtb.as_slice(), &[7, 8, 9]);
            assert_eq!(dtb.memory_class(), MemoryClass::AcpiReclaim);
        }
        other => panic!("unexpected {other:?}"),
    }
    match &steps[1] {
        HandOffStep::RegisterRamdisk(initrd) => {
            assert_eq!(initrd.load_file.buffer.as_slice(), &[1, 2, 3, 4, 5]);
            assert_eq!(initrd.load_file.buffer.memory_class(), MemoryClass::BootServicesData);
            assert_eq!(initrd.device_path.len(), 24);
        }
        other => panic!("unexpected {other:?}"),
    }
    match &steps[2] {
        HandOffStep::LoadImage(kernel) => assert_eq!(kernel.as_slice(), &session_pe_sample()[..]),
        other => panic!("unexpected {other:?}"),
    }
    match &steps[3] {
        HandOffStep::AttachLoadOptions(options) => {
            let expected: Vec<u16> = "console=tty0\0".encode_utf16().collect();
            assert_eq!(options.text, expected);
            assert_eq!(options.size, 24);
        }
        other => panic!("unexpected {other:?}"),
    }
    match &steps[4] {
        HandOffStep::InstallRuntimeProperties(table) => {
            assert_eq!(table.as_slice(), &[1, 0, 8, 0, 0, 0, 0, 0]);
            assert_eq!(table.memory_class(), MemoryClass::RuntimeServicesData);
        }
        other => panic!("unexpected {other:?}"),
    }
    assert!(matches!(&steps[5], HandOffStep::Acknowledge(response) if response == b"OKAY"));
    assert!(matches!(&steps[6], HandOffStep::StartImage));
}

#[test]
fn boot_with_a_command_line_beyond_16_bits_fails() {
    let image = session_boot_image("emoji=\u{1f600}".as_bytes());
    let session = download(connected_session(), &image);
    let (_, reaction) = send(session, b"boot");
    assert_eq!(reaction.response.unwrap(), b"FAILinvalid command line");
    assert!(matches!(reaction.next, Next::ReceiveCommand(COMMAND_BUFFER_SIZE)));
}
