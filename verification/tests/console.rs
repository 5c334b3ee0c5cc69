use rp_usb_serial::console::{test_log, PollAction, RpUsbConsole, AUTO_ECHO};
use rp_usb_serial::identity::{usb_identity, ChipFamily, RASPBERRY_PI_VID, USB_CLASS_CDC};

/// Runs the transmit half of a poll with an endpoint that accepts every byte
/// and returns the bytes handed to it.
fn drain_tx(c: &mut RpUsbConsole) -> Vec<u8> {
    let mut sent = Vec::new();
    let mut action = c.on_read(None);
    loop {
        match action {
            PollAction::Send(b) => {
                sent.push(b);
                action = c.on_sent(b, true);
            }
            PollAction::Finish => break,
            PollAction::ReadEndpoint => panic!("transmit half asked for a read"),
        }
    }
    sent
}

fn read_all(c: &mut RpUsbConsole) -> Vec<u8> {
    let mut out = Vec::new();
    let mut buf = [0u8; 64];
    loop {
        let n = c.read(&mut buf);
        if n == 0 {
            break;
        }
        out.extend_from_slice(&buf[..n]);
    }
    out
}

#[test]
fn new_console_is_empty() {
    let mut c = RpUsbConsole::init();
    let mut buf = [7u8; 8];
    assert_eq!(c.read(&mut buf), 0);
    assert_eq!(buf, [7u8; 8]);
    assert_eq!(drain_tx(&mut c), Vec::<u8>::new());
}

#[test]
fn write_is_sent_in_order() {
    let mut c = RpUsbConsole::init();
    c.write(&[1, 2, 3]);
    c.write(&[4, 5]);
    assert_eq!(drain_tx(&mut c), vec![1, 2, 3, 4, 5]);
    assert_eq!(drain_tx(&mut c), Vec::<u8>::new());
}

#[test]
fn write_does_not_touch_rx() {
    let mut c = RpUsbConsole::init();
    c.write(b"abc");
    assert_eq!(read_all(&mut c), Vec::<u8>::new());
}

#[test]
fn print_queues_utf8_bytes() {
    let mut c = RpUsbConsole::init();
    c.print("hé");
    assert_eq!(drain_tx(&mut c), vec![b'h', 0xC3, 0xA9]);
}

#[test]
fn println_appends_crlf() {
    let mut c = RpUsbConsole::init();
    c.println("ok");
    assert_eq!(drain_tx(&mut c), b"ok\r\n".to_vec());
}

#[test]
fn println_of_empty_is_crlf() {
    let mut c = RpUsbConsole::init();
    c.println("");
    assert_eq!(drain_tx(&mut c), b"\r\n".to_vec());
}

#[test]
fn received_bytes_are_read_back_in_order() {
    let mut c = RpUsbConsole::init();
    assert_eq!(c.on_read(Some(&[10, 20, 30])), PollAction::ReadEndpoint);
    assert_eq!(c.on_read(Some(&[40])), PollAction::ReadEndpoint);
    let mut buf = [0u8; 8];
    assert_eq!(c.read(&mut buf), 4);
    assert_eq!(buf, [10, 20, 30, 40, 0, 0, 0, 0]);
    assert_eq!(c.read(&mut buf), 0);
}

#[test]
fn received_bytes_are_echoed() {
    assert!(AUTO_ECHO);
    let mut c = RpUsbConsole::init();
    c.pump_rx_echo(b"hi");
    assert_eq!(drain_tx(&mut c), b"hi".to_vec());
    assert_eq!(read_all(&mut c), b"hi".to_vec());
}

#[test]
fn short_buffer_reads_prefix_and_keeps_rest() {
    let mut c = RpUsbConsole::init();
    c.pump_rx_echo(&[1, 2, 3, 4, 5]);
    let mut buf = [9u8; 2];
    assert_eq!(c.read(&mut buf), 2);
    assert_eq!(buf, [1, 2]);
    let mut big = [9u8; 6];
    assert_eq!(c.read(&mut big), 3);
    assert_eq!(big, [3, 4, 5, 9, 9, 9]);
}

#[test]
fn empty_read_ends_receive_half() {
    let mut c = RpUsbConsole::init();
    assert_eq!(c.on_read(Some(&[])), PollAction::Finish);
    c.write(&[8]);
    assert_eq!(c.on_read(Some(&[])), PollAction::Send(8));
    assert_eq!(c.on_sent(8, true), PollAction::Finish);
}

#[test]
fn failed_read_ends_receive_half() {
    let mut c = RpUsbConsole::init();
    c.write(&[3, 4]);
    assert_eq!(c.on_read(None), PollAction::Send(3));
    assert_eq!(c.on_sent(3, true), PollAction::Send(4));
    assert_eq!(c.on_sent(4, true), PollAction::Finish);
}

#[test]
fn refused_byte_moves_to_back() {
    let mut c = RpUsbConsole::init();
    c.write(&[1, 2, 3]);
    assert_eq!(c.on_read(None), PollAction::Send(1));
    assert_eq!(c.on_sent(1, false), PollAction::Finish);
    assert_eq!(drain_tx(&mut c), vec![2, 3, 1]);
}

#[test]
fn unconfigured_device_is_not_serviced() {
    let c = RpUsbConsole::init();
    assert_eq!(c.poll_begin(false), PollAction::Finish);
    assert_eq!(c.poll_begin(true), PollAction::ReadEndpoint);
}

#[test]
fn tx_queue_drops_overflow() {
    let mut c = RpUsbConsole::init();
    let data: Vec<u8> = (0..2000u32).map(|i| (i % 251) as u8).collect();
    c.write(&data);
    let sent = drain_tx(&mut c);
    assert_eq!(sent.len(), 1023);
    assert_eq!(&sent[..], &data[..1023]);
}

#[test]
fn full_tx_queue_ignores_writes() {
    let mut c = RpUsbConsole::init();
    c.write(&[0u8; 1023]);
    c.write(&[5, 6, 7]);
    let sent = drain_tx(&mut c);
    assert_eq!(sent, vec![0u8; 1023]);
}

#[test]
fn rx_queue_drops_overflow() {
    let mut c = RpUsbConsole::init();
    let data: Vec<u8> = (0..1500u32).map(|i| (i % 7) as u8).collect();
    for chunk in data.chunks(64) {
        assert_eq!(c.on_read(Some(chunk)), PollAction::ReadEndpoint);
    }
    let got = read_all(&mut c);
    assert_eq!(got.len(), 1023);
    assert_eq!(&got[..], &data[..1023]);
}

#[test]
fn helper_log_lines() {
    let mut c = RpUsbConsole::init();
    rp_usb_serial::console::test(&mut c);
    let mut expected = "这是在外部函数测试".as_bytes().to_vec();
    expected.extend_from_slice(b"\r\n");
    assert_eq!(drain_tx(&mut c), expected);
    test_log(&mut c);
    assert_eq!(drain_tx(&mut c), expected);
}

#[test]
fn identity_rp2040() {
    let id = usb_identity(ChipFamily::Rp2040);
    assert_eq!(id.vid, 0x2E8A);
    assert_eq!(id.vid, RASPBERRY_PI_VID);
    assert_eq!(id.pid, 0x0003);
    assert_eq!(id.device_class, USB_CLASS_CDC);
    assert_eq!(id.device_class, 2);
    assert_eq!(id.manufacturer, "Raspberry Pi");
    assert_eq!(id.product, "RP2040");
    assert_eq!(id.serial_number, "B8ED93AE");
}

#[test]
fn identity_rp2350() {
    let id = usb_identity(ChipFamily::Rp2350);
    assert_eq!(id.vid, 0x2E8A);
    assert_eq!(id.pid, 0x10B0);
    assert_eq!(id.manufacturer, "Raspberry Pi");
    assert_eq!(id.product, "RP2350");
    assert_eq!(id.serial_number, "A74D15D8");
}
