use qgb::io::IoHandler;
use qgb::io::JoypadButton;

#[test]
fn serial_transfer() {
    let mut io = IoHandler::new();
    io.write(0xFF01, 0xAB);
    assert_eq!(io.sb, 0xAB);
    io.write(0xFF02, 0x81);
    io.tick(4);

    assert_eq!(io.sent_bytes.len(), 1);
    assert_eq!(io.sent_bytes[0], 0xAB);
    assert_eq!(io.sc, 0x01);
    assert_eq!(io.sb, 0);
}

#[test]
fn joypad() {
    let mut io = IoHandler::new();
    io.button_pressed(JoypadButton::A);
    io.button_pressed(JoypadButton::Down);

    io.write(0xFF00, 0b0001_0000);
    assert_eq!(io.read(0xFF00), 0b0001_1110);

    io.write(0xFF00, 0b0010_0000);
    assert_eq!(io.read(0xFF00), 0b0010_0111);
}

#[test]
fn transmitted_bytes_ascii_reads_back() {
    let mut io = IoHandler::new();
    io.write(0xFF01, b'o');
    io.write(0xFF02, 0x81);
    io.tick(4);
    io.write(0xFF01, b'k');
    io.write(0xFF02, 0x81);
    io.tick(4);

    let state = qgb::state::IoState { transmitted_bytes: io.sent_bytes.clone() };
    assert_eq!(state.transmitted_bytes_ascii(), "ok");
}
