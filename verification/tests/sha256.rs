use ti84_periph::sha256::Sha256Controller;

const IV: [u32; 8] = [
    0x6a09e667, 0xbb67ae85, 0x3c6ef372, 0xa54ff53a, 0x510e527f, 0x9b05688c, 0x1f83d9ab,
    0x5be0cd19,
];

#[test]
fn sha256_test_new() {
    let sha = Sha256Controller::new();
    assert_eq!(sha.state(), IV);
    assert_eq!(sha.block(), [0; 16]);
}

#[test]
fn test_reset() {
    let mut sha = Sha256Controller::new();
    // Dirty the block and the state through the register file.
    sha.write(0x10, 0x78);
    sha.write(0x11, 0x56);
    sha.write(0x12, 0x34);
    sha.write(0x13, 0x12);
    sha.write(0x00, 0x10); // Clear the state away from the IV.
    sha.reset();
    assert_eq!(sha.state(), IV);
    assert_eq!(sha.block(), [0; 16]);
}

#[test]
fn test_read_state() {
    let sha = Sha256Controller::new();
    // state[7] at 0x0C should be 0x5be0cd19
    assert_eq!(sha.read(0x0C), 0x19);
    assert_eq!(sha.read(0x0D), 0xcd);
    assert_eq!(sha.read(0x0E), 0xe0);
    assert_eq!(sha.read(0x0F), 0x5b);
}

#[test]
fn test_write_block() {
    let mut sha = Sha256Controller::new();
    // Write to block[0] at 0x10
    sha.write(0x10, 0x78);
    sha.write(0x11, 0x56);
    sha.write(0x12, 0x34);
    sha.write(0x13, 0x12);
    assert_eq!(sha.block()[0], 0x12345678);
}

#[test]
fn test_control_initialize() {
    let mut sha = Sha256Controller::new();
    sha.write(0x00, 0x10); // Zero the state first.
    // Write 0x0A to control to initialize
    sha.write(0x00, 0x0A);
    assert_eq!(sha.state(), IV);
}

#[test]
fn test_control_clear() {
    let mut sha = Sha256Controller::new();
    // Write 0x10 to control to clear state
    sha.write(0x00, 0x10);
    assert_eq!(sha.state(), [0; 8]);
}

#[test]
fn sha_state_window_writes_ignored() {
    let mut sha = Sha256Controller::new();
    sha.write(0x60, 0xAA);
    sha.write(0x6C, 0xBB);
    sha.write(0x7F, 0xFF);
    assert_eq!(sha.state(), IV);
    assert_eq!(sha.block(), [0; 16]);
    // state[0] = 0x6a09e667: its lowest byte reads back unchanged.
    assert_eq!(sha.read(0x60), 0x67);
}

#[test]
fn sha_iv_reload_after_clear() {
    let mut sha = Sha256Controller::new();
    sha.write(0x00, 0x10); // Zero the state.
    assert_eq!(sha.read(0x7C), 0x00);
    sha.write(0x00, 0x0A); // Reload the IV.
    // state[7] little-endian = 0x5be0cd19, read through the state window.
    assert_eq!(sha.read(0x7C), 0x19);
    assert_eq!(sha.read(0x7D), 0xcd);
    assert_eq!(sha.read(0x7E), 0xe0);
    assert_eq!(sha.read(0x7F), 0x5b);
    // The quick-read alias agrees.
    assert_eq!(sha.read(0x0C), 0x19);
}

#[test]
fn sha_control_value_0x0b_also_initializes() {
    let mut sha = Sha256Controller::new();
    sha.write(0x00, 0x10);
    assert_eq!(sha.state(), [0; 8]);
    sha.write(0x00, 0x0B); // Bits 3..1 = 0b101 as well.
    assert_eq!(sha.state(), IV);
}

#[test]
fn sha_control_other_patterns_are_noops() {
    let mut sha = Sha256Controller::new();
    sha.write(0x00, 0x01);
    sha.write(0x00, 0x04);
    sha.write(0x00, 0x0E);
    assert_eq!(sha.state(), IV);
    assert_eq!(sha.block(), [0; 16]);
}

#[test]
fn sha_block_reads_back() {
    let mut sha = Sha256Controller::new();
    sha.write(0x4F, 0xAB); // Highest byte of block[15].
    assert_eq!(sha.read(0x4F), 0xAB);
    assert_eq!(sha.block()[15], 0xAB00_0000);
    sha.write(0x10, 0x5C);
    assert_eq!(sha.read(0x10), 0x5C);
}

#[test]
fn sha_unmapped_reads_return_zero() {
    let sha = Sha256Controller::new();
    assert_eq!(sha.read(0x08), 0); // Below the quick-read word.
    assert_eq!(sha.read(0x50), 0); // Between block and state.
    assert_eq!(sha.read(0x80), 0); // Past the state window.
}
