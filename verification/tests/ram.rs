use gameboy::ram::Ram;

#[test]
fn test_ram_rw() {
    const RAM_SIZE: u16 = 8 * 1024;
    let mut ram = Ram::new(RAM_SIZE);
    for i in 0..RAM_SIZE {
        ram.write(i, i as u8).unwrap();
        let val = ram.read(i).unwrap();
        assert_eq!(val, i as u8);
    }
}

#[test]
fn ram_starts_zeroed_with_its_size() {
    let ram = Ram::new(127);
    assert_eq!(ram.size(), 127);
    for i in 0..127u16 {
        assert_eq!(ram.read(i).unwrap(), 0);
    }
}
