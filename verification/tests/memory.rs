use lc3_vm::error::ImageError;
use lc3_vm::memory::{Memory, MEMORY_SIZE};
use lc3_vm::registers::{MemoryMappedReg, KBDR, KBSR};

#[test]
fn test_default_memory() {
    let memory = Memory::default();

    assert_eq!(memory.memory.len(), MEMORY_SIZE);
}

#[test]
fn test_read_memory() {
    let mut memory = Memory::default();

    memory.memory[0x3000] = 0xABCD;

    assert_eq!(memory.read(0x3000), 0xABCD);
}

#[test]
fn test_write_memory() {
    let mut memory = Memory::default();

    memory.write(0x3000, 0xABCD);

    assert_eq!(memory.read(0x3000), 0xABCD);
}

#[test]
fn test_index_last_memory_block() {
    let mut memory = Memory::default();

    assert_eq!(memory.read(0xffff), 0);
}

#[test]
fn default_memory_is_zero_everywhere() {
    let memory = Memory::default();
    assert!(memory.memory.iter().all(|cell| *cell == 0));
    assert_eq!(memory.keyboard.pending(), 0);
    assert!(!memory.keyboard.is_starved());
}

#[test]
fn device_addresses() {
    assert_eq!(MemoryMappedReg::Kbsr.address(), 0xFE00);
    assert_eq!(MemoryMappedReg::Kbdr.address(), 0xFE02);
    assert_eq!(KBSR, 0xFE00);
    assert_eq!(KBDR, 0xFE02);
}

#[test]
fn keyboard_poll_with_a_key_waiting() {
    let mut memory = Memory::default();
    memory.press(0x41);

    assert_eq!(memory.read(KBSR), 1 << 15);
    assert_eq!(memory.read(KBDR), 0x41);
    assert_eq!(memory.keyboard.pending(), 0);
}

#[test]
fn keyboard_poll_without_a_key() {
    let mut memory = Memory::default();
    memory.write(KBSR, 0x1234);

    assert_eq!(memory.read(KBSR), 0);
    assert!(memory.keyboard.is_starved());
    memory.press(b'x');
    assert!(!memory.keyboard.is_starved());
}

#[test]
fn keyboard_poll_takes_keys_in_order() {
    let mut memory = Memory::default();
    memory.press(b'a');
    memory.press(b'b');

    assert_eq!(memory.read(KBSR), 0x8000);
    assert_eq!(memory.read(KBDR), b'a' as u16);
    // the data register is read without a poll
    assert_eq!(memory.read(KBDR), b'a' as u16);
    assert_eq!(memory.read(KBSR), 0x8000);
    assert_eq!(memory.read(KBDR), b'b' as u16);
    assert_eq!(memory.read(KBSR), 0);
    assert_eq!(memory.read(KBDR), b'b' as u16);
}

#[test]
fn image_is_loaded_at_its_origin_in_big_endian() {
    let image = [0x30, 0x00, 0x12, 0x34, 0xAB, 0xCD];
    let mut memory = Memory::from_image(&image).unwrap();
    assert_eq!(memory.read(0x3000), 0x1234);
    assert_eq!(memory.read(0x3001), 0xABCD);
    assert_eq!(memory.read(0x3002), 0);
    assert_eq!(memory.read(0x2FFF), 0);
}

#[test]
fn image_with_only_an_origin_is_empty() {
    let memory = Memory::from_image(&[0x30, 0x00]).unwrap();
    assert!(memory.memory.iter().all(|cell| *cell == 0));
}

#[test]
fn image_without_origin_is_refused() {
    assert_eq!(Memory::from_image(&[]).err(), Some(ImageError::MissingOrigin));
    assert_eq!(Memory::from_image(&[0x30]).err(), Some(ImageError::MissingOrigin));
}

#[test]
fn image_that_ends_inside_a_word_is_refused() {
    let image = [0x30, 0x00, 0x12, 0x34, 0xAB];
    assert_eq!(Memory::from_image(&image).err(), Some(ImageError::TruncatedWord));
}

#[test]
fn image_that_runs_off_memory_is_refused() {
    // two words from 0xFFFF on
    let image = [0xFF, 0xFF, 0x00, 0x01, 0x00, 0x02];
    assert_eq!(Memory::from_image(&image).err(), Some(ImageError::TooLarge));
    // one word at the last address fits
    let image = [0xFF, 0xFF, 0x00, 0x01];
    let mut memory = Memory::from_image(&image).unwrap();
    assert_eq!(memory.read(0xFFFF), 1);
    assert_eq!(memory.read(0x0000), 0);
    // one word at the last address but one
    let image = [0xFF, 0xFE, 0x00, 0x01];
    let mut memory = Memory::from_image(&image).unwrap();
    assert_eq!(memory.read(0xFFFE), 1);
    // a stray byte after an image that runs off memory changes nothing
    let image = [0xFF, 0xFF, 0x00, 0x01, 0x00, 0x02, 0x00];
    assert_eq!(Memory::from_image(&image).err(), Some(ImageError::TooLarge));
    // a stray byte after an image that ends on the last cell
    let image = [0xFF, 0xFF, 0x00, 0x01, 0x00];
    assert_eq!(Memory::from_image(&image).err(), Some(ImageError::TruncatedWord));
}

#[test]
fn image_may_fill_memory_to_its_last_cell() {
    // three words from 0xFFFD on
    let image = [0xFF, 0xFD, 0x00, 0x0A, 0x00, 0x0B, 0x00, 0x0C];
    let mut memory = Memory::from_image(&image).unwrap();
    assert_eq!(memory.read(0xFFFC), 0);
    assert_eq!(memory.read(0xFFFD), 0x0A);
    assert_eq!(memory.read(0xFFFE), 0x0B);
    assert_eq!(memory.read(0xFFFF), 0x0C);
    assert_eq!(memory.read(0x0000), 0);

    // the whole of memory, from address zero on
    let mut image = vec![0x00, 0x00];
    for addr in 0..0x10000u32 {
        image.push((addr >> 8) as u8);
        image.push((addr & 0xFF) as u8);
    }
    let memory = Memory::from_image(&image).unwrap();
    for addr in 0..0x10000usize {
        assert_eq!(memory.memory[addr], addr as u16);
    }

    // one word more does not fit
    image.push(0x12);
    image.push(0x34);
    assert_eq!(Memory::from_image(&image).err(), Some(ImageError::TooLarge));
}

#[test]
fn image_error_messages() {
    assert_eq!(ImageError::MissingOrigin.message(), "error reading base address");
    assert_eq!(ImageError::TruncatedWord.message(), "image ends inside a word");
    assert_eq!(ImageError::TooLarge.message(), "file too large");
}

#[test]
fn keyboard_dismiss_clears_the_starved_mark_and_keeps_the_keys() {
    let mut memory = Memory::default();
    assert_eq!(memory.read(KBSR), 0);
    assert!(memory.keyboard.is_starved());
    memory.keyboard.dismiss();
    assert!(!memory.keyboard.is_starved());
    // nothing was pressed: the next poll finds nothing again
    assert_eq!(memory.read(KBSR), 0);
    assert!(memory.keyboard.is_starved());

    memory.press(b'a');
    memory.keyboard.dismiss();
    assert_eq!(memory.keyboard.pending(), 1);
    assert_eq!(memory.read(KBSR), 0x8000);
    assert_eq!(memory.read(KBDR), b'a' as u16);
}
