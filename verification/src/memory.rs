use vstd::prelude::*;
use byteorder::{BigEndian, ReadBytesExt};
use crate::error::ImageError;
use crate::keyboard::{Keyboard, KeyboardState};
use crate::registers::{MemoryMappedReg, KBDR, KBSR};
use crate::utils::handle_keyboard;

verus! {

/// The number of cells in memory: one for each sixteen-bit address.
pub const MEMORY_SIZE: usize = 0x10000;

/// The status word that says a key waits in the data register.
pub const KEY_READY: u16 = 0x8000;

/// What a memory holds, as plain values.
pub struct MemoryState {
    /// The content of each cell, by address.
    pub cells: Seq<u16>,
    /// The keyboard behind the two device registers.
    pub keyboard: KeyboardState,
}

impl MemoryState {
    /// A memory of zeros with an idle keyboard.
    pub open spec fn blank() -> MemoryState {
        MemoryState {
            cells: Seq::new(MEMORY_SIZE as nat, |i: int| 0u16),
            keyboard: KeyboardState::idle(),
        }
    }

    /// Every address has its cell.
    pub open spec fn well_formed(self) -> bool {
        self.cells.len() == MEMORY_SIZE
    }

    /// The memory after the keyboard was polled: where a key waits, it is
    /// taken, the status cell says so and the data cell holds the key;
    /// otherwise the status cell is cleared.
    pub open spec fn poll(self) -> MemoryState {
        match self.keyboard.front() {
            Some(key) => MemoryState {
                cells: self.cells.update(KBSR as int, KEY_READY).update(KBDR as int, key as u16),
                keyboard: self.keyboard.take(),
            },
            None => MemoryState {
                cells: self.cells.update(KBSR as int, 0),
                keyboard: self.keyboard.take(),
            },
        }
    }

    /// The memory after a read of `addr`: a read of the keyboard status
    /// address polls the keyboard first, any other read changes nothing.
    pub open spec fn after_read(self, addr: u16) -> MemoryState {
        if addr == KBSR {
            self.poll()
        } else {
            self
        }
    }

    /// The word that a read of `addr` returns.
    pub open spec fn read(self, addr: u16) -> u16 {
        self.after_read(addr).cells[addr as int]
    }

    /// The memory after `data` was written to `addr`.
    pub open spec fn write(self, addr: u16, data: u16) -> MemoryState {
        MemoryState { cells: self.cells.update(addr as int, data), keyboard: self.keyboard }
    }

    /// The memory after one more key was pressed.
    pub open spec fn press(self, key: u8) -> MemoryState {
        MemoryState { cells: self.cells, keyboard: self.keyboard.press(key) }
    }
}

/// The memory of the machine: 65536 cells of sixteen bits, and the keyboard
/// that shows through two of its addresses.
pub struct Memory {
    pub memory: [u16; MEMORY_SIZE],
    pub keyboard: Keyboard,
}

impl View for Memory {
    type V = MemoryState;

    open spec fn view(&self) -> MemoryState {
        MemoryState { cells: self.memory@, keyboard: self.keyboard@ }
    }
}

impl Default for Memory {
    fn default() -> (memory: Self)
        ensures
            memory@ == MemoryState::blank(),
    {
        let memory = Memory { memory: [0u16;MEMORY_SIZE], keyboard: Keyboard::new() };
        assert(memory@.cells =~= MemoryState::blank().cells);
        memory
    }
}

impl Memory {
    /// Reads the cell at `addr`. A read of the keyboard status address first
    /// polls the keyboard: where a key waits, it is taken, the status cell is
    /// set to `KEY_READY` and the data cell to the key; where none waits, the
    /// status cell is cleared.
    pub fn read(&mut self, addr: u16) -> (data: u16)
        ensures
            final(self)@ == old(self)@.after_read(addr),
            data == old(self)@.read(addr),
            final(self)@.well_formed(),
    {
        if addr == MemoryMappedReg::Kbsr.address() {
            handle_keyboard(self);
        }
        self.memory[addr as usize]
    }

    /// Writes `data` to the cell at `addr` and leaves every other cell, and
    /// the keyboard, as they were.
    pub fn write(&mut self, addr: u16, data: u16)
        ensures
            final(self)@ == old(self)@.write(addr, data),
            final(self)@.well_formed(),
    {
        self.memory[addr as usize] = data;
    }

    /// Records one key press on the keyboard.
    pub fn press(&mut self, key: u8)
        ensures
            final(self)@ == old(self)@.press(key),
    {
        self.keyboard.press(key);
    }
}

/// The word whose high byte is `high` and whose low byte is `low`.
pub open spec fn big_endian(high: u8, low: u8) -> u16 {
    (high * 256 + low) as u16
}

/// The address at which an image asks to be loaded: its first word.
pub open spec fn image_origin(image: Seq<u8>) -> u16
    recommends
        image.len() >= 2,
{
    big_endian(image[0], image[1])
}

/// The number of complete words that follow the load address.
pub open spec fn image_length(image: Seq<u8>) -> int
    recommends
        image.len() >= 2,
{
    (image.len() - 2) / 2
}

/// The `k`-th word that follows the load address.
pub open spec fn image_word(image: Seq<u8>, k: int) -> u16
    recommends
        0 <= k < image_length(image),
{
    big_endian(image[2 * k + 2], image[2 * k + 3])
}

/// What is wrong with an image, if anything. An image is too large where one
/// of its words belongs past the last cell of memory; one whose last word
/// belongs in the last cell fits. The words are judged in the order in which
/// they are loaded: an image that runs off the end of memory is too large
/// whether or not a stray byte follows its last word.
pub open spec fn image_error(image: Seq<u8>) -> Option<ImageError> {
    if image.len() < 2 {
        Some(ImageError::MissingOrigin)
    } else if image_origin(image) + image_length(image) > MEMORY_SIZE {
        Some(ImageError::TooLarge)
    } else if image.len() % 2 == 1 {
        Some(ImageError::TruncatedWord)
    } else {
        None
    }
}

/// The memory that holds the first `count` words of an image at their
/// addresses, zero everywhere else, and an idle keyboard.
pub open spec fn image_prefix_loaded(image: Seq<u8>, count: int) -> MemoryState {
    MemoryState {
        cells: Seq::new(
            MEMORY_SIZE as nat,
            |addr: int|
                if image_origin(image) <= addr < image_origin(image) + count {
                    image_word(image, addr - image_origin(image))
                } else {
                    0u16
                },
        ),
        keyboard: KeyboardState::idle(),
    }
}

/// The memory that holds the words of an image at consecutive addresses from
/// its load address on.
pub open spec fn image_loaded(image: Seq<u8>) -> MemoryState {
    image_prefix_loaded(image, image_length(image))
}

/// Reads one big-endian word at offset `at` of `image` with
/// `byteorder::ReadBytesExt::read_u16::<BigEndian>`, applied to the rest of
/// the slice as a reader. That function fills a two-byte buffer with
/// `read_exact`, which fails on a slice shorter than the buffer, and hands
/// the buffer to `BigEndian::read_u16`, which is `u16::from_be_bytes`: the
/// first byte is the high one. The error of a short read carries nothing
/// that the caller uses and becomes `None`.
#[verifier::external_body]
fn read_word(image: &[u8], at: usize) -> (word: Option<u16>)
    requires
        at <= image@.len(),
    ensures
        at + 2 <= image@.len() ==> word == Some(
            big_endian(image@[at as int], image@[at as int + 1]),
        ),
        at + 2 > image@.len() ==> word is None,
{
    let mut rest: &[u8] = &image[at..];
    rest.read_u16::<BigEndian>().ok()
}

impl Memory {
    /// Loads a program image: a sequence of big-endian sixteen-bit words, the
    /// first of which is the address at which the others are written, one
    /// after the other. The rest of memory is zero.
    pub fn from_image(image: &[u8]) -> (loaded: Result<Memory, ImageError>)
        ensures
            match loaded {
                Ok(memory) => image_error(image@) is None && memory@ == image_loaded(image@),
                Err(error) => image_error(image@) == Some(error),
            },
    {
        let mut memory = Memory::default();
        let origin = match read_word(image, 0) {
            Some(word) => word,
            None => {
                return Err(ImageError::MissingOrigin);
            },
        };
        // The address of the next word, while there is one.
        let mut next: Option<u16> = Some(origin);
        let mut at: usize = 2;
        assert(memory@.cells =~= image_prefix_loaded(image@, 0).cells);
        loop
            invariant
                2 <= at <= image@.len(),
                at % 2 == 0,
                origin == image_origin(image@),
                origin + (at - 2) / 2 <= MEMORY_SIZE,
                next == if origin + (at - 2) / 2 < MEMORY_SIZE {
                    Some((origin + (at - 2) / 2) as u16)
                } else {
                    None::<u16>
                },
                memory@ == image_prefix_loaded(image@, (at - 2) / 2),
            ensures
                at + 2 > image@.len(),
            decreases image@.len() - at,
        {
            match read_word(image, at) {
                Some(bits) => {
                    let ghost count = (at - 2) / 2;
                    assert(bits == image_word(image@, count));
                    let addr = match next {
                        Some(addr) => addr,
                        None => {
                            return Err(ImageError::TooLarge);
                        },
                    };
                    memory.write(addr, bits);
                    assert(memory@.cells =~= image_prefix_loaded(image@, count + 1).cells);
                    next = addr.checked_add(1);
                    at = at + 2;
                },
                None => {
                    break;
                },
            }
        }
        if at < image.len() {
            Err(ImageError::TruncatedWord)
        } else {
            Ok(memory)
        }
    }
}


/// An image that fits is loaded as it stands: where the image holds its load
/// address and then `count` whole words, the last of which belongs in the
/// last cell of memory or before it, nothing is wrong with it, each of its
/// words stands at its address, and every other cell is zero.
pub proof fn lemma_image_that_fits_loads(image: Seq<u8>, count: int)
    requires
        count >= 0,
        image.len() == 2 + 2 * count,
        image_origin(image) + count <= MEMORY_SIZE,
    ensures
        image_error(image) is None,
        image_loaded(image).well_formed(),
        forall|i: int|
            0 <= i < count ==> #[trigger] image_loaded(image).cells[image_origin(image) + i]
                == image_word(image, i),
        forall|addr: int|
            0 <= addr < MEMORY_SIZE && !(image_origin(image) <= addr < image_origin(image) + count)
                ==> #[trigger] image_loaded(image).cells[addr] == 0,
{
}

impl MemoryState {
    /// A cell that is no device register holds what was last written to it:
    /// a read of it returns that word, and neither that read nor a read of
    /// any other address changes it. Only a read of the keyboard status
    /// address changes cells, and only the two device registers.
    pub proof fn lemma_cells_hold_what_was_written(self, addr: u16, data: u16, other: u16)
        requires
            self.well_formed(),
            addr != KBSR,
            addr != KBDR,
        ensures
            self.write(addr, data).read(addr) == data,
            self.write(addr, data).after_read(other).cells[addr as int] == data,
            other != KBSR ==> self.after_read(other) == self,
            self.after_read(other).well_formed(),
    {
    }

    /// A read of the keyboard status address returns `KEY_READY` where a key
    /// waits, and the data register then reads as that key; where no key
    /// waits, the status address reads as zero.
    pub proof fn lemma_keyboard_poll(self)
        requires
            self.well_formed(),
        ensures
            match self.keyboard.front() {
                Some(key) => {
                    &&& self.read(KBSR) == KEY_READY
                    &&& self.after_read(KBSR).read(KBDR) == key
                    &&& self.after_read(KBSR).keyboard.pending == self.keyboard.pending.drop_first()
                },
                None => self.read(KBSR) == 0,
            },
    {
    }
}

} // verus!
