//! A program image, cut to the size of program memory.

use vstd::prelude::*;

verus! {

/// The bytes of a program as they fill program memory: the program itself,
/// cut after 3584 bytes, and zero behind it.
pub open spec fn rom_image(bytes: Seq<u8>) -> Seq<u8> {
    Seq::new(3584, |k: int| if k < bytes.len() { bytes[k] } else { 0u8 })
}

/// A program image ready to be loaded into the machine.
pub struct RomReader {
    /// The image: the program's bytes, zero behind them.
    pub data: [u8; 3584],
    /// The number of bytes of the image that come from the program.
    pub size: usize,
}

impl RomReader {
    /// The image of the program `bytes`: what lies past 3584 bytes is dropped.
    pub fn from_bytes(bytes: &[u8]) -> (rom: RomReader)
        ensures
            rom.data@ == rom_image(bytes@),
            rom.size == (if bytes@.len() < 3584 { bytes@.len() } else { 3584 }),
    {
        let mut buffer = [0u8; 3584];
        let mut k: usize = 0;
        while k < bytes.len() && k < 3584
            invariant
                k <= 3584,
                k <= bytes.len(),
                forall|a: int| 0 <= a < k ==> buffer[a] == bytes@[a],
                forall|a: int| k <= a < 3584 ==> buffer[a] == 0,
            decreases 3584 - k,
        {
            buffer[k] = bytes[k];
            k += 1;
        }
        proof {
            assert(buffer@ =~= rom_image(bytes@));
        }
        RomReader { data: buffer, size: k }
    }
}

} // verus!
