//! Stand-in SPI transports serving canned responses.
//!
//! These types let the client be exercised without hardware: the device
//! answers register reads with fixed, correctly checksummed register blocks,
//! and the bus reports a finished conversion on the second poll.
use crate::spi::OutputPin;
use crate::spi::SpiBus;
use crate::spi::SpiDevice;
use vstd::prelude::*;

verus! {

/// Error type of the example transports; no operation ever fails, so no
/// value of it is ever built.
#[derive(Debug)]
pub struct ExampleError {}

/// SPI transport answering register reads with fixed register blocks.
pub struct ExampleSPIDevice {
    /// Second byte of the most recent command frame, selecting the response.
    command: u8,

    /// True while chip select is asserted.
    cs_low: bool,
}

impl Default for ExampleSPIDevice {
    fn default() -> (r: Self)
        ensures
            !r.cs_latched(),
    {
        Self { command: 0, cs_low: false }
    }
}

/// The canned eight byte register block served for a read command: register
/// payloads with their correct checksums, keyed by the command's second byte.
pub open spec fn spec_canned_block(command: u8) -> Seq<u8> {
    match command {
        // Status register group A
        0x10 => seq![0x12u8, 0x62u8, 0xa8u8, 0x62u8, 0x00u8, 0x7du8, 0x31u8, 0x8au8],
        // Status register group B
        0x12 => seq![0x00u8, 0xc8u8, 0x00u8, 0x66u8, 0x00u8, 0x1bu8, 0xf1u8, 0x40u8],
        // Cell voltage register group A
        0x04 => seq![0x93u8, 0x61u8, 0xbbu8, 0x1eu8, 0xaeu8, 0x22u8, 0x9au8, 0x1cu8],
        // Cell voltage register group B
        0x06 => seq![0xddu8, 0x66u8, 0x72u8, 0x1du8, 0xa2u8, 0x1cu8, 0x11u8, 0x94u8],
        // Cell voltage register group C
        0x08 => seq![0x61u8, 0x63u8, 0xbdu8, 0x1eu8, 0xe4u8, 0x22u8, 0x3fu8, 0x42u8],
        // Cell voltage register group E
        0x09 => seq![0xdeu8, 0x64u8, 0x8fu8, 0x21u8, 0x8au8, 0x21u8, 0x8fu8, 0xdau8],
        // Auxiliary voltage register group A
        0x0c => seq![0x93u8, 0x61u8, 0xbbu8, 0x1eu8, 0xaeu8, 0x22u8, 0x9au8, 0x1cu8],
        // Auxiliary voltage register group C
        0x0d => seq![0x61u8, 0x63u8, 0xbdu8, 0x1eu8, 0xe4u8, 0x22u8, 0x3fu8, 0x42u8],
        _ => seq![0x00u8, 0x00u8, 0x00u8, 0x00u8, 0x00u8, 0x00u8, 0x00u8, 0x00u8],
    }
}

/// The canned eight byte register block served for a read command.
fn canned_block(command: u8) -> (r: [u8; 8])
    ensures
        r@ == spec_canned_block(command),
{
    let r: [u8; 8] = match command {
        // Status register group A
        0x10 => [0x12, 0x62, 0xa8, 0x62, 0x00, 0x7d, 0x31, 0x8a],
        // Status register group B
        0x12 => [0x00, 0xc8, 0x00, 0x66, 0x00, 0x1b, 0xf1, 0x40],
        // Cell voltage register group A
        0x04 => [0x93, 0x61, 0xbb, 0x1e, 0xae, 0x22, 0x9a, 0x1c],
        // Cell voltage register group B
        0x06 => [0xdd, 0x66, 0x72, 0x1d, 0xa2, 0x1c, 0x11, 0x94],
        // Cell voltage register group C
        0x08 => [0x61, 0x63, 0xbd, 0x1e, 0xe4, 0x22, 0x3f, 0x42],
        // Cell voltage register group E
        0x09 => [0xde, 0x64, 0x8f, 0x21, 0x8a, 0x21, 0x8f, 0xda],
        // Auxiliary voltage register group A
        0x0c => [0x93, 0x61, 0xbb, 0x1e, 0xae, 0x22, 0x9a, 0x1c],
        // Auxiliary voltage register group C
        0x0d => [0x61, 0x63, 0xbd, 0x1e, 0xe4, 0x22, 0x3f, 0x42],
        _ => [0x0; 8],
    };
    proof {
        assert(r@ =~= spec_canned_block(command));
    }
    r
}

impl ExampleSPIDevice {
    /// The canned response of length `len` for the given command byte: the
    /// fixed register block for eight byte reads, zeroes otherwise.
    pub fn response(command: u8, len: usize) -> (r: Vec<u8>)
        ensures
            r@.len() == len,
            len == 8 ==> r@ == spec_canned_block(command),
    {
        let block = canned_block(command);
        let mut r: Vec<u8> = Vec::new();
        let mut i: usize = 0;
        while i < len
            invariant
                r@.len() == i,
                i <= len,
                len == 8 ==> (forall|j: int| 0 <= j < i ==> r@[j] == block@[j]),
            decreases len - i,
        {
            if len == 8 {
                r.push(block[i]);
            } else {
                r.push(0);
            }
            i = i + 1;
        }
        proof {
            if len == 8 {
                assert(r@ =~= block@);
            }
        }
        r
    }
}

impl SpiDevice for ExampleSPIDevice {
    type Error = ExampleError;

    closed spec fn cs_latched(&self) -> bool {
        self.cs_low
    }

    fn write(&mut self, data: &[u8]) -> (r: Result<(), Self::Error>) {
        if data.len() >= 2 {
            self.command = data[1];
        }
        self.cs_low = true;
        Ok(())
    }

    fn read(&mut self, len: usize) -> (r: Result<Vec<u8>, Self::Error>) {
        self.cs_low = true;
        Ok(Self::response(self.command, len))
    }

    fn release_cs(&mut self) -> (r: Result<(), Self::Error>) {
        self.cs_low = false;
        Ok(())
    }
}

/// Raw SPI bus reporting a finished conversion on the second poll.
pub struct ExampleSPIBus {
    /// Number of single-byte polls served so far.
    poll_count: usize,
}

impl Default for ExampleSPIBus {
    fn default() -> (r: Self) {
        Self { poll_count: 0 }
    }
}

impl SpiBus for ExampleSPIBus {
    type Error = ExampleError;

    fn write(&mut self, data: &[u8]) -> (r: Result<(), Self::Error>) {
        Ok(())
    }

    fn read(&mut self, len: usize) -> (r: Result<Vec<u8>, Self::Error>) {
        let mut data: Vec<u8> = Vec::new();
        if len == 1 {
            if self.poll_count < usize::MAX {
                self.poll_count = self.poll_count + 1;
            }
            if self.poll_count >= 2 {
                data.push(0xff);
            } else {
                data.push(0x00);
            }
            return Ok(data);
        }
        let mut i: usize = 0;
        while i < len
            invariant
                data@.len() == i,
                i <= len,
            decreases len - i,
        {
            data.push(0);
            i = i + 1;
        }
        Ok(data)
    }
}

/// Chip select pin with no effect.
pub struct ExampleCSPin {}

impl OutputPin for ExampleCSPin {
    type Error = ExampleError;

    fn set_low(&mut self) -> (r: Result<(), Self::Error>) {
        Ok(())
    }

    fn set_high(&mut self) -> (r: Result<(), Self::Error>) {
        Ok(())
    }
}

} // verus!
