//! Latching SPI transport.
//!
//! The ADC-ready polling technique of the LTC681X requires chip select to
//! stay asserted across an unbounded number of read attempts, which rules out
//! an "assert, transact, release" discipline per primitive. The traits here
//! therefore expose an explicitly latched chip select: every operation
//! asserts chip select if it is released, leaves it asserted afterwards, and
//! only an explicit release call ends the transaction.
//!
//! [`SpiBus`] and [`OutputPin`] are the raw hardware interfaces that users of
//! the crate implement for their platform. [`LatchingSpiDevice`] combines the
//! two into a [`SpiDevice`], the transport the monitor client drives.
use vstd::prelude::*;

verus! {

/// Raw SPI bus. Chip select is handled outside of this trait.
///
/// Implementations are supplied by the user of the crate; nothing is assumed
/// about the bytes a bus returns, only that a successful read hands back as
/// many bytes as were requested.
pub trait SpiBus {
    type Error;

    /// Clocks the given bytes out.
    fn write(&mut self, data: &[u8]) -> Result<(), Self::Error>;

    /// Clocks `len` bytes in.
    fn read(&mut self, len: usize) -> (r: Result<Vec<u8>, Self::Error>)
        ensures
            r matches Ok(data) ==> data@.len() == len,
    ;
}

/// Chip select output pin, active low.
///
/// Implementations are supplied by the user of the crate.
pub trait OutputPin {
    type Error;

    /// Drives the pin low, asserting chip select.
    fn set_low(&mut self) -> Result<(), Self::Error>;

    /// Drives the pin high, releasing chip select.
    fn set_high(&mut self) -> Result<(), Self::Error>;
}

/// Errors of the latching transport.
#[derive(Debug)]
pub enum Error<BE, PE> {
    /// Error while transferring SPI data.
    BusError(BE),
    /// Error while changing the chip select pin state.
    CSError(PE),
}

/// SPI transport with a latched chip select.
///
/// Every operation leaves chip select asserted; [`SpiDevice::release_cs`]
/// releases it. The ghost state [`SpiDevice::cs_latched`] tracks whether chip
/// select is currently asserted, so that callers can reason about the poll
/// discipline: a sequence of operations never toggles chip select, and a
/// release ends with it high.
pub trait SpiDevice {
    type Error;

    /// True while chip select is asserted (low).
    spec fn cs_latched(&self) -> bool;

    /// Clocks the given bytes out, leaving chip select asserted.
    fn write(&mut self, data: &[u8]) -> (r: Result<(), Self::Error>)
        ensures
            r is Ok ==> final(self).cs_latched(),
    ;

    /// Clocks `len` bytes in, leaving chip select asserted.
    fn read(&mut self, len: usize) -> (r: Result<Vec<u8>, Self::Error>)
        ensures
            r matches Ok(data) ==> data@.len() == len,
            r is Ok ==> final(self).cs_latched(),
    ;

    /// Releases chip select by setting the pin high again.
    /// Usually this is done when the device's operation is finished.
    fn release_cs(&mut self) -> (r: Result<(), Self::Error>)
        ensures
            r is Ok ==> !final(self).cs_latched(),
    ;
}

/// Wraps a raw SPI bus and a chip select pin into a latching [`SpiDevice`].
///
/// The chip select pin is driven low on the first operation of a transaction
/// and stays low until [`SpiDevice::release_cs`]; the cached state avoids
/// repeated pin writes while polling. On a bus failure mid-transaction the
/// pin is forced high best-effort before the error is surfaced, so the bus is
/// never left wedged.
pub struct LatchingSpiDevice<B, CS> {
    /// Raw SPI bus.
    bus: B,

    /// Chip select pin.
    cs: CS,

    /// True while the chip select pin is held low.
    cs_low: bool,
}

impl<B: SpiBus, CS: OutputPin> LatchingSpiDevice<B, CS> {
    /// Creates a transport over the given bus and chip select pin, with chip
    /// select released.
    pub fn new(bus: B, cs: CS) -> (r: Self)
        ensures
            !r.cs_latched(),
    {
        Self { bus, cs, cs_low: false }
    }

    /// Asserts chip select if it is not asserted yet.
    fn latch_cs(&mut self) -> (r: Result<(), Error<B::Error, CS::Error>>)
        ensures
            r is Ok ==> final(self).cs_low,
            r matches Err(e) ==> e is CSError && final(self).cs_low == old(self).cs_low,
    {
        if !self.cs_low {
            match self.cs.set_low() {
                Ok(()) => {},
                Err(e) => {
                    return Err(Error::CSError(e));
                },
            }
            self.cs_low = true;
        }
        Ok(())
    }

    /// Forces chip select high best-effort after a failed bus operation.
    fn force_release(&mut self)
        ensures
            !final(self).cs_low,
    {
        let _ = self.cs.set_high();
        self.cs_low = false;
    }
}

impl<B: SpiBus, CS: OutputPin> SpiDevice for LatchingSpiDevice<B, CS> {
    type Error = Error<B::Error, CS::Error>;

    closed spec fn cs_latched(&self) -> bool {
        self.cs_low
    }

    fn write(&mut self, data: &[u8]) -> (r: Result<(), Self::Error>)
        ensures
            r matches Err(e) ==> (e is BusError ==> !final(self).cs_latched()),
            r matches Err(e) ==> (e is CSError ==> final(self).cs_latched() == old(
                self,
            ).cs_latched()),
    {
        self.latch_cs()?;
        match self.bus.write(data) {
            Ok(()) => Ok(()),
            Err(e) => {
                self.force_release();
                Err(Error::BusError(e))
            },
        }
    }

    fn read(&mut self, len: usize) -> (r: Result<Vec<u8>, Self::Error>)
        ensures
            r matches Err(e) ==> (e is BusError ==> !final(self).cs_latched()),
            r matches Err(e) ==> (e is CSError ==> final(self).cs_latched() == old(
                self,
            ).cs_latched()),
    {
        self.latch_cs()?;
        match self.bus.read(len) {
            Ok(data) => Ok(data),
            Err(e) => {
                self.force_release();
                Err(Error::BusError(e))
            },
        }
    }

    fn release_cs(&mut self) -> (r: Result<(), Self::Error>)
        ensures
            r matches Err(e) ==> e is CSError && final(self).cs_latched() == old(
                self,
            ).cs_latched(),
    {
        match self.cs.set_high() {
            Ok(()) => {},
            Err(e) => {
                return Err(Error::CSError(e));
            },
        }
        self.cs_low = false;
        Ok(())
    }
}

} // verus!
