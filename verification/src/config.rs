//! Device configuration registers.
//!
//! Instead of writing raw bytes to the two configuration register groups, the
//! client offers an abstracted [`Configuration`] value holding the computed
//! images of register group A and register group B. Every mutator states in
//! its contract exactly which byte of the twelve byte image changes and how.
//!
//! The view of a [`Configuration`] is the twelve byte sequence: bytes 0 to 5
//! are register group A, bytes 6 to 11 are register group B.
use vstd::prelude::*;

verus! {

/// Default image of configuration register group A: all GPIO pull-downs
/// disabled, everything else cleared.
pub open spec fn spec_default_register_a() -> Seq<u8> {
    seq![0xf8u8, 0x00u8, 0x00u8, 0x00u8, 0x00u8, 0x00u8]
}

/// Default image of configuration register group B: pull-downs of GPIO 6 to 9
/// disabled, everything else cleared.
pub open spec fn spec_default_register_b() -> Seq<u8> {
    seq![0x0fu8, 0x00u8, 0x00u8, 0x00u8, 0x00u8, 0x00u8]
}

/// Abstracted contents of the two configuration register groups.
#[derive(Debug, Clone)]
pub struct Configuration {
    /// Computed image of register group A.
    pub register_a: [u8; 6],

    /// Computed image of register group B.
    pub register_b: [u8; 6],
}

impl View for Configuration {
    type V = Seq<u8>;

    open spec fn view(&self) -> Seq<u8> {
        self.register_a@ + self.register_b@
    }
}

impl Default for Configuration {
    fn default() -> (r: Self)
        ensures
            r@ == spec_default_register_a() + spec_default_register_b(),
    {
        let r = Self { register_a: [0xf8, 0x00, 0x00, 0x00, 0x00, 0x00], register_b: [
            0x0f,
            0x00,
            0x00,
            0x00,
            0x00,
            0x00,
        ] };
        proof {
            assert(r.register_a@ =~= spec_default_register_a());
            assert(r.register_b@ =~= spec_default_register_b());
            assert(r@ =~= spec_default_register_a() + spec_default_register_b());
        }
        r
    }
}

impl PartialEq for Configuration {
    fn eq(&self, other: &Self) -> (r: bool) {
        let r = self.register_a[0] == other.register_a[0] && self.register_a[1]
            == other.register_a[1] && self.register_a[2] == other.register_a[2]
            && self.register_a[3] == other.register_a[3] && self.register_a[4]
            == other.register_a[4] && self.register_a[5] == other.register_a[5]
            && self.register_b[0] == other.register_b[0] && self.register_b[1]
            == other.register_b[1] && self.register_b[2] == other.register_b[2]
            && self.register_b[3] == other.register_b[3] && self.register_b[4]
            == other.register_b[4] && self.register_b[5] == other.register_b[5];
        proof {
            if r {
                assert(self.register_a@ =~= other.register_a@);
                assert(self.register_b@ =~= other.register_b@);
            }
        }
        r
    }
}

impl Eq for Configuration {

}

impl vstd::std_specs::cmp::PartialEqSpecImpl for Configuration {
    open spec fn obeys_eq_spec() -> bool {
        true
    }

    open spec fn eq_spec(&self, other: &Self) -> bool {
        self.register_a@ == other.register_a@ && self.register_b@ == other.register_b@
    }
}

/// GPIO pins of the LTC681X family.
/// Depending on the device type, not all pins may be available.
/// Configuring a pin that is not physically available has no effect.
#[derive(Copy, Clone, Eq, PartialEq, Structural, Debug)]
pub enum GPIO {
    GPIO1,
    GPIO2,
    GPIO3,
    GPIO4,
    GPIO5,
    GPIO6,
    GPIO7,
    GPIO8,
    GPIO9,
}

/// Cell indexes of the LTC681X family.
/// Depending on the device type, not all cells may be available.
/// Configuring a cell that is not physically available has no effect.
#[derive(Copy, Clone, Eq, PartialEq, Structural, Debug)]
pub enum Cell {
    Cell1,
    Cell2,
    Cell3,
    Cell4,
    Cell5,
    Cell6,
    Cell7,
    Cell8,
    Cell9,
    Cell10,
    Cell11,
    Cell12,
    Cell13,
    Cell14,
    Cell15,
    Cell16,
    Cell17,
    Cell18,
}

/// Timeout duration for the discharge timer.
#[derive(Copy, Clone, Eq, PartialEq, Structural, Debug)]
pub enum DischargeTimeout {
    Disabled,
    HalfMinute,
    OneMinute,
    TwoMinutes,
    ThreeMinutes,
    FourMinutes,
    FiveMinutes,
    TenMinutes,
    FifteenMinutes,
    TwentyMinutes,
    ThirtyMinutes,
    FortyMinutes,
    SixtyMinutes,
    SeventyFiveMinutes,
    NinetyMinutes,
    TwoHours,
}

/// Digital redundancy path selection.
#[derive(Copy, Clone, Structural, PartialEq, Eq, Debug)]
pub enum DigitalRedundancyPath {
    /// Redundancy is applied sequentially to the digital paths of all three
    /// ADCs during cell conversions and to the first ADC during auxiliary and
    /// status conversions.
    All,
    /// Redundancy is applied only to the digital path of the first ADC.
    ADC1,
    /// Redundancy is applied only to the digital path of the second ADC.
    ADC2,
    /// Redundancy is applied only to the digital path of the third ADC.
    ADC3,
}

/// The given voltage does not fit the 12-bit comparison register.
#[derive(Debug)]
pub struct VoltageOutOfRangeError {}

/// Index within the twelve byte image of the byte holding the pull-down bit
/// of `pin`.
pub open spec fn spec_gpio_pull_down_index(pin: GPIO) -> int {
    match pin {
        GPIO::GPIO1 | GPIO::GPIO2 | GPIO::GPIO3 | GPIO::GPIO4 | GPIO::GPIO5 => 0,
        GPIO::GPIO6 | GPIO::GPIO7 | GPIO::GPIO8 | GPIO::GPIO9 => 6,
    }
}

/// Single-bit mask of the pull-down bit of `pin` within its byte.
pub open spec fn spec_gpio_pull_down_mask(pin: GPIO) -> u8 {
    match pin {
        GPIO::GPIO1 => 0x08,
        GPIO::GPIO2 => 0x10,
        GPIO::GPIO3 => 0x20,
        GPIO::GPIO4 => 0x40,
        GPIO::GPIO5 => 0x80,
        GPIO::GPIO6 => 0x01,
        GPIO::GPIO7 => 0x02,
        GPIO::GPIO8 => 0x04,
        GPIO::GPIO9 => 0x08,
    }
}

/// Index within the twelve byte image of the byte holding the discharge
/// switch bit of `cell`.
pub open spec fn spec_discharge_index(cell: Cell) -> int {
    match cell {
        Cell::Cell1 | Cell::Cell2 | Cell::Cell3 | Cell::Cell4 | Cell::Cell5 | Cell::Cell6
        | Cell::Cell7 | Cell::Cell8 => 4,
        Cell::Cell9 | Cell::Cell10 | Cell::Cell11 | Cell::Cell12 => 5,
        Cell::Cell13 | Cell::Cell14 | Cell::Cell15 | Cell::Cell16 => 6,
        Cell::Cell17 | Cell::Cell18 => 7,
    }
}

/// Single-bit mask of the discharge switch bit of `cell` within its byte.
pub open spec fn spec_discharge_mask(cell: Cell) -> u8 {
    match cell {
        Cell::Cell1 | Cell::Cell9 | Cell::Cell17 => 0x01,
        Cell::Cell2 | Cell::Cell10 | Cell::Cell18 => 0x02,
        Cell::Cell3 | Cell::Cell11 => 0x04,
        Cell::Cell4 | Cell::Cell12 => 0x08,
        Cell::Cell5 | Cell::Cell13 => 0x10,
        Cell::Cell6 | Cell::Cell14 => 0x20,
        Cell::Cell7 | Cell::Cell15 => 0x40,
        Cell::Cell8 | Cell::Cell16 => 0x80,
    }
}

/// Bit pattern of the discharge timeout selection.
pub open spec fn spec_timeout_bits(timeout: DischargeTimeout) -> u8 {
    match timeout {
        DischargeTimeout::Disabled => 0x0,
        DischargeTimeout::HalfMinute => 0x1,
        DischargeTimeout::OneMinute => 0x2,
        DischargeTimeout::TwoMinutes => 0x3,
        DischargeTimeout::ThreeMinutes => 0x4,
        DischargeTimeout::FourMinutes => 0x5,
        DischargeTimeout::FiveMinutes => 0x6,
        DischargeTimeout::TenMinutes => 0x7,
        DischargeTimeout::FifteenMinutes => 0x8,
        DischargeTimeout::TwentyMinutes => 0x9,
        DischargeTimeout::ThirtyMinutes => 0xa,
        DischargeTimeout::FortyMinutes => 0xb,
        DischargeTimeout::SixtyMinutes => 0xc,
        DischargeTimeout::SeventyFiveMinutes => 0xd,
        DischargeTimeout::NinetyMinutes => 0xe,
        DischargeTimeout::TwoHours => 0xf,
    }
}

/// Bit pattern of the digital redundancy path selection.
pub open spec fn spec_redundancy_bits(selection: DigitalRedundancyPath) -> u8 {
    match selection {
        DigitalRedundancyPath::All => 0x0,
        DigitalRedundancyPath::ADC1 => 0x1,
        DigitalRedundancyPath::ADC2 => 0x2,
        DigitalRedundancyPath::ADC3 => 0x3,
    }
}

impl Configuration {
    /// Sets the bits of `mask` in byte 0 to 5 of register group A.
    fn or_byte_a(&mut self, index: usize, mask: u8)
        requires
            index < 6,
        ensures
            final(self)@ == old(self)@.update(
                index as int,
                (old(self)@[index as int] | mask) as u8,
            ),
    {
        self.register_a[index] = self.register_a[index] | mask;
        proof {
            assert(self@ =~= old(self)@.update(index as int, (old(self)@[index as int] | mask) as u8));
        }
    }

    /// Clears the bits of `mask` in byte 0 to 5 of register group A.
    fn and_byte_a(&mut self, index: usize, mask: u8)
        requires
            index < 6,
        ensures
            final(self)@ == old(self)@.update(
                index as int,
                (old(self)@[index as int] & mask) as u8,
            ),
    {
        self.register_a[index] = self.register_a[index] & mask;
        proof {
            assert(self@ =~= old(self)@.update(index as int, (old(self)@[index as int] & mask) as u8));
        }
    }

    /// Overwrites byte 0 to 5 of register group A.
    fn set_byte_a(&mut self, index: usize, value: u8)
        requires
            index < 6,
        ensures
            final(self)@ == old(self)@.update(index as int, value),
    {
        self.register_a[index] = value;
        proof {
            assert(self@ =~= old(self)@.update(index as int, value));
        }
    }

    /// Sets the bits of `mask` in byte 0 to 5 of register group B, which is
    /// byte 6 to 11 of the image.
    fn or_byte_b(&mut self, index: usize, mask: u8)
        requires
            index < 6,
        ensures
            final(self)@ == old(self)@.update(
                index + 6,
                (old(self)@[index + 6] | mask) as u8,
            ),
    {
        self.register_b[index] = self.register_b[index] | mask;
        proof {
            assert(self@ =~= old(self)@.update(index + 6, (old(self)@[index + 6] | mask) as u8));
        }
    }

    /// Clears the bits of `mask` in byte 0 to 5 of register group B, which is
    /// byte 6 to 11 of the image.
    fn and_byte_b(&mut self, index: usize, mask: u8)
        requires
            index < 6,
        ensures
            final(self)@ == old(self)@.update(
                index + 6,
                (old(self)@[index + 6] & mask) as u8,
            ),
    {
        self.register_b[index] = self.register_b[index] & mask;
        proof {
            assert(self@ =~= old(self)@.update(index + 6, (old(self)@[index + 6] & mask) as u8));
        }
    }

    /// Enables the pull-down of the given GPIO pin by clearing its bit.
    pub fn enable_gpio_pull_down(&mut self, pin: GPIO)
        ensures
            final(self)@ == old(self)@.update(
                spec_gpio_pull_down_index(pin),
                (old(self)@[spec_gpio_pull_down_index(pin)] & !spec_gpio_pull_down_mask(pin)) as u8,
            ),
    {
        match pin {
            GPIO::GPIO1 => self.and_byte_a(0, 0xf7),
            GPIO::GPIO2 => self.and_byte_a(0, 0xef),
            GPIO::GPIO3 => self.and_byte_a(0, 0xdf),
            GPIO::GPIO4 => self.and_byte_a(0, 0xbf),
            GPIO::GPIO5 => self.and_byte_a(0, 0x7f),
            GPIO::GPIO6 => self.and_byte_b(0, 0xfe),
            GPIO::GPIO7 => self.and_byte_b(0, 0xfd),
            GPIO::GPIO8 => self.and_byte_b(0, 0xfb),
            GPIO::GPIO9 => self.and_byte_b(0, 0xf7),
        }
        proof {
            assert((0xf7u8, 0xefu8, 0xdfu8, 0xbfu8, 0x7fu8, 0xfeu8, 0xfdu8, 0xfbu8) == (
                !0x08u8,
                !0x10u8,
                !0x20u8,
                !0x40u8,
                !0x80u8,
                !0x01u8,
                !0x02u8,
                !0x04u8,
            )) by (bit_vector);
        }
    }

    /// Disables the pull-down of the given GPIO pin by setting its bit.
    pub fn disable_gpio_pull_down(&mut self, pin: GPIO)
        ensures
            final(self)@ == old(self)@.update(
                spec_gpio_pull_down_index(pin),
                (old(self)@[spec_gpio_pull_down_index(pin)] | spec_gpio_pull_down_mask(pin)) as u8,
            ),
    {
        match pin {
            GPIO::GPIO1 => self.or_byte_a(0, 0x08),
            GPIO::GPIO2 => self.or_byte_a(0, 0x10),
            GPIO::GPIO3 => self.or_byte_a(0, 0x20),
            GPIO::GPIO4 => self.or_byte_a(0, 0x40),
            GPIO::GPIO5 => self.or_byte_a(0, 0x80),
            GPIO::GPIO6 => self.or_byte_b(0, 0x01),
            GPIO::GPIO7 => self.or_byte_b(0, 0x02),
            GPIO::GPIO8 => self.or_byte_b(0, 0x04),
            GPIO::GPIO9 => self.or_byte_b(0, 0x08),
        }
    }

    /// References remain powered up until the watchdog timeout.
    pub fn enable_reference_power(&mut self)
        ensures
            final(self)@ == old(self)@.update(0, (old(self)@[0] | 0x04) as u8),
    {
        self.or_byte_a(0, 0x04);
    }

    /// References shut down after conversions (the default).
    pub fn disable_reference_power(&mut self)
        ensures
            final(self)@ == old(self)@.update(0, (old(self)@[0] & 0xfb) as u8),
    {
        self.and_byte_a(0, 0xfb);
    }

    /// Enables the discharge timer for discharge switches.
    pub fn enable_discharge_timer(&mut self)
        ensures
            final(self)@ == old(self)@.update(0, (old(self)@[0] | 0x02) as u8),
    {
        self.or_byte_a(0, 0x02);
    }

    /// Disables the discharge timer.
    pub fn disable_discharge_timer(&mut self)
        ensures
            final(self)@ == old(self)@.update(0, (old(self)@[0] & 0xfd) as u8),
    {
        self.and_byte_a(0, 0xfd);
    }

    /// Sets the under-voltage comparison voltage in microvolts.
    ///
    /// Zero clears the comparison value. Any other voltage below 3200 or
    /// above 6553600 microvolts does not fit the 12-bit register and is
    /// rejected, leaving the configuration unchanged.
    pub fn set_uv_comp_voltage(&mut self, voltage: u32) -> (r: Result<
        (),
        VoltageOutOfRangeError,
    >)
        ensures
            r is Ok <==> (voltage == 0 || (3200 <= voltage <= 6553600)),
            voltage == 0 ==> final(self)@ == old(self)@.update(1, 0u8).update(
                2,
                (old(self)@[2] & 0xf0) as u8,
            ),
            3200 <= voltage <= 6553600 ==> final(self)@ == old(self)@.update(
                1,
                (((voltage / 1600) - 1) as u16) as u8,
            ).update(2, ((old(self)@[2] & 0xf0) | ((((voltage / 1600) - 1) as u16) >> 8) as u8) as u8),
            r is Err ==> *final(self) == *old(self),
    {
        if voltage == 0 {
            self.set_byte_a(1, 0x0);
            self.and_byte_a(2, 0xf0);
            return Ok(());
        }
        if voltage < 3200 || voltage > 6553600 {
            return Err(VoltageOutOfRangeError {});
        }
        let value = ((voltage / 1600) - 1) as u16;
        self.set_byte_a(1, value as u8);
        self.and_byte_a(2, 0xf0);
        self.or_byte_a(2, (value >> 8) as u8);
        proof {
            assert(final(self)@ =~= old(self)@.update(1, value as u8).update(
                2,
                ((old(self)@[2] & 0xf0) | (value >> 8) as u8) as u8,
            ));
        }
        Ok(())
    }

    /// Sets the over-voltage comparison voltage in microvolts.
    ///
    /// Zero clears the comparison value. Any other voltage below 1600 or
    /// above 6552000 microvolts does not fit the 12-bit register and is
    /// rejected, leaving the configuration unchanged.
    pub fn set_ov_comp_voltage(&mut self, voltage: u32) -> (r: Result<
        (),
        VoltageOutOfRangeError,
    >)
        ensures
            r is Ok <==> (voltage == 0 || (1600 <= voltage <= 6552000)),
            voltage == 0 ==> final(self)@ == old(self)@.update(
                2,
                (old(self)@[2] & 0x0f) as u8,
            ).update(3, 0u8),
            1600 <= voltage <= 6552000 ==> final(self)@ == old(self)@.update(
                3,
                (((voltage / 1600) as u16) >> 4) as u8,
            ).update(2, ((old(self)@[2] & 0x0f) | (((voltage / 1600) as u16) << 4) as u8) as u8),
            r is Err ==> *final(self) == *old(self),
    {
        if voltage == 0 {
            self.and_byte_a(2, 0x0f);
            self.set_byte_a(3, 0x0);
            return Ok(());
        }
        if voltage < 1600 || voltage > 6552000 {
            return Err(VoltageOutOfRangeError {});
        }
        let value = (voltage / 1600) as u16;
        self.set_byte_a(3, (value >> 4) as u8);
        self.and_byte_a(2, 0x0f);
        self.or_byte_a(2, (value << 4) as u8);
        proof {
            assert(final(self)@ =~= old(self)@.update(3, (value >> 4) as u8).update(
                2,
                ((old(self)@[2] & 0x0f) | (value << 4) as u8) as u8,
            ));
        }
        Ok(())
    }

    /// Turns on the shorting switch of the given cell.
    pub fn discharge_cell(&mut self, cell: Cell)
        ensures
            final(self)@ == old(self)@.update(
                spec_discharge_index(cell),
                (old(self)@[spec_discharge_index(cell)] | spec_discharge_mask(cell)) as u8,
            ),
    {
        match cell {
            Cell::Cell1 => self.or_byte_a(4, 0x01),
            Cell::Cell2 => self.or_byte_a(4, 0x02),
            Cell::Cell3 => self.or_byte_a(4, 0x04),
            Cell::Cell4 => self.or_byte_a(4, 0x08),
            Cell::Cell5 => self.or_byte_a(4, 0x10),
            Cell::Cell6 => self.or_byte_a(4, 0x20),
            Cell::Cell7 => self.or_byte_a(4, 0x40),
            Cell::Cell8 => self.or_byte_a(4, 0x80),
            Cell::Cell9 => self.or_byte_a(5, 0x01),
            Cell::Cell10 => self.or_byte_a(5, 0x02),
            Cell::Cell11 => self.or_byte_a(5, 0x04),
            Cell::Cell12 => self.or_byte_a(5, 0x08),
            Cell::Cell13 => self.or_byte_b(0, 0x10),
            Cell::Cell14 => self.or_byte_b(0, 0x20),
            Cell::Cell15 => self.or_byte_b(0, 0x40),
            Cell::Cell16 => self.or_byte_b(0, 0x80),
            Cell::Cell17 => self.or_byte_b(1, 0x01),
            Cell::Cell18 => self.or_byte_b(1, 0x02),
        }
    }

    /// Sets the discharge timeout.
    pub fn set_discharge_timeout(&mut self, timeout: DischargeTimeout)
        ensures
            final(self)@ == old(self)@.update(
                5,
                ((old(self)@[5] & 0x0f) | (spec_timeout_bits(timeout) << 4) as u8) as u8,
            ),
    {
        self.and_byte_a(5, 0x0f);
        let bits = timeout_bits(timeout);
        self.or_byte_a(5, bits << 4);
        proof {
            assert(final(self)@ =~= old(self)@.update(
                5,
                ((old(self)@[5] & 0x0f) | (spec_timeout_bits(timeout) << 4) as u8) as u8,
            ));
        }
    }

    /// Selects the alternative ADC mode table (14 kHz, 3 kHz, 1 kHz or 2 kHz).
    pub fn set_alternative_adc_modes(&mut self)
        ensures
            final(self)@ == old(self)@.update(0, (old(self)@[0] | 0x01) as u8),
    {
        self.or_byte_a(0, 0x01);
    }

    /// Selects the default ADC mode table (27 kHz, 7 kHz, 422 Hz or 26 Hz).
    pub fn set_default_adc_modes(&mut self)
        ensures
            final(self)@ == old(self)@.update(0, (old(self)@[0] & 0xfe) as u8),
    {
        self.and_byte_a(0, 0xfe);
    }

    /// Forces the digital redundancy comparison for ADC conversions to fail.
    pub fn force_digital_redundancy_fail(&mut self)
        ensures
            final(self)@ == old(self)@.update(7, (old(self)@[7] | 0x40) as u8),
    {
        self.or_byte_b(1, 0x40);
    }

    /// Sets the digital redundancy path.
    pub fn set_digital_redundancy_path(&mut self, selection: DigitalRedundancyPath)
        ensures
            final(self)@ == old(self)@.update(
                7,
                ((old(self)@[7] & 0xcf) | (spec_redundancy_bits(selection) << 4) as u8) as u8,
            ),
    {
        self.and_byte_b(1, 0xcf);
        let bits = redundancy_bits(selection);
        self.or_byte_b(1, bits << 4);
        proof {
            assert(final(self)@ =~= old(self)@.update(
                7,
                ((old(self)@[7] & 0xcf) | (spec_redundancy_bits(selection) << 4) as u8) as u8,
            ));
        }
    }

    /// Enables the discharge timer monitor function if the DTEN pin is
    /// asserted. Otherwise (the default) the monitor function is disabled and
    /// the normal discharge timer runs when the DTEN pin is asserted.
    pub fn enable_discharge_monitor(&mut self)
        ensures
            final(self)@ == old(self)@.update(7, (old(self)@[7] | 0x08) as u8),
    {
        self.or_byte_b(1, 0x08);
    }
}

impl From<usize> for Cell {
    /// Maps a zero-based cell index to its cell; out-of-range indices fall
    /// back to the first cell.
    fn from(index: usize) -> (r: Self) {
        match index {
            0 => Cell::Cell1,
            1 => Cell::Cell2,
            2 => Cell::Cell3,
            3 => Cell::Cell4,
            4 => Cell::Cell5,
            5 => Cell::Cell6,
            6 => Cell::Cell7,
            7 => Cell::Cell8,
            8 => Cell::Cell9,
            9 => Cell::Cell10,
            10 => Cell::Cell11,
            11 => Cell::Cell12,
            12 => Cell::Cell13,
            13 => Cell::Cell14,
            14 => Cell::Cell15,
            15 => Cell::Cell16,
            16 => Cell::Cell17,
            17 => Cell::Cell18,
            _ => Cell::Cell1,
        }
    }
}

impl vstd::std_specs::convert::FromSpecImpl<usize> for Cell {
    open spec fn obeys_from_spec() -> bool {
        true
    }

    open spec fn from_spec(index: usize) -> Self {
        match index {
            0 => Cell::Cell1,
            1 => Cell::Cell2,
            2 => Cell::Cell3,
            3 => Cell::Cell4,
            4 => Cell::Cell5,
            5 => Cell::Cell6,
            6 => Cell::Cell7,
            7 => Cell::Cell8,
            8 => Cell::Cell9,
            9 => Cell::Cell10,
            10 => Cell::Cell11,
            11 => Cell::Cell12,
            12 => Cell::Cell13,
            13 => Cell::Cell14,
            14 => Cell::Cell15,
            15 => Cell::Cell16,
            16 => Cell::Cell17,
            17 => Cell::Cell18,
            _ => Cell::Cell1,
        }
    }
}

impl From<usize> for GPIO {
    /// Maps a zero-based GPIO index to its pin; out-of-range indices fall
    /// back to the first pin.
    fn from(index: usize) -> (r: Self) {
        match index {
            0 => GPIO::GPIO1,
            1 => GPIO::GPIO2,
            2 => GPIO::GPIO3,
            3 => GPIO::GPIO4,
            4 => GPIO::GPIO5,
            5 => GPIO::GPIO6,
            6 => GPIO::GPIO7,
            7 => GPIO::GPIO8,
            8 => GPIO::GPIO9,
            _ => GPIO::GPIO1,
        }
    }
}

impl vstd::std_specs::convert::FromSpecImpl<usize> for GPIO {
    open spec fn obeys_from_spec() -> bool {
        true
    }

    open spec fn from_spec(index: usize) -> Self {
        match index {
            0 => GPIO::GPIO1,
            1 => GPIO::GPIO2,
            2 => GPIO::GPIO3,
            3 => GPIO::GPIO4,
            4 => GPIO::GPIO5,
            5 => GPIO::GPIO6,
            6 => GPIO::GPIO7,
            7 => GPIO::GPIO8,
            8 => GPIO::GPIO9,
            _ => GPIO::GPIO1,
        }
    }
}

/// Bit pattern of the discharge timeout selection.
fn timeout_bits(timeout: DischargeTimeout) -> (r: u8)
    ensures
        r == spec_timeout_bits(timeout),
{
    match timeout {
        DischargeTimeout::Disabled => 0x0,
        DischargeTimeout::HalfMinute => 0x1,
        DischargeTimeout::OneMinute => 0x2,
        DischargeTimeout::TwoMinutes => 0x3,
        DischargeTimeout::ThreeMinutes => 0x4,
        DischargeTimeout::FourMinutes => 0x5,
        DischargeTimeout::FiveMinutes => 0x6,
        DischargeTimeout::TenMinutes => 0x7,
        DischargeTimeout::FifteenMinutes => 0x8,
        DischargeTimeout::TwentyMinutes => 0x9,
        DischargeTimeout::ThirtyMinutes => 0xa,
        DischargeTimeout::FortyMinutes => 0xb,
        DischargeTimeout::SixtyMinutes => 0xc,
        DischargeTimeout::SeventyFiveMinutes => 0xd,
        DischargeTimeout::NinetyMinutes => 0xe,
        DischargeTimeout::TwoHours => 0xf,
    }
}

/// Bit pattern of the digital redundancy path selection.
fn redundancy_bits(selection: DigitalRedundancyPath) -> (r: u8)
    ensures
        r == spec_redundancy_bits(selection),
{
    match selection {
        DigitalRedundancyPath::All => 0x0,
        DigitalRedundancyPath::ADC1 => 0x1,
        DigitalRedundancyPath::ADC2 => 0x2,
        DigitalRedundancyPath::ADC3 => 0x3,
    }
}

} // verus!
