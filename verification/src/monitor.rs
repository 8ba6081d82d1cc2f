//! Generic client for the LTC681X device family.
//!
//! The [`LTC681X`] client is generic over the transport ([`crate::spi::SpiDevice`]),
//! the chip-select discipline after conversion commands ([`PollMethod`]), the
//! concrete device variant ([`DeviceTypes`]) and the number of devices in the
//! daisy chain (`L`).
//!
//! Every outgoing frame of N payload bytes carries exactly the two checksum
//! bytes computed over those N bytes, and every received register block is
//! validated against its own checksum before it is decoded; both facts are
//! stated in the contracts of the frame builders and the block parsers below.
use crate::config::Configuration;
use crate::pec15::PEC15;
use crate::pec15::spec_pec15;
use crate::spi::LatchingSpiDevice;
use crate::spi::OutputPin;
use crate::spi::SpiBus;
use crate::spi::SpiDevice;
use core::marker::PhantomData;
use vstd::prelude::*;

verus! {

/// Poll strategy: decides what happens to chip select once a conversion
/// command has been clocked out.
pub trait PollMethod<B: SpiDevice>: Sized {
    /// True if the strategy leaves chip select asserted after a command, so
    /// that the ADC-ready state can be polled afterwards.
    spec fn keeps_cs(&self) -> bool;

    /// Handles the chip select state after a command has been sent.
    fn end_command(&self, bus: &mut B) -> (r: Result<(), B::Error>)
        ensures
            self.keeps_cs() ==> r is Ok && *final(bus) == *old(bus),
            !self.keeps_cs() && r is Ok ==> !final(bus).cs_latched(),
    ;
}

/// Leaves chip select asserted after a conversion command, so that the SDO
/// line can be polled for ADC readiness.
pub struct SDOLinePolling {}

/// Releases chip select immediately after every command.
pub struct NoPolling {}

impl<B: SpiDevice> PollMethod<B> for SDOLinePolling {
    open spec fn keeps_cs(&self) -> bool {
        true
    }

    fn end_command(&self, bus: &mut B) -> (r: Result<(), B::Error>) {
        Ok(())
    }
}

impl<B: SpiDevice> PollMethod<B> for NoPolling {
    open spec fn keeps_cs(&self) -> bool {
        false
    }

    fn end_command(&self, bus: &mut B) -> (r: Result<(), B::Error>) {
        bus.release_cs()
    }
}

/// ADC frequency and filtering settings.
#[derive(Copy, Clone, Eq, PartialEq, Structural, Debug)]
pub enum ADCMode {
    /// 27 kHz, or 14 kHz with the alternative ADC mode table (CFGAR0=1).
    Fast,
    /// 7 kHz, or 3 kHz with the alternative ADC mode table (CFGAR0=1).
    Normal,
    /// 26 Hz, or 2 kHz with the alternative ADC mode table (CFGAR0=1).
    Filtered,
    /// 422 Hz, or 1 kHz with the alternative ADC mode table (CFGAR0=1).
    Other,
}

/// Selection of the status group measured by the internal parameters command.
#[derive(Copy, Clone, Eq, PartialEq, Structural, Debug)]
pub enum StatusGroup {
    /// Includes the cell sum, the die temperature and both supply rails.
    All,
    /// Measures the total voltage of all cells.
    CellSum,
    /// Measures the internal die temperature.
    Temperature,
    /// Measures the internal analog voltage supply.
    AnalogVoltage,
    /// Measures the internal digital voltage supply.
    DigitalVoltage,
}

/// ADC mode bits within a conversion command word.
pub open spec fn spec_mode_bits(mode: ADCMode) -> u16 {
    match mode {
        ADCMode::Fast => 0x1,
        ADCMode::Normal => 0x2,
        ADCMode::Filtered => 0x3,
        ADCMode::Other => 0x0,
    }
}

/// ADC mode bits within a conversion command word.
fn adc_mode_bits(mode: ADCMode) -> (r: u16)
    ensures
        r == spec_mode_bits(mode),
{
    match mode {
        ADCMode::Fast => 0x1,
        ADCMode::Normal => 0x2,
        ADCMode::Filtered => 0x3,
        ADCMode::Other => 0x0,
    }
}

/// Command word starting a cell voltage conversion: the fixed opcode skeleton
/// OR'd with the ADC mode bits, the cell selection bitmap and the
/// discharge-permitted bit.
pub fn conv_cells_command(mode: ADCMode, bitmap: u16, dcp: bool) -> (r: u16)
    ensures
        r == spec_conv_cells_command(mode, bitmap, dcp),
{
    ((0x0260u16 | (adc_mode_bits(mode) << 7)) | bitmap) | (if dcp {
        0x10u16
    } else {
        0x00u16
    })
}

/// Command word starting a GPIO conversion: the fixed opcode skeleton OR'd
/// with the ADC mode bits and the GPIO selection bitmap.
pub fn conv_gpio_command(mode: ADCMode, bitmap: u16) -> (r: u16)
    ensures
        r == spec_conv_gpio_command(mode, bitmap),
{
    (0x0460u16 | (adc_mode_bits(mode) << 7)) | bitmap
}

/// Command word starting an overlap measurement.
pub fn overlap_command(mode: ADCMode, dcp: bool) -> (r: u16)
    ensures
        r == spec_overlap_command(mode, dcp),
{
    (0x0201u16 | (adc_mode_bits(mode) << 7)) | (if dcp {
        0x10u16
    } else {
        0x00u16
    })
}

/// Command word starting an internal parameters measurement.
pub fn status_command(mode: ADCMode, bitmap: u16) -> (r: u16)
    ensures
        r == spec_status_command(mode, bitmap),
{
    (0x0468u16 | (adc_mode_bits(mode) << 7)) | bitmap
}

/// Command word starting a cell voltage conversion: the fixed opcode skeleton
/// OR'd with the ADC mode bits, the cell selection bitmap and the
/// discharge-permitted bit.
pub open spec fn spec_conv_cells_command(mode: ADCMode, bitmap: u16, dcp: bool) -> u16 {
    ((0x0260u16 | (spec_mode_bits(mode) << 7)) | bitmap) | (if dcp {
        0x10u16
    } else {
        0x00u16
    })
}

/// Command word starting a GPIO conversion.
pub open spec fn spec_conv_gpio_command(mode: ADCMode, bitmap: u16) -> u16 {
    (0x0460u16 | (spec_mode_bits(mode) << 7)) | bitmap
}

/// Command word starting an overlap measurement.
pub open spec fn spec_overlap_command(mode: ADCMode, dcp: bool) -> u16 {
    (0x0201u16 | (spec_mode_bits(mode) << 7)) | (if dcp {
        0x10u16
    } else {
        0x00u16
    })
}

/// Command word starting an internal parameters measurement.
pub open spec fn spec_status_command(mode: ADCMode, bitmap: u16) -> u16 {
    (0x0468u16 | (spec_mode_bits(mode) << 7)) | bitmap
}

/// The four bytes of a command frame: the 16-bit command word followed by the
/// two checksum bytes computed over exactly those two command bytes.
pub open spec fn spec_command_frame(command: u16) -> Seq<u8> {
    seq![(command >> 8) as u8, command as u8] + spec_pec15(
        seq![(command >> 8) as u8, command as u8],
    )
}

/// Builds the 4-byte frame of a command word: two command bytes followed by
/// their checksum.
pub fn command_frame(command: u16) -> (r: [u8; 4])
    ensures
        r@ == spec_command_frame(command),
{
    let b0 = (command >> 8) as u8;
    let b1 = command as u8;
    let head: [u8; 2] = [b0, b1];
    let pec = PEC15::calc(head.as_slice());
    proof {
        assert(head@ =~= seq![(command >> 8) as u8, command as u8]);
    }
    let r: [u8; 4] = [b0, b1, pec[0], pec[1]];
    proof {
        assert(r@ =~= spec_command_frame(command));
    }
    r
}

/// The eight bytes of a register data block: six payload bytes followed by
/// the two checksum bytes computed over exactly those six bytes.
pub open spec fn spec_data_block(payload: Seq<u8>) -> Seq<u8> {
    payload + spec_pec15(payload)
}

/// Builds the 8-byte data block of a register write: the six payload bytes
/// followed by their checksum.
pub fn data_block(payload: &[u8; 6]) -> (r: [u8; 8])
    ensures
        r@ == spec_data_block(payload@),
{
    let pec = PEC15::calc(payload.as_slice());
    let r: [u8; 8] = [
        payload[0],
        payload[1],
        payload[2],
        payload[3],
        payload[4],
        payload[5],
        pec[0],
        pec[1],
    ];
    proof {
        assert(payload@ =~= seq![payload@[0], payload@[1], payload@[2], payload@[3], payload@[4], payload@[5]]);
        assert(r@ =~= spec_data_block(payload@));
    }
    r
}

/// The first frame of a register write: the 4-byte write command followed by
/// device 0's checksummed data block.
pub fn write_frame(command: &[u8; 4], payload: &[u8; 6]) -> (r: Vec<u8>)
    ensures
        r@ == command@ + spec_data_block(payload@),
{
    let block = data_block(payload);
    let mut r: Vec<u8> = Vec::new();
    r.push(command[0]);
    r.push(command[1]);
    r.push(command[2]);
    r.push(command[3]);
    let mut k: usize = 0;
    while k < 8
        invariant
            r@.len() == 4 + k,
            k <= 8,
            forall|j: int| 0 <= j < 4 ==> r@[j] == command@[j],
            forall|j: int| 0 <= j < k ==> r@[4 + j] == block@[j],
        decreases 8 - k,
    {
        r.push(block[k]);
        k = k + 1;
    }
    proof {
        assert(r@ =~= command@ + spec_data_block(payload@));
    }
    r
}

/// True if the eight byte register block carries the checksum of its own six
/// payload bytes.
pub open spec fn spec_block_valid(block: Seq<u8>) -> bool {
    spec_pec15(block.subrange(0, 6)) == block.subrange(6, 8)
}

/// The three 16-bit register slots packed into a block: each slot is stored
/// little-endian in two consecutive payload bytes.
pub open spec fn spec_block_words(block: Seq<u8>) -> Seq<u16> {
    seq![
        ((block[0] as u16) | ((block[1] as u16) << 8)) as u16,
        ((block[2] as u16) | ((block[3] as u16) << 8)) as u16,
        ((block[4] as u16) | ((block[5] as u16) << 8)) as u16,
    ]
}

/// Validates one received register block against its checksum and decodes the
/// three 16-bit slots.
///
/// Returns the slots exactly when the block's checksum bytes equal the
/// checksum of its payload; a corrupted block yields `None`.
pub fn parse_register_block(block: &[u8]) -> (r: Option<[u16; 3]>)
    requires
        block@.len() == 8,
    ensures
        r is Some <==> spec_block_valid(block@),
        r matches Some(w) ==> w@ == spec_block_words(block@),
{
    let pec = PEC15::calc(&block[0..6]);
    if pec[0] != block[6] || pec[1] != block[7] {
        proof {
            if spec_block_valid(block@) {
                assert(spec_pec15(block@.subrange(0, 6))[0] == block@.subrange(6, 8)[0]);
                assert(spec_pec15(block@.subrange(0, 6))[1] == block@.subrange(6, 8)[1]);
            }
        }
        return None;
    }
    proof {
        assert(spec_pec15(block@.subrange(0, 6)) =~= block@.subrange(6, 8));
    }
    let w0 = (block[0] as u16) | ((block[1] as u16) << 8);
    let w1 = (block[2] as u16) | ((block[3] as u16) << 8);
    let w2 = (block[4] as u16) | ((block[5] as u16) << 8);
    let r: [u16; 3] = [w0, w1, w2];
    proof {
        assert(r@ =~= spec_block_words(block@));
    }
    Some(r)
}

/// The byte sequences behind a vector of received blocks.
pub open spec fn spec_block_views(blocks: Seq<Vec<u8>>) -> Seq<Seq<u8>> {
    blocks.map_values(|b: Vec<u8>| b@)
}

/// True if every block of the chain carries a valid checksum.
pub open spec fn spec_chain_valid(blocks: Seq<Seq<u8>>) -> bool {
    forall|i: int| 0 <= i < blocks.len() ==> spec_block_valid(#[trigger] blocks[i])
}

/// Validates and decodes the register blocks of a whole daisy chain, one
/// independently checksummed block per device.
///
/// Returns the decoded slots exactly when every single block is valid; the
/// first invalid block discards the whole chain, so no partial result can
/// ever be observed.
pub fn parse_daisy_chain(blocks: &Vec<Vec<u8>>) -> (r: Option<Vec<[u16; 3]>>)
    requires
        forall|i: int| 0 <= i < blocks@.len() ==> (#[trigger] blocks@[i])@.len() == 8,
    ensures
        r is Some <==> spec_chain_valid(spec_block_views(blocks@)),
        r matches Some(v) ==> v@.len() == blocks@.len() && forall|i: int|
            0 <= i < v@.len() ==> (#[trigger] v@[i])@ == spec_block_words(blocks@[i]@),
{
    let mut out: Vec<[u16; 3]> = Vec::new();
    let mut i: usize = 0;
    while i < blocks.len()
        invariant
            0 <= i <= blocks@.len(),
            out@.len() == i,
            forall|j: int| 0 <= j < blocks@.len() ==> (#[trigger] blocks@[j])@.len() == 8,
            forall|j: int| 0 <= j < i ==> spec_block_valid(#[trigger] blocks@[j]@),
            forall|j: int| 0 <= j < i ==> (#[trigger] out@[j])@ == spec_block_words(blocks@[j]@),
        decreases blocks@.len() - i,
    {
        match parse_register_block(blocks[i].as_slice()) {
            Some(words) => {
                out.push(words);
            },
            None => {
                proof {
                    assert(!spec_block_valid(spec_block_views(blocks@)[i as int]));
                }
                return None;
            },
        }
        i = i + 1;
    }
    proof {
        assert forall|j: int| 0 <= j < spec_block_views(blocks@).len() implies spec_block_valid(
            #[trigger] spec_block_views(blocks@)[j],
        ) by {
            assert(spec_block_valid(blocks@[j]@));
        }
    }
    Some(out)
}

/// A chain with any single corrupted block is rejected as a whole, whichever
/// device position the corruption hits.
pub proof fn lemma_corrupt_block_rejects_chain(blocks: Seq<Seq<u8>>, i: int)
    requires
        0 <= i < blocks.len(),
        !spec_block_valid(blocks[i]),
    ensures
        !spec_chain_valid(blocks),
{
}

/// A block built from six payload bytes always carries a valid checksum:
/// framing and validation agree.
pub proof fn lemma_data_block_validates(payload: Seq<u8>)
    requires
        payload.len() == 6,
    ensures
        spec_block_valid(spec_data_block(payload)),
{
    assert(spec_data_block(payload).subrange(0, 6) =~= payload);
    assert(spec_data_block(payload).subrange(6, 8) =~= spec_pec15(payload));
}

/// Location of a conversion voltage: a channel `C` stored in a slot of a
/// register `R`.
pub struct RegisterAddress<C, R> {
    /// Either a cell or a GPIO channel.
    pub channel: C,

    /// Register which stores the voltage of the channel.
    pub register: R,

    /// Index within the register. Each register has three slots.
    pub slot: usize,
}

impl<C: Copy, R: Copy> Clone for RegisterAddress<C, R> {
    fn clone(&self) -> (r: Self)
        ensures
            r == *self,
    {
        RegisterAddress { channel: self.channel, register: self.register, slot: self.slot }
    }
}

impl<C: Copy, R: Copy> Copy for RegisterAddress<C, R> {

}

/// Maps register locations to cell or GPIO groups.
pub trait RegisterLocator<C, R> {
    /// The register locations of this cell or GPIO group, in the order in
    /// which their voltages are returned.
    spec fn spec_locations(&self) -> Seq<RegisterAddress<C, R>>;

    /// Returns the register locations of the given cell or GPIO group.
    /// Every location addresses one of the three slots of its register.
    fn get_locations(&self) -> (r: Vec<RegisterAddress<C, R>>)
        ensures
            r@ == self.spec_locations(),
            forall|i: int| 0 <= i < r@.len() ==> (#[trigger] r@[i]).slot < 3,
    ;
}

/// Conversion result of a single channel.
#[derive(Debug)]
pub struct Voltage<T: DeviceTypes> {
    /// Channel of the voltage.
    pub channel: T::Channel,

    /// Raw register value. Real voltage: `voltage` * 100 uV.
    pub voltage: u16,
}

impl<T: DeviceTypes> Clone for Voltage<T> {
    fn clone(&self) -> (r: Self)
        ensures
            r == *self,
    {
        Voltage { channel: self.channel, voltage: self.voltage }
    }
}

impl<T: DeviceTypes> Copy for Voltage<T> {

}

/// Error of the LTC681X client.
#[derive(Debug)]
pub enum Error<BE> {
    /// Error on the SPI transport, including chip select faults.
    BusError(BE),

    /// The checksum of a received register block was invalid.
    ChecksumMismatch,

    /// Writing to the given register is not supported.
    ReadOnlyRegister,
}

/// Casting of command options to command bitmaps.
pub trait ToCommandBitmap {
    /// The command bitmap of this selection.
    spec fn spec_bitmap(&self) -> u16;

    /// Returns the command bitmap for the given argument.
    fn to_bitmap(&self) -> (r: u16)
        ensures
            r == self.spec_bitmap(),
    ;
}

/// Expected execution time of a conversion command.
pub trait ToCommandTiming {
    /// The datasheet timing pair of a conversion in the given ADC mode.
    spec fn spec_conv_command_timing(&self, mode: ADCMode) -> CommandTime;

    /// Returns the expected execution time of a conversion command in the
    /// given ADC mode.
    fn to_conv_command_timing(&self, mode: ADCMode) -> (r: CommandTime)
        ensures
            r == self.spec_conv_command_timing(mode),
    ;
}

/// Writing to this register is not supported, so no write command exists.
#[derive(Debug)]
pub struct NoWriteCommandError {}

/// Casting of registers to full (checksummed) command frames.
pub trait ToFullCommand {
    /// The 16-bit read command word of this register.
    spec fn spec_read_command(&self) -> u16;

    /// True if the register can be written.
    spec fn spec_writable(&self) -> bool;

    /// The 16-bit write command word of this register, meaningful only if the
    /// register is writable.
    spec fn spec_write_command(&self) -> u16;

    /// Returns the full 4-byte register read command including its checksum.
    fn to_read_command(&self) -> (r: [u8; 4])
        ensures
            r@ == spec_command_frame(self.spec_read_command()),
    ;

    /// Returns the full 4-byte register write command including its checksum.
    /// Fails exactly when the register is read-only.
    fn to_write_command(&self) -> (r: Result<[u8; 4], NoWriteCommandError>)
        ensures
            r is Ok <==> self.spec_writable(),
            r matches Ok(f) ==> f@ == spec_command_frame(self.spec_write_command()),
    ;
}

/// Conversion of channels (cells or GPIOs) to indexes.
pub trait ChannelIndex {
    /// The cell index of this channel, if it is a cell channel.
    spec fn spec_cell_index(&self) -> Option<usize>;

    /// The GPIO index of this channel, if it is a GPIO channel.
    spec fn spec_gpio_index(&self) -> Option<usize>;

    /// Returns the cell index if this is a cell channel, otherwise `None`.
    fn to_cell_index(&self) -> (r: Option<usize>)
        ensures
            r == self.spec_cell_index(),
    ;

    /// Returns the GPIO index if this is a GPIO channel, otherwise `None`.
    fn to_gpio_index(&self) -> (r: Option<usize>)
        ensures
            r == self.spec_gpio_index(),
    ;
}

/// Conversion of registers to indexes within their register group.
pub trait GroupedRegisterIndex {
    /// The unique index of this register within its group.
    spec fn spec_index(&self) -> usize;

    /// Returns a unique index within the register group (for example the
    /// auxiliary registers). The index is always below six, the largest
    /// register group of the family.
    fn to_index(&self) -> (r: usize)
        ensures
            r == self.spec_index(),
            r < 6,
    ;
}

/// ADC channel type.
#[derive(Copy, Clone, Eq, PartialEq, Structural, Debug)]
pub enum ChannelType {
    Cell,
    GPIO,
    Reference,
}

/// Expected execution time of an issued conversion command. The client never
/// waits itself; the caller decides how to honor the timing.
#[derive(Copy, Clone, Eq, PartialEq, Structural, Debug)]
pub struct CommandTime {
    /// Regular (CFGAR0=0) execution time in microseconds.
    pub regular: u32,

    /// Alternative (CFGAR0=1) execution time in microseconds.
    pub alternative: u32,
}

impl CommandTime {
    /// Builds a timing pair from the regular and the alternative duration.
    pub fn new(regular: u32, alternative: u32) -> (r: Self)
        ensures
            r.regular == regular,
            r.alternative == alternative,
    {
        Self { regular, alternative }
    }
}

/// Die temperature as a signed fixed-point number with sixteen fractional
/// bits: the temperature in degrees Celsius is `bits` / 65536.
#[derive(Copy, Clone, Eq, PartialEq, Structural, Debug)]
pub struct Temperature {
    /// Raw fixed-point bits, sixteen fractional bits.
    pub bits: i32,
}

/// Raw temperature code at or above which the decoded value saturates to the
/// fixed-point maximum.
pub const TEMP_OVERFLOW_CODE: u16 = 53744;

/// Offset subtracted from the raw temperature code, in raw units.
pub const TEMP_OFFSET: u16 = 20976;

/// Divisor converting offset-corrected raw units to degrees Celsius.
pub const TEMP_DIVISOR: u32 = 76;

/// Fixed-point bits of the die temperature decoded from the raw code
/// `raw`: the offset-corrected code divided by the gain, saturating to the
/// fixed-point maximum at or above the overflow threshold and truncating
/// toward zero otherwise.
pub open spec fn spec_temperature_bits(raw: u16) -> i32 {
    if raw >= TEMP_OVERFLOW_CODE {
        i32::MAX
    } else {
        let scaled = (raw - TEMP_OFFSET) * 0x10000;
        if scaled >= 0 {
            (scaled / (TEMP_DIVISOR as int)) as i32
        } else {
            (0 - ((0 - scaled) / (TEMP_DIVISOR as int))) as i32
        }
    }
}

/// Decodes the die temperature from its raw register code.
///
/// A code at or above the overflow threshold saturates to the fixed-point
/// maximum; it never wraps and never turns negative through overflow.
pub fn calc_temperature(value: u16) -> (r: Temperature)
    ensures
        r.bits == spec_temperature_bits(value),
        value >= TEMP_OVERFLOW_CODE ==> r.bits == i32::MAX,
{
    if value >= TEMP_OVERFLOW_CODE {
        return Temperature { bits: i32::MAX };
    }
    if value >= TEMP_OFFSET {
        let scaled: u32 = (value as u32 - TEMP_OFFSET as u32) * 0x10000;
        let bits = (scaled / TEMP_DIVISOR) as i32;
        Temperature { bits }
    } else {
        let scaled: u32 = (TEMP_OFFSET as u32 - value as u32) * 0x10000;
        let bits = 0i32 - ((scaled / TEMP_DIVISOR) as i32);
        Temperature { bits }
    }
}

/// Collection of internal device parameters, measured by the internal status
/// conversion command.
#[derive(Debug)]
pub struct InternalDeviceParameters {
    /// Sum of all cell voltages in microvolts.
    pub total_voltage: u32,

    /// Voltage of the analog power supply in microvolts.
    pub analog_power: u32,

    /// Voltage of the digital power supply in microvolts.
    pub digital_power: u32,

    /// Die temperature in degrees Celsius as a fixed-point number. A raw code
    /// overflowing the device's threshold saturates to the fixed-point
    /// maximum.
    pub temperature: Temperature,
}

/// Decodes the internal device parameters of one device from its two status
/// register groups: the total stack voltage, both rail voltages (all in
/// microvolts, 100 uV per LSB, the total additionally scaled by the device's
/// stack multiplier) and the saturating die temperature.
pub fn device_parameters_from_status(status_a: &[u16; 3], status_b: &[u16; 3], factor: u32) -> (r:
    InternalDeviceParameters)
    requires
        factor <= 655,
    ensures
        r.total_voltage == status_a@[0] * factor * 100,
        r.analog_power == status_a@[2] * 100,
        r.digital_power == status_b@[0] * 100,
        r.temperature.bits == spec_temperature_bits(status_a@[1]),
{
    proof {
        assert(status_a@[0] * factor * 100 <= 0xffff_ffff) by (nonlinear_arith)
            requires
                status_a@[0] <= 0xffff,
                factor <= 655,
        ;
    }
    InternalDeviceParameters {
        total_voltage: (status_a[0] as u32) * factor * 100,
        analog_power: (status_a[2] as u32) * 100,
        digital_power: (status_b[0] as u32) * 100,
        temperature: calc_temperature(status_a[1]),
    }
}

/// The 16-bit word an optional register read holds for the given device and
/// slot: zero when the register is absent.
pub open spec fn spec_register_word(entry: Option<Vec<[u16; 3]>>, device: int, slot: int) -> u16 {
    match entry {
        Some(words) => words@[device]@[slot],
        None => 0,
    }
}

/// Projects the requested channels out of the cached register reads: one row
/// per device, holding the locations' channels in order, each voltage taken
/// from device `d`'s triple of the channel's backing register at the
/// channel's slot.
pub fn project_voltages<T: DeviceTypes>(
    locations: &Vec<RegisterAddress<T::Channel, T::Register>>,
    cache: &Vec<Option<Vec<[u16; 3]>>>,
    device_count: usize,
) -> (r: Vec<Vec<Voltage<T>>>)
    requires
        cache@.len() == 6,
        forall|i: int| 0 <= i < locations@.len() ==> (#[trigger] locations@[i]).slot < 3,
        forall|i: int|
            0 <= i < locations@.len() ==> ((#[trigger] cache@[locations@[i].register.spec_index() as int]) matches Some(v)
                && v@.len() == device_count),
    ensures
        r@.len() == device_count,
        forall|d: int| 0 <= d < device_count ==> (#[trigger] r@[d])@.len() == locations@.len(),
        forall|d: int, i: int|
            0 <= d < device_count && 0 <= i < locations@.len() ==> (#[trigger] r@[d]@[i]).channel
                == locations@[i].channel,
        forall|d: int, i: int|
            0 <= d < device_count && 0 <= i < locations@.len() ==> (#[trigger] r@[d]@[i]).voltage
                == spec_register_word(
                cache@[locations@[i].register.spec_index() as int],
                d,
                locations@[i].slot as int,
            ),
{
    let mut result: Vec<Vec<Voltage<T>>> = Vec::new();
    let mut d: usize = 0;
    while d < device_count
        invariant
            result@.len() == d,
            d <= device_count,
            cache@.len() == 6,
            forall|i: int| 0 <= i < locations@.len() ==> (#[trigger] locations@[i]).slot < 3,
            forall|i: int|
                0 <= i < locations@.len() ==> ((#[trigger] cache@[locations@[i].register.spec_index() as int]) matches Some(v)
                    && v@.len() == device_count),
            forall|dd: int| 0 <= dd < d ==> (#[trigger] result@[dd])@.len() == locations@.len(),
            forall|dd: int, i: int|
                0 <= dd < d && 0 <= i < locations@.len() ==> (#[trigger] result@[dd]@[i]).channel
                    == locations@[i].channel,
            forall|dd: int, i: int|
                0 <= dd < d && 0 <= i < locations@.len() ==> (#[trigger] result@[dd]@[i]).voltage
                    == spec_register_word(
                    cache@[locations@[i].register.spec_index() as int],
                    dd,
                    locations@[i].slot as int,
                ),
        decreases device_count - d,
    {
        let mut row: Vec<Voltage<T>> = Vec::new();
        let mut i: usize = 0;
        while i < locations.len()
            invariant
                row@.len() == i,
                i <= locations@.len(),
                d < device_count,
                cache@.len() == 6,
                forall|k: int| 0 <= k < locations@.len() ==> (#[trigger] locations@[k]).slot < 3,
                forall|k: int|
                    0 <= k < locations@.len() ==> ((#[trigger] cache@[locations@[k].register.spec_index() as int]) matches Some(v)
                        && v@.len() == device_count),
                forall|k: int| 0 <= k < i ==> (#[trigger] row@[k]).channel == locations@[k].channel,
                forall|k: int|
                    0 <= k < i ==> (#[trigger] row@[k]).voltage == spec_register_word(
                        cache@[locations@[k].register.spec_index() as int],
                        d as int,
                        locations@[k].slot as int,
                    ),
            decreases locations@.len() - i,
        {
            let address = &locations[i];
            let idx = address.register.to_index();
            let words = cache[idx].as_ref().unwrap();
            let triple = &words[d];
            let voltage: u16 = triple[address.slot];
            row.push(Voltage { channel: address.channel, voltage });
            i = i + 1;
        }
        result.push(row);
        d = d + 1;
    }
    result
}

/// Assembles the per-device overlap measurement quadruples from the reads of
/// the up to two self-test registers: slots 0 and 1 of each register's
/// triple, zero for an absent register.
pub fn assemble_overlap_results(
    register_c: &Option<Vec<[u16; 3]>>,
    register_e: &Option<Vec<[u16; 3]>>,
    device_count: usize,
) -> (r: Vec<[u16; 4]>)
    requires
        (*register_c) matches Some(v) ==> v@.len() == device_count,
        (*register_e) matches Some(v) ==> v@.len() == device_count,
    ensures
        r@.len() == device_count,
        forall|d: int|
            0 <= d < device_count ==> (#[trigger] r@[d])@[0] == spec_register_word(
                *register_c,
                d,
                0,
            ) && r@[d]@[1] == spec_register_word(*register_c, d, 1) && r@[d]@[2]
                == spec_register_word(*register_e, d, 0) && r@[d]@[3] == spec_register_word(
                *register_e,
                d,
                1,
            ),
{
    let mut data: Vec<[u16; 4]> = Vec::new();
    let mut d: usize = 0;
    while d < device_count
        invariant
            data@.len() == d,
            d <= device_count,
            (*register_c) matches Some(v) ==> v@.len() == device_count,
            (*register_e) matches Some(v) ==> v@.len() == device_count,
            forall|dd: int|
                0 <= dd < d ==> (#[trigger] data@[dd])@[0] == spec_register_word(
                    *register_c,
                    dd,
                    0,
                ) && data@[dd]@[1] == spec_register_word(*register_c, dd, 1) && data@[dd]@[2]
                    == spec_register_word(*register_e, dd, 0) && data@[dd]@[3]
                    == spec_register_word(*register_e, dd, 1),
        decreases device_count - d,
    {
        let (c0, c1): (u16, u16) = match register_c {
            Some(words) => {
                let triple = &words[d];
                (triple[0], triple[1])
            },
            None => (0, 0),
        };
        let (e0, e1): (u16, u16) = match register_e {
            Some(words) => {
                let triple = &words[d];
                (triple[0], triple[1])
            },
            None => (0, 0),
        };
        let entry: [u16; 4] = [c0, c1, e0, e1];
        proof {
            assert(entry@ =~= seq![c0, c1, e0, e1]);
        }
        data.push(entry);
        d = d + 1;
    }
    data
}

/// Decodes the internal device parameters of a whole chain: entry `d` is the
/// decode of device `d`'s two status register triples.
pub fn device_parameters_from_chain(
    status_a: &Vec<[u16; 3]>,
    status_b: &Vec<[u16; 3]>,
    factor: u32,
) -> (r: Vec<InternalDeviceParameters>)
    requires
        status_a@.len() == status_b@.len(),
        factor <= 655,
    ensures
        r@.len() == status_a@.len(),
        forall|d: int|
            0 <= d < r@.len() ==> (#[trigger] r@[d]).total_voltage == status_a@[d]@[0] * factor
                * 100 && r@[d].analog_power == status_a@[d]@[2] * 100 && r@[d].digital_power
                == status_b@[d]@[0] * 100 && r@[d].temperature.bits == spec_temperature_bits(
                status_a@[d]@[1],
            ),
{
    let mut parameters: Vec<InternalDeviceParameters> = Vec::new();
    let mut d: usize = 0;
    while d < status_a.len()
        invariant
            parameters@.len() == d,
            d <= status_a@.len(),
            status_a@.len() == status_b@.len(),
            factor <= 655,
            forall|dd: int|
                0 <= dd < d ==> (#[trigger] parameters@[dd]).total_voltage == status_a@[dd]@[0]
                    * factor * 100 && parameters@[dd].analog_power == status_a@[dd]@[2] * 100
                    && parameters@[dd].digital_power == status_b@[dd]@[0] * 100
                    && parameters@[dd].temperature.bits == spec_temperature_bits(
                    status_a@[dd]@[1],
                ),
        decreases status_a@.len() - d,
    {
        let p = device_parameters_from_status(&status_a[d], &status_b[d], factor);
        parameters.push(p);
        d = d + 1;
    }
    parameters
}

/// Splits a chain's configurations into the raw images of register group A
/// and register group B: entry `d` of each vector is device `d`'s image.
pub fn configuration_images(config: &Vec<Configuration>) -> (r: (Vec<[u8; 6]>, Vec<[u8; 6]>))
    ensures
        r.0@.len() == config@.len(),
        r.1@.len() == config@.len(),
        forall|d: int| 0 <= d < config@.len() ==> (#[trigger] r.0@[d]) == config@[d].register_a,
        forall|d: int| 0 <= d < config@.len() ==> (#[trigger] r.1@[d]) == config@[d].register_b,
{
    let mut register_a: Vec<[u8; 6]> = Vec::new();
    let mut register_b: Vec<[u8; 6]> = Vec::new();
    let mut d: usize = 0;
    while d < config.len()
        invariant
            register_a@.len() == d,
            register_b@.len() == d,
            d <= config@.len(),
            forall|dd: int| 0 <= dd < d ==> (#[trigger] register_a@[dd]) == config@[dd].register_a,
            forall|dd: int| 0 <= dd < d ==> (#[trigger] register_b@[dd]) == config@[dd].register_b,
        decreases config@.len() - d,
    {
        register_a.push(config[d].register_a);
        register_b.push(config[d].register_b);
        d = d + 1;
    }
    (register_a, register_b)
}

/// Decides ADC readiness from the polled SDO byte: `0xff` means the
/// conversion is complete, anything else means the device is still busy.
pub fn poll_ready(byte: u8) -> (r: bool)
    ensures
        r <==> byte == 0xff,
{
    byte == 0xff
}

/// Device specific types of one LTC681X variant.
pub trait DeviceTypes: Sized {
    /// Argument for the identification of cell groups.
    type CellSelection: ToCommandBitmap + ToCommandTiming + RegisterLocator<
        Self::Channel,
        Self::Register,
    > + Copy;

    /// Argument for the identification of GPIO groups.
    type GPIOSelection: ToCommandBitmap + ToCommandTiming + RegisterLocator<
        Self::Channel,
        Self::Register,
    > + Copy;

    /// Argument for register selection.
    type Register: ToFullCommand + GroupedRegisterIndex + Copy;

    /// Available cells and GPIOs.
    type Channel: ChannelIndex + Copy;

    /// First register storing the results of the overlap measurement, `None`
    /// if the overlap test is not supported.
    spec fn spec_overlap_test_reg_1() -> Option<Self::Register>;

    /// Second register storing the results of the overlap measurement, `None`
    /// if only one ADC pair takes part in the test or the test is not
    /// supported at all.
    spec fn spec_overlap_test_reg_2() -> Option<Self::Register>;

    /// Configuration register group B, `None` if the variant has no second
    /// configuration register group.
    spec fn spec_reg_conf_b() -> Option<Self::Register>;

    /// Multiplier applied to the raw cell-sum code before the 100 uV scaling
    /// when decoding the total stack voltage.
    spec fn spec_total_voltage_factor() -> u32;

    /// Number of battery cells supported by the device.
    fn cell_count() -> usize;

    /// Number of GPIO channels.
    fn gpio_count() -> usize;

    /// Returns the first overlap test register, if the test is supported.
    fn overlap_test_reg_1() -> (r: Option<Self::Register>)
        ensures
            r == Self::spec_overlap_test_reg_1(),
    ;

    /// Returns the second overlap test register, if present.
    fn overlap_test_reg_2() -> (r: Option<Self::Register>)
        ensures
            r == Self::spec_overlap_test_reg_2(),
    ;

    /// Returns status register group A.
    fn reg_status_a() -> Self::Register;

    /// Returns status register group B.
    fn reg_status_b() -> Self::Register;

    /// Returns configuration register group A, which is always writable.
    fn reg_conf_a() -> (r: Self::Register)
        ensures
            r.spec_writable(),
    ;

    /// Returns configuration register group B, if the variant has one; it is
    /// then writable.
    fn reg_conf_b() -> (r: Option<Self::Register>)
        ensures
            r == Self::spec_reg_conf_b(),
            r matches Some(reg) ==> reg.spec_writable(),
    ;

    /// Returns the device's total stack voltage multiplier. It is small
    /// enough that the scaled total always fits the 32-bit result.
    fn total_voltage_factor() -> (r: u32)
        ensures
            r == Self::spec_total_voltage_factor(),
            r <= 655,
    ;
}

/// Client for a daisy chain of `L` LTC681X devices sharing one SPI bus.
pub struct LTC681X<B, P, T, const L: usize> where
    B: SpiDevice,
    P: PollMethod<B>,
    T: DeviceTypes,
 {
    /// The latching SPI transport.
    bus: B,

    /// Chip select discipline after conversion commands.
    poll_method: P,

    device_types: PhantomData<T>,
}

impl<B, T, const L: usize> LTC681X<B, NoPolling, T, L> where B: SpiDevice, T: DeviceTypes {
    /// Creates a client that releases chip select after every command.
    pub(crate) fn new(bus: B) -> (r: Self) {
        LTC681X { bus, poll_method: NoPolling {  }, device_types: PhantomData }
    }
}

impl<B, CS, T, const L: usize> LTC681X<LatchingSpiDevice<B, CS>, SDOLinePolling, T, L> where
    B: SpiBus,
    CS: OutputPin,
    T: DeviceTypes,
 {
    /// Creates a client that leaves chip select asserted after conversion
    /// commands, so that ADC readiness can be polled on the SDO line.
    ///
    /// After a conversion command the SDO line is driven low while the device
    /// is busy and released high once the conversion completes.
    pub fn enable_sdo_polling(bus: B, cs: CS) -> Self {
        LTC681X {
            bus: LatchingSpiDevice::new(bus, cs),
            poll_method: SDOLinePolling {  },
            device_types: PhantomData,
        }
    }
}

impl<B, P, T, const L: usize> LTC681X<B, P, T, L> where
    B: SpiDevice,
    P: PollMethod<B>,
    T: DeviceTypes,
 {
    /// True while the transport's chip select is asserted.
    pub closed spec fn spec_cs_latched(&self) -> bool {
        self.bus.cs_latched()
    }

    /// True if the poll strategy leaves chip select asserted after
    /// conversion commands.
    pub closed spec fn spec_keeps_cs(&self) -> bool {
        self.poll_method.keeps_cs()
    }

    /// Frames the given command word with its checksum and clocks it out.
    fn send_command(&mut self, command: u16) -> (r: Result<(), B::Error>)
        ensures
            r is Ok ==> final(self).bus.cs_latched(),
            final(self).poll_method == old(self).poll_method,
    {
        let frame = command_frame(command);
        self.bus.write(frame.as_slice())
    }

    /// Sends a conversion command word and applies the poll strategy's chip
    /// select handling.
    fn conversion_command(&mut self, command: u16) -> (r: Result<(), Error<B::Error>>)
        ensures
            r matches Err(e) ==> e is BusError,
            r is Ok && old(self).poll_method.keeps_cs() ==> final(self).bus.cs_latched(),
            r is Ok && !old(self).poll_method.keeps_cs() ==> !final(self).bus.cs_latched(),
            final(self).poll_method == old(self).poll_method,
    {
        match self.send_command(command) {
            Ok(()) => {},
            Err(e) => {
                return Err(Error::BusError(e));
            },
        }
        match self.poll_method.end_command(&mut self.bus) {
            Ok(()) => Ok(()),
            Err(e) => Err(Error::BusError(e)),
        }
    }

    /// Starts the ADC conversion of a cell group.
    ///
    /// Emits the cell conversion command word built from the ADC mode, the
    /// cell selection bitmap and the discharge-permitted bit, and returns the
    /// datasheet timing pair of the conversion for the caller to honor; the
    /// client itself never waits.
    pub fn start_conv_cells(&mut self, mode: ADCMode, cells: T::CellSelection, dcp: bool) -> (r:
        Result<CommandTime, Error<B::Error>>)
        ensures
            r matches Ok(t) ==> t == cells.spec_conv_command_timing(mode),
            r matches Err(e) ==> e is BusError,
            r is Ok && old(self).spec_keeps_cs() ==> final(self).spec_cs_latched(),
            r is Ok && !old(self).spec_keeps_cs() ==> !final(self).spec_cs_latched(),
    {
        let command = conv_cells_command(mode, cells.to_bitmap(), dcp);
        self.conversion_command(command)?;
        Ok(cells.to_conv_command_timing(mode))
    }

    /// Starts the ADC conversion of a GPIO group.
    pub fn start_conv_gpio(&mut self, mode: ADCMode, pins: T::GPIOSelection) -> (r: Result<
        CommandTime,
        Error<B::Error>,
    >)
        ensures
            r matches Ok(t) ==> t == pins.spec_conv_command_timing(mode),
            r matches Err(e) ==> e is BusError,
            r is Ok && old(self).spec_keeps_cs() ==> final(self).spec_cs_latched(),
            r is Ok && !old(self).spec_keeps_cs() ==> !final(self).spec_cs_latched(),
    {
        let command = conv_gpio_command(mode, pins.to_bitmap());
        self.conversion_command(command)?;
        Ok(pins.to_conv_command_timing(mode))
    }

    /// Starts the overlap measurement, the self test in which two ADCs
    /// convert the same cell. Not every variant exposes a timing table for
    /// it, so no timing is returned.
    pub fn start_overlap_measurement(&mut self, mode: ADCMode, dcp: bool) -> (r: Result<
        (),
        Error<B::Error>,
    >)
        ensures
            r matches Err(e) ==> e is BusError,
            r is Ok && old(self).spec_keeps_cs() ==> final(self).spec_cs_latched(),
            r is Ok && !old(self).spec_keeps_cs() ==> !final(self).spec_cs_latched(),
    {
        let command = overlap_command(mode, dcp);
        self.conversion_command(command)
    }

    /// Starts measuring the internal device parameters of the selected status
    /// group.
    pub fn measure_internal_parameters(&mut self, mode: ADCMode, group: StatusGroup) -> (r: Result<
        CommandTime,
        Error<B::Error>,
    >)
        ensures
            r matches Ok(t) ==> t == group.spec_conv_command_timing(mode),
            r matches Err(e) ==> e is BusError,
            r is Ok && old(self).spec_keeps_cs() ==> final(self).spec_cs_latched(),
            r is Ok && !old(self).spec_keeps_cs() ==> !final(self).spec_cs_latched(),
    {
        let command = status_command(mode, group.to_bitmap());
        self.conversion_command(command)?;
        Ok(group.to_conv_command_timing(mode))
    }

    /// Sends the register's read command and clocks back one independently
    /// checksummed 8-byte block per device in the chain.
    ///
    /// On success the result holds exactly one `[u16; 3]` triple per device,
    /// device 0 (nearest the controller) first. A single corrupted block
    /// anywhere in the chain fails the whole call with a checksum mismatch;
    /// no partial result is returned.
    pub fn read_register(&mut self, register: T::Register) -> (r: Result<
        Vec<[u16; 3]>,
        Error<B::Error>,
    >)
        ensures
            r matches Ok(v) ==> v@.len() == L,
            r matches Err(e) ==> !(e is ReadOnlyRegister),
            r is Ok ==> !final(self).spec_cs_latched(),
    {
        let frame = register.to_read_command();
        self.read_daisy_chain(frame)
    }

    /// Clocks out the given read command frame and reads the daisy chain's
    /// response blocks.
    fn read_daisy_chain(&mut self, frame: [u8; 4]) -> (r: Result<Vec<[u16; 3]>, Error<B::Error>>)
        ensures
            r matches Ok(v) ==> v@.len() == L,
            r matches Err(e) ==> !(e is ReadOnlyRegister),
            r is Ok ==> !final(self).bus.cs_latched(),
    {
        match self.bus.write(frame.as_slice()) {
            Ok(()) => {},
            Err(e) => {
                return Err(Error::BusError(e));
            },
        }
        let mut blocks: Vec<Vec<u8>> = Vec::new();
        let mut d: usize = 0;
        while d < L
            invariant
                blocks@.len() == d,
                d <= L,
                forall|i: int| 0 <= i < d ==> (#[trigger] blocks@[i])@.len() == 8,
            decreases L - d,
        {
            match self.bus.read(8) {
                Ok(block) => {
                    blocks.push(block);
                },
                Err(e) => {
                    return Err(Error::BusError(e));
                },
            }
            d = d + 1;
        }
        match self.bus.release_cs() {
            Ok(()) => {},
            Err(e) => {
                return Err(Error::BusError(e));
            },
        }
        match parse_daisy_chain(&blocks) {
            Some(words) => Ok(words),
            None => Err(Error::ChecksumMismatch),
        }
    }

    /// Writes the given register of every device in the chain: the write
    /// command and device 0's checksummed payload as one frame, then one
    /// 8-byte checksummed block per remaining device, in chain propagation
    /// order.
    ///
    /// Fails with the read-only condition exactly when the register exposes
    /// no write command; nothing is clocked out in that case.
    pub fn write_register(&mut self, register: T::Register, data: &Vec<[u8; 6]>) -> (r: Result<
        (),
        Error<B::Error>,
    >)
        requires
            data@.len() == L,
            L >= 1,
        ensures
            r is Ok ==> register.spec_writable(),
            r matches Err(e) ==> (e is ReadOnlyRegister <==> !register.spec_writable()),
            r matches Err(e) ==> !(e is ChecksumMismatch),
            !register.spec_writable() ==> r is Err && *final(self) == *old(self),
            r is Ok ==> !final(self).spec_cs_latched(),
    {
        let pre_command = match register.to_write_command() {
            Ok(c) => c,
            Err(_) => {
                return Err(Error::ReadOnlyRegister);
            },
        };
        let frame = write_frame(&pre_command, &data[0]);
        match self.bus.write(frame.as_slice()) {
            Ok(()) => {},
            Err(e) => {
                return Err(Error::BusError(e));
            },
        }
        let mut d: usize = 1;
        while d < L
            invariant
                data@.len() == L,
                register.spec_writable(),
            decreases L - d,
        {
            let block = data_block(&data[d]);
            match self.bus.write(block.as_slice()) {
                Ok(()) => {},
                Err(e) => {
                    return Err(Error::BusError(e));
                },
            }
            d = d + 1;
        }
        match self.bus.release_cs() {
            Ok(()) => Ok(()),
            Err(e) => Err(Error::BusError(e)),
        }
    }

    /// Writes the configuration of every device in the chain: each image is
    /// split into its two halves, register group A is written first, then
    /// register group B on variants that have one (others skip that phase,
    /// which is not an error).
    ///
    /// The configuration registers are always writable, so the only possible
    /// failure is a transport fault; the first failing step aborts the call.
    pub fn write_configuration(&mut self, config: &Vec<Configuration>) -> (r: Result<
        (),
        Error<B::Error>,
    >)
        requires
            config@.len() == L,
            L >= 1,
        ensures
            r matches Err(e) ==> e is BusError,
    {
        let (register_a, register_b) = configuration_images(config);
        match self.write_register(T::reg_conf_a(), &register_a) {
            Ok(()) => {},
            Err(e) => {
                return Err(e);
            },
        }
        match T::reg_conf_b() {
            Some(register) => {
                match self.write_register(register, &register_b) {
                    Ok(()) => Ok(()),
                    Err(e) => Err(e),
                }
            },
            None => Ok(()),
        }
    }

    /// Reads the voltages of the channels named by the locator, memoizing
    /// register reads: each distinct backing register is read at most once
    /// per call, however many requested channels share it.
    ///
    /// On success the result holds one list per device in the chain, and each
    /// list carries the locator's channels in order with the voltage
    /// projected from the channel's register slot.
    pub fn read_voltages<R: RegisterLocator<T::Channel, T::Register>>(&mut self, locator: R) -> (r: Result<
        Vec<Vec<Voltage<T>>>,
        Error<B::Error>,
    >)
        ensures
            r matches Ok(v) ==> v@.len() == L && forall|d: int|
                0 <= d < L ==> (#[trigger] v@[d])@.len() == locator.spec_locations().len(),
            r matches Ok(v) ==> forall|d: int, i: int|
                0 <= d < L && 0 <= i < locator.spec_locations().len() ==> (#[trigger] v@[d]@[i]).channel
                    == locator.spec_locations()[i].channel,
            r matches Err(e) ==> !(e is ReadOnlyRegister),
    {
        let locations = locator.get_locations();
        let plan = read_plan(&locations);
        let mut cache: Vec<Option<Vec<[u16; 3]>>> = Vec::new();
        cache.push(None);
        cache.push(None);
        cache.push(None);
        cache.push(None);
        cache.push(None);
        cache.push(None);
        assert(cache@.len() == 6);
        let mut p: usize = 0;
        while p < plan.len()
            invariant
                cache@.len() == 6,
                plan@.len() <= 6,
                forall|j: int| 0 <= j < plan@.len() ==> (#[trigger] plan@[j]).spec_index() < 6,
                forall|j: int|
                    0 <= j < p && j < plan@.len() ==> ((#[trigger] cache@[plan@[j].spec_index() as int]) matches Some(v)
                        && v@.len() == L),
            decreases plan@.len() - p,
        {
            let register = plan[p];
            let words = match self.read_register(register) {
                Ok(w) => w,
                Err(e) => {
                    return Err(e);
                },
            };
            let idx = register.to_index();
            cache[idx] = Some(words);
            p = p + 1;
        }
        proof {
            assert forall|i: int|
                0 <= i < locations@.len() implies (#[trigger] cache@[locations@[i].register.spec_index() as int])
                matches Some(v) && v@.len() == L by {
                assert(exists|j: int|
                    0 <= j < plan@.len() && (#[trigger] plan@[j]).spec_index()
                        == locations@[i].register.spec_index());
            }
        }
        let result = project_voltages(&locations, &cache, L);
        Ok(result)
    }

    /// Reads the results of the overlap measurement: per device the two
    /// slots of each of the up to two self-test registers. Variants with a
    /// single ADC pair (or none) report zero for the missing halves.
    pub fn read_overlap_result(&mut self) -> (r: Result<Vec<[u16; 4]>, Error<B::Error>>)
        ensures
            r matches Ok(v) ==> v@.len() == L,
            T::spec_overlap_test_reg_1() is None ==> (r matches Ok(v) ==> forall|d: int|
                0 <= d < L ==> (#[trigger] v@[d])@[0] == 0 && v@[d]@[1] == 0),
            T::spec_overlap_test_reg_2() is None ==> (r matches Ok(v) ==> forall|d: int|
                0 <= d < L ==> (#[trigger] v@[d])@[2] == 0 && v@[d]@[3] == 0),
            T::spec_overlap_test_reg_1() is None && T::spec_overlap_test_reg_2() is None ==> r
                is Ok,
            r matches Err(e) ==> !(e is ReadOnlyRegister),
    {
        let register_c: Option<Vec<[u16; 3]>> = match T::overlap_test_reg_1() {
            Some(register) => {
                match self.read_register(register) {
                    Ok(w) => Some(w),
                    Err(e) => {
                        return Err(e);
                    },
                }
            },
            None => None,
        };
        let register_e: Option<Vec<[u16; 3]>> = match T::overlap_test_reg_2() {
            Some(register) => {
                match self.read_register(register) {
                    Ok(w) => Some(w),
                    Err(e) => {
                        return Err(e);
                    },
                }
            },
            None => None,
        };
        let data = assemble_overlap_results(&register_c, &register_e, L);
        Ok(data)
    }

    /// Reads and decodes the internal device parameters of every device in
    /// the chain from the two status register groups: total stack voltage,
    /// both rail voltages and the saturating die temperature.
    pub fn read_internal_device_parameters(&mut self) -> (r: Result<
        Vec<InternalDeviceParameters>,
        Error<B::Error>,
    >)
        ensures
            r matches Ok(v) ==> v@.len() == L,
            r matches Err(e) ==> !(e is ReadOnlyRegister),
    {
        let status_a = match self.read_register(T::reg_status_a()) {
            Ok(w) => w,
            Err(e) => {
                return Err(e);
            },
        };
        let status_b = match self.read_register(T::reg_status_b()) {
            Ok(w) => w,
            Err(e) => {
                return Err(e);
            },
        };
        let parameters = device_parameters_from_chain(&status_a, &status_b, T::total_voltage_factor());
        Ok(parameters)
    }
}

impl<B, T, const L: usize> LTC681X<B, SDOLinePolling, T, L> where B: SpiDevice, T: DeviceTypes {
    /// Polls the ADC-ready state on the SDO line by clocking one byte while
    /// chip select has stayed asserted since the conversion command: `0xff`
    /// means the conversion is complete, `0x00` means the device is busy.
    ///
    /// A not-ready answer never toggles chip select, so the poll can be
    /// repeated; the first ready answer releases chip select exactly once and
    /// ends the transaction.
    pub fn adc_ready(&mut self) -> (r: Result<bool, Error<B::Error>>)
        ensures
            r == Ok::<bool, Error<B::Error>>(false) ==> final(self).spec_cs_latched(),
            r == Ok::<bool, Error<B::Error>>(true) ==> !final(self).spec_cs_latched(),
            r matches Err(e) ==> e is BusError,
    {
        let data = match self.bus.read(1) {
            Ok(d) => d,
            Err(e) => {
                return Err(Error::BusError(e));
            },
        };
        if poll_ready(data[0]) {
            match self.bus.release_cs() {
                Ok(()) => Ok(true),
                Err(e) => Err(Error::BusError(e)),
            }
        } else {
            Ok(false)
        }
    }
}

/// Client interface for polling the ADC status.
pub trait PollClient {
    type Error;

    /// Returns true if the ADC is no longer busy.
    fn adc_ready(&mut self) -> Result<bool, Self::Error>;
}

impl<B, T, const L: usize> PollClient for LTC681X<B, SDOLinePolling, T, L> where
    B: SpiDevice,
    T: DeviceTypes,
 {
    type Error = Error<B::Error>;

    fn adc_ready(&mut self) -> Result<bool, Self::Error> {
        LTC681X::adc_ready(self)
    }
}

/// True if the read plan contains the backing register of the given
/// location.
pub open spec fn spec_plan_covers<C, R: GroupedRegisterIndex>(
    plan: Seq<R>,
    location: RegisterAddress<C, R>,
) -> bool {
    exists|j: int|
        0 <= j < plan.len() && (#[trigger] plan[j]).spec_index()
            == location.register.spec_index()
}

/// The distinct backing registers behind a list of register locations, in
/// first-occurrence order.
///
/// The plan mentions each register group index at most once and covers every
/// location's register, so reading the plan reads each backing register
/// exactly once however many requested channels share it.
pub fn read_plan<C, R: GroupedRegisterIndex + Copy>(locations: &Vec<RegisterAddress<C, R>>) -> (r:
    Vec<R>)
    ensures
        r@.len() <= 6,
        forall|a: int, b: int|
            0 <= a < b < r@.len() ==> (#[trigger] r@[a]).spec_index() != (#[trigger] r@[b]).spec_index(),
        forall|i: int| 0 <= i < locations@.len() ==> spec_plan_covers(r@, #[trigger] locations@[i]),
        forall|j: int| 0 <= j < r@.len() ==> (#[trigger] r@[j]).spec_index() < 6,
{
    let mut seen: Vec<bool> = Vec::new();
    seen.push(false);
    seen.push(false);
    seen.push(false);
    seen.push(false);
    seen.push(false);
    seen.push(false);
    let mut plan: Vec<R> = Vec::new();
    let mut i: usize = 0;
    while i < locations.len()
        invariant
            seen@.len() == 6,
            i <= locations@.len(),
            forall|j: int| 0 <= j < plan@.len() ==> (#[trigger] plan@[j]).spec_index() < 6,
            forall|j: int| 0 <= j < plan@.len() ==> seen@[(#[trigger] plan@[j]).spec_index() as int],
            forall|x: int|
                0 <= x < 6 ==> (#[trigger] seen@[x] ==> exists|j: int|
                    0 <= j < plan@.len() && (#[trigger] plan@[j]).spec_index() == x),
            forall|a: int, b: int|
                0 <= a < b < plan@.len() ==> (#[trigger] plan@[a]).spec_index() != (
                #[trigger] plan@[b]).spec_index(),
            forall|k: int| 0 <= k < i ==> spec_plan_covers(plan@, #[trigger] locations@[k]),
            plan@.len() <= 6,
        decreases locations@.len() - i,
    {
        let ghost prev_plan = plan@;
        let ghost prev_seen = seen@;
        let register = locations[i].register;
        let idx = register.to_index();
        if !seen[idx] {
            proof {
                assert forall|j: int| 0 <= j < plan@.len() implies (#[trigger] plan@[j]).spec_index()
                    != idx by {
                    assert(seen@[plan@[j].spec_index() as int]);
                }
                assert(plan@.len() < 6) by {
                    seen_bound(seen@, plan@.map_values(|reg: R| reg.spec_index()));
                }
            }
            seen[idx] = true;
            plan.push(register);
        }
        i = i + 1;
        proof {
            assert(forall|a: int| 0 <= a < prev_plan.len() ==> plan@[a] == prev_plan[a]);
            assert forall|x: int|
                0 <= x < 6 && #[trigger] seen@[x] implies exists|j: int|
                    0 <= j < plan@.len() && (#[trigger] plan@[j]).spec_index() == x by {
                if prev_seen[x] {
                    let j = choose|j: int|
                        0 <= j < prev_plan.len() && (#[trigger] prev_plan[j]).spec_index() == x;
                    assert(plan@[j].spec_index() == x);
                } else {
                    assert(x == idx);
                    assert(plan@[plan@.len() - 1].spec_index() == x);
                }
            }
            assert forall|k: int| 0 <= k < i implies spec_plan_covers(
                plan@,
                #[trigger] locations@[k],
            ) by {
                if k < i - 1 {
                    assert(spec_plan_covers(prev_plan, locations@[k]));
                    let j = choose|j: int|
                        0 <= j < prev_plan.len() && (#[trigger] prev_plan[j]).spec_index()
                            == locations@[k].register.spec_index();
                    assert(plan@[j].spec_index() == locations@[k].register.spec_index());
                } else {
                    assert(seen@[register.spec_index() as int]);
                    let j = choose|j: int|
                        0 <= j < plan@.len() && (#[trigger] plan@[j]).spec_index()
                            == register.spec_index() as int;
                    assert(plan@[j].spec_index() == locations@[k].register.spec_index());
                }
            }
        }
    }
    plan
}

/// A list of distinct indices below six holds fewer than six entries when
/// some index is still unseen.
proof fn seen_bound(seen: Seq<bool>, indices: Seq<usize>)
    requires
        seen.len() == 6,
        forall|j: int| 0 <= j < indices.len() ==> (#[trigger] indices[j]) < 6,
        forall|j: int| 0 <= j < indices.len() ==> seen[(#[trigger] indices[j]) as int],
        forall|a: int, b: int| 0 <= a < b < indices.len() ==> indices[a] != indices[b],
        exists|x: int| 0 <= x < 6 && !seen[x],
    ensures
        indices.len() < 6,
{
    broadcast use vstd::set::group_set_axioms;
    broadcast use vstd::seq_lib::seq_to_set_is_finite;

    let all = set![0usize, 1usize, 2usize, 3usize, 4usize, 5usize];
    let used = indices.to_set();
    assert forall|x: usize| used.contains(x) implies all.contains(x) by {
        let j = choose|j: int| 0 <= j < indices.len() && indices[j] == x;
        assert(indices[j] < 6);
    }
    assert(used.subset_of(all));
    let missing = (choose|x: int| 0 <= x < 6 && !seen[x]) as usize;
    assert(!used.contains(missing)) by {
        if used.contains(missing) {
            let j = choose|j: int| 0 <= j < indices.len() && indices[j] == missing;
            assert(seen[indices[j] as int]);
        }
    }
    assert(all.contains(missing));
    assert(indices.no_duplicates());
    indices.unique_seq_to_set();
    assert(all.finite() && all.len() == 6);
    assert(used.insert(missing).subset_of(all));
    vstd::set_lib::lemma_len_subset(used.insert(missing), all);
    assert(used.insert(missing).len() == used.len() + 1);
}

impl ToCommandBitmap for StatusGroup {
    open spec fn spec_bitmap(&self) -> u16 {
        match self {
            StatusGroup::All => 0x0,
            StatusGroup::CellSum => 0x1,
            StatusGroup::Temperature => 0x2,
            StatusGroup::AnalogVoltage => 0x3,
            StatusGroup::DigitalVoltage => 0x4,
        }
    }

    fn to_bitmap(&self) -> (r: u16) {
        match self {
            StatusGroup::All => 0x0,
            StatusGroup::CellSum => 0x1,
            StatusGroup::Temperature => 0x2,
            StatusGroup::AnalogVoltage => 0x3,
            StatusGroup::DigitalVoltage => 0x4,
        }
    }
}

impl ToCommandTiming for StatusGroup {
    open spec fn spec_conv_command_timing(&self, mode: ADCMode) -> CommandTime {
        match self {
            StatusGroup::All => match mode {
                ADCMode::Fast => CommandTime { regular: 742, alternative: 858 },
                ADCMode::Normal => CommandTime { regular: 1600, alternative: 2000 },
                ADCMode::Filtered => CommandTime { regular: 134000, alternative: 3000 },
                ADCMode::Other => CommandTime { regular: 8500, alternative: 4800 },
            },
            StatusGroup::CellSum | StatusGroup::Temperature | StatusGroup::AnalogVoltage
                | StatusGroup::DigitalVoltage => match mode {
                ADCMode::Fast => CommandTime { regular: 200, alternative: 229 },
                ADCMode::Normal => CommandTime { regular: 403, alternative: 520 },
                ADCMode::Filtered => CommandTime { regular: 34000, alternative: 753 },
                ADCMode::Other => CommandTime { regular: 2100, alternative: 1200 },
            },
        }
    }

    fn to_conv_command_timing(&self, mode: ADCMode) -> (r: CommandTime) {
        match self {
            StatusGroup::All => match mode {
                ADCMode::Fast => CommandTime::new(742, 858),
                ADCMode::Normal => CommandTime::new(1600, 2000),
                ADCMode::Filtered => CommandTime::new(134000, 3000),
                ADCMode::Other => CommandTime::new(8500, 4800),
            },
            StatusGroup::CellSum | StatusGroup::Temperature | StatusGroup::AnalogVoltage
                | StatusGroup::DigitalVoltage => match mode {
                ADCMode::Fast => CommandTime::new(200, 229),
                ADCMode::Normal => CommandTime::new(403, 520),
                ADCMode::Filtered => CommandTime::new(34000, 753),
                ADCMode::Other => CommandTime::new(2100, 1200),
            },
        }
    }
}

} // verus!
