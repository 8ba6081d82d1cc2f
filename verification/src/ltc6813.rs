//! Device-specific types of the LTC6813: 18 cells and 9 GPIO channels.
use crate::monitor::ADCMode;
use crate::monitor::ChannelIndex;
use crate::monitor::ChannelType;
use crate::monitor::CommandTime;
use crate::monitor::DeviceTypes;
use crate::monitor::GroupedRegisterIndex;
use crate::monitor::LTC681X;
use crate::monitor::NoPolling;
use crate::monitor::NoWriteCommandError;
use crate::monitor::RegisterAddress;
use crate::monitor::RegisterLocator;
use crate::monitor::ToCommandBitmap;
use crate::monitor::ToCommandTiming;
use crate::monitor::ToFullCommand;
use crate::monitor::command_frame;
use crate::spi::SpiDevice;
use vstd::prelude::*;

verus! {

/// Cell selection for the ADC conversion.
#[derive(Copy, Clone, Eq, PartialEq, Structural, Debug)]
pub enum CellSelection {
    /// All cells.
    All,
    /// Cells 1, 7, 13.
    Group1,
    /// Cells 2, 8, 14.
    Group2,
    /// Cells 3, 9, 15.
    Group3,
    /// Cells 4, 10, 16.
    Group4,
    /// Cells 5, 11, 17.
    Group5,
    /// Cells 6, 12, 18.
    Group6,
}

/// GPIO selection for the ADC conversion.
#[derive(Copy, Clone, Eq, PartialEq, Structural, Debug)]
pub enum GPIOSelection {
    /// GPIO 1 to 5, second reference, GPIO 6 to 9.
    All,
    /// GPIO 1 and GPIO 6.
    Group1,
    /// GPIO 2 and GPIO 7.
    Group2,
    /// GPIO 3 and GPIO 8.
    Group3,
    /// GPIO 4 and GPIO 9.
    Group4,
    /// GPIO 5.
    Group5,
    /// Second reference.
    Group6,
}

/// Available registers.
#[derive(Copy, Clone, Eq, PartialEq, Structural, Debug)]
pub enum Register {
    CellVoltageA,
    CellVoltageB,
    CellVoltageC,
    CellVoltageD,
    CellVoltageE,
    CellVoltageF,
    AuxiliaryA,
    AuxiliaryB,
    AuxiliaryC,
    AuxiliaryD,
    StatusA,
    StatusB,
    ConfigurationA,
    ConfigurationB,
}

/// All conversion channels.
#[derive(Copy, Clone, Eq, PartialEq, Structural, Debug, PartialOrd, Ord)]
pub enum Channel {
    Cell1,
    Cell2,
    Cell3,
    Cell4,
    Cell5,
    Cell6,
    Cell7,
    Cell8,
    Cell9,
    Cell10,
    Cell11,
    Cell12,
    Cell13,
    Cell14,
    Cell15,
    Cell16,
    Cell17,
    Cell18,
    GPIO1,
    GPIO2,
    GPIO3,
    GPIO4,
    GPIO5,
    GPIO6,
    GPIO7,
    GPIO8,
    GPIO9,
    SecondReference,
}

/// Device type of the LTC6813.
#[derive(Copy, Clone, Debug)]
pub struct LTC6813 {}

impl DeviceTypes for LTC6813 {
    type CellSelection = CellSelection;

    type GPIOSelection = GPIOSelection;

    type Register = Register;

    type Channel = Channel;

    open spec fn spec_overlap_test_reg_1() -> Option<Register> {
        Some(Register::CellVoltageC)
    }

    open spec fn spec_overlap_test_reg_2() -> Option<Register> {
        Some(Register::CellVoltageE)
    }

    open spec fn spec_total_voltage_factor() -> u32 {
        30
    }

    open spec fn spec_reg_conf_b() -> Option<Register> {
        Some(Register::ConfigurationB)
    }

    fn cell_count() -> usize {
        18
    }

    fn gpio_count() -> usize {
        9
    }

    fn overlap_test_reg_1() -> (r: Option<Register>) {
        Some(Register::CellVoltageC)
    }

    fn overlap_test_reg_2() -> (r: Option<Register>) {
        Some(Register::CellVoltageE)
    }

    fn reg_status_a() -> Register {
        Register::StatusA
    }

    fn reg_status_b() -> Register {
        Register::StatusB
    }

    fn reg_conf_a() -> (r: Register) {
        Register::ConfigurationA
    }

    fn reg_conf_b() -> (r: Option<Register>) {
        Some(Register::ConfigurationB)
    }

    fn total_voltage_factor() -> (r: u32) {
        30
    }
}

impl<B, const L: usize> LTC681X<B, NoPolling, LTC6813, L> where B: SpiDevice {
    /// Creates a client instance for the LTC6813 variant.
    pub fn ltc6813(bus: B) -> Self {
        LTC681X::new(bus)
    }
}

impl ToCommandBitmap for CellSelection {
    open spec fn spec_bitmap(&self) -> u16 {
        match self {
            CellSelection::All => 0x0,
            CellSelection::Group1 => 0x1,
            CellSelection::Group2 => 0x2,
            CellSelection::Group3 => 0x3,
            CellSelection::Group4 => 0x4,
            CellSelection::Group5 => 0x5,
            CellSelection::Group6 => 0x6,
        }
    }

    fn to_bitmap(&self) -> (r: u16) {
        match self {
            CellSelection::All => 0x0,
            CellSelection::Group1 => 0x1,
            CellSelection::Group2 => 0x2,
            CellSelection::Group3 => 0x3,
            CellSelection::Group4 => 0x4,
            CellSelection::Group5 => 0x5,
            CellSelection::Group6 => 0x6,
        }
    }
}

impl ToCommandBitmap for GPIOSelection {
    open spec fn spec_bitmap(&self) -> u16 {
        match self {
            GPIOSelection::All => 0x0,
            GPIOSelection::Group1 => 0x1,
            GPIOSelection::Group2 => 0x2,
            GPIOSelection::Group3 => 0x3,
            GPIOSelection::Group4 => 0x4,
            GPIOSelection::Group5 => 0x5,
            GPIOSelection::Group6 => 0x6,
        }
    }

    fn to_bitmap(&self) -> (r: u16) {
        match self {
            GPIOSelection::All => 0x0,
            GPIOSelection::Group1 => 0x1,
            GPIOSelection::Group2 => 0x2,
            GPIOSelection::Group3 => 0x3,
            GPIOSelection::Group4 => 0x4,
            GPIOSelection::Group5 => 0x5,
            GPIOSelection::Group6 => 0x6,
        }
    }
}

impl ToFullCommand for Register {
    open spec fn spec_read_command(&self) -> u16 {
        match self {
            Register::CellVoltageA => 0x0004,
            Register::CellVoltageB => 0x0006,
            Register::CellVoltageC => 0x0008,
            Register::CellVoltageD => 0x000a,
            Register::CellVoltageE => 0x0009,
            Register::CellVoltageF => 0x000b,
            Register::AuxiliaryA => 0x000c,
            Register::AuxiliaryB => 0x000e,
            Register::AuxiliaryC => 0x000d,
            Register::AuxiliaryD => 0x000f,
            Register::StatusA => 0x0010,
            Register::StatusB => 0x0012,
            Register::ConfigurationA => 0x0002,
            Register::ConfigurationB => 0x0026,
        }
    }

    open spec fn spec_writable(&self) -> bool {
        self is ConfigurationA || self is ConfigurationB
    }

    open spec fn spec_write_command(&self) -> u16 {
        match self {
            Register::ConfigurationA => 0x0001,
            Register::ConfigurationB => 0x0024,
            _ => 0x0000,
        }
    }

    fn to_read_command(&self) -> (r: [u8; 4]) {
        let word: u16 = match self {
            Register::CellVoltageA => 0x0004,
            Register::CellVoltageB => 0x0006,
            Register::CellVoltageC => 0x0008,
            Register::CellVoltageD => 0x000a,
            Register::CellVoltageE => 0x0009,
            Register::CellVoltageF => 0x000b,
            Register::AuxiliaryA => 0x000c,
            Register::AuxiliaryB => 0x000e,
            Register::AuxiliaryC => 0x000d,
            Register::AuxiliaryD => 0x000f,
            Register::StatusA => 0x0010,
            Register::StatusB => 0x0012,
            Register::ConfigurationA => 0x0002,
            Register::ConfigurationB => 0x0026,
        };
        command_frame(word)
    }

    fn to_write_command(&self) -> (r: Result<[u8; 4], NoWriteCommandError>) {
        match self {
            Register::ConfigurationA => Ok(command_frame(0x0001)),
            Register::ConfigurationB => Ok(command_frame(0x0024)),
            _ => Err(NoWriteCommandError {}),
        }
    }
}

impl ToCommandTiming for CellSelection {
    open spec fn spec_conv_command_timing(&self, mode: ADCMode) -> CommandTime {
        match self {
            CellSelection::All => match mode {
                ADCMode::Fast => CommandTime { regular: 1121, alternative: 1296 },
                ADCMode::Normal => CommandTime { regular: 2343, alternative: 3041 },
                ADCMode::Filtered => CommandTime { regular: 201325, alternative: 4437 },
                ADCMode::Other => CommandTime { regular: 12816, alternative: 7230 },
            },
            CellSelection::Group1 | CellSelection::Group2 | CellSelection::Group3
                | CellSelection::Group4 | CellSelection::Group5 | CellSelection::Group6 => match mode {
                ADCMode::Fast => CommandTime { regular: 203, alternative: 232 },
                ADCMode::Normal => CommandTime { regular: 407, alternative: 523 },
                ADCMode::Filtered => CommandTime { regular: 33570, alternative: 756 },
                ADCMode::Other => CommandTime { regular: 2152, alternative: 1221 },
            },
        }
    }

    fn to_conv_command_timing(&self, mode: ADCMode) -> (r: CommandTime) {
        match self {
            CellSelection::All => match mode {
                ADCMode::Fast => CommandTime::new(1121, 1296),
                ADCMode::Normal => CommandTime::new(2343, 3041),
                ADCMode::Filtered => CommandTime::new(201325, 4437),
                ADCMode::Other => CommandTime::new(12816, 7230),
            },
            CellSelection::Group1 | CellSelection::Group2 | CellSelection::Group3
                | CellSelection::Group4 | CellSelection::Group5 | CellSelection::Group6 => match mode {
                ADCMode::Fast => CommandTime::new(203, 232),
                ADCMode::Normal => CommandTime::new(407, 523),
                ADCMode::Filtered => CommandTime::new(33570, 756),
                ADCMode::Other => CommandTime::new(2152, 1221),
            },
        }
    }
}

impl ToCommandTiming for GPIOSelection {
    open spec fn spec_conv_command_timing(&self, mode: ADCMode) -> CommandTime {
        match self {
            GPIOSelection::All => match mode {
                ADCMode::Fast => CommandTime { regular: 1825, alternative: 2116 },
                ADCMode::Normal => CommandTime { regular: 3862, alternative: 5025 },
                ADCMode::Filtered => CommandTime { regular: 335498, alternative: 7353 },
                ADCMode::Other => CommandTime { regular: 21316, alternative: 12007 },
            },
            GPIOSelection::Group1 | GPIOSelection::Group2 | GPIOSelection::Group3
                | GPIOSelection::Group4 => match mode {
                ADCMode::Fast => CommandTime { regular: 380, alternative: 439 },
                ADCMode::Normal => CommandTime { regular: 788, alternative: 1000 },
                ADCMode::Filtered => CommandTime { regular: 67100, alternative: 1500 },
                ADCMode::Other => CommandTime { regular: 4300, alternative: 24000 },
            },
            GPIOSelection::Group5 | GPIOSelection::Group6 => match mode {
                ADCMode::Fast => CommandTime { regular: 200, alternative: 229 },
                ADCMode::Normal => CommandTime { regular: 403, alternative: 520 },
                ADCMode::Filtered => CommandTime { regular: 34000, alternative: 753 },
                ADCMode::Other => CommandTime { regular: 2100, alternative: 1200 },
            },
        }
    }

    fn to_conv_command_timing(&self, mode: ADCMode) -> (r: CommandTime) {
        match self {
            GPIOSelection::All => match mode {
                ADCMode::Fast => CommandTime::new(1825, 2116),
                ADCMode::Normal => CommandTime::new(3862, 5025),
                ADCMode::Filtered => CommandTime::new(335498, 7353),
                ADCMode::Other => CommandTime::new(21316, 12007),
            },
            GPIOSelection::Group1 | GPIOSelection::Group2 | GPIOSelection::Group3
                | GPIOSelection::Group4 => match mode {
                ADCMode::Fast => CommandTime::new(380, 439),
                ADCMode::Normal => CommandTime::new(788, 1000),
                ADCMode::Filtered => CommandTime::new(67100, 1500),
                ADCMode::Other => CommandTime::new(4300, 24000),
            },
            GPIOSelection::Group5 | GPIOSelection::Group6 => match mode {
                ADCMode::Fast => CommandTime::new(200, 229),
                ADCMode::Normal => CommandTime::new(403, 520),
                ADCMode::Filtered => CommandTime::new(34000, 753),
                ADCMode::Other => CommandTime::new(2100, 1200),
            },
        }
    }
}

impl GroupedRegisterIndex for Register {
    open spec fn spec_index(&self) -> usize {
        match self {
            Register::CellVoltageA => 0,
            Register::CellVoltageB => 1,
            Register::CellVoltageC => 2,
            Register::CellVoltageD => 3,
            Register::CellVoltageE => 4,
            Register::CellVoltageF => 5,
            Register::AuxiliaryA => 0,
            Register::AuxiliaryB => 1,
            Register::AuxiliaryC => 2,
            Register::AuxiliaryD => 3,
            Register::StatusA => 0,
            Register::StatusB => 1,
            Register::ConfigurationA => 0,
            Register::ConfigurationB => 1,
        }
    }

    fn to_index(&self) -> (r: usize) {
        match self {
            Register::CellVoltageA => 0,
            Register::CellVoltageB => 1,
            Register::CellVoltageC => 2,
            Register::CellVoltageD => 3,
            Register::CellVoltageE => 4,
            Register::CellVoltageF => 5,
            Register::AuxiliaryA => 0,
            Register::AuxiliaryB => 1,
            Register::AuxiliaryC => 2,
            Register::AuxiliaryD => 3,
            Register::StatusA => 0,
            Register::StatusB => 1,
            Register::ConfigurationA => 0,
            Register::ConfigurationB => 1,
        }
    }
}

impl ChannelIndex for Channel {
    open spec fn spec_cell_index(&self) -> Option<usize> {
        match self {
            Channel::Cell1 => Some(0usize),
            Channel::Cell2 => Some(1usize),
            Channel::Cell3 => Some(2usize),
            Channel::Cell4 => Some(3usize),
            Channel::Cell5 => Some(4usize),
            Channel::Cell6 => Some(5usize),
            Channel::Cell7 => Some(6usize),
            Channel::Cell8 => Some(7usize),
            Channel::Cell9 => Some(8usize),
            Channel::Cell10 => Some(9usize),
            Channel::Cell11 => Some(10usize),
            Channel::Cell12 => Some(11usize),
            Channel::Cell13 => Some(12usize),
            Channel::Cell14 => Some(13usize),
            Channel::Cell15 => Some(14usize),
            Channel::Cell16 => Some(15usize),
            Channel::Cell17 => Some(16usize),
            Channel::Cell18 => Some(17usize),
            _ => None,
        }
    }

    open spec fn spec_gpio_index(&self) -> Option<usize> {
        match self {
            Channel::GPIO1 => Some(0usize),
            Channel::GPIO2 => Some(1usize),
            Channel::GPIO3 => Some(2usize),
            Channel::GPIO4 => Some(3usize),
            Channel::GPIO5 => Some(4usize),
            Channel::GPIO6 => Some(5usize),
            Channel::GPIO7 => Some(6usize),
            Channel::GPIO8 => Some(7usize),
            Channel::GPIO9 => Some(8usize),
            _ => None,
        }
    }

    fn to_cell_index(&self) -> (r: Option<usize>) {
        match self {
            Channel::Cell1 => Some(0),
            Channel::Cell2 => Some(1),
            Channel::Cell3 => Some(2),
            Channel::Cell4 => Some(3),
            Channel::Cell5 => Some(4),
            Channel::Cell6 => Some(5),
            Channel::Cell7 => Some(6),
            Channel::Cell8 => Some(7),
            Channel::Cell9 => Some(8),
            Channel::Cell10 => Some(9),
            Channel::Cell11 => Some(10),
            Channel::Cell12 => Some(11),
            Channel::Cell13 => Some(12),
            Channel::Cell14 => Some(13),
            Channel::Cell15 => Some(14),
            Channel::Cell16 => Some(15),
            Channel::Cell17 => Some(16),
            Channel::Cell18 => Some(17),
            _ => None,
        }
    }

    fn to_gpio_index(&self) -> (r: Option<usize>) {
        match self {
            Channel::GPIO1 => Some(0),
            Channel::GPIO2 => Some(1),
            Channel::GPIO3 => Some(2),
            Channel::GPIO4 => Some(3),
            Channel::GPIO5 => Some(4),
            Channel::GPIO6 => Some(5),
            Channel::GPIO7 => Some(6),
            Channel::GPIO8 => Some(7),
            Channel::GPIO9 => Some(8),
            _ => None,
        }
    }
}

impl From<Channel> for ChannelType {
    fn from(channel: Channel) -> (r: Self) {
        match channel {
            Channel::GPIO1 | Channel::GPIO2 | Channel::GPIO3 | Channel::GPIO4 | Channel::GPIO5
                | Channel::GPIO6 | Channel::GPIO7 | Channel::GPIO8 | Channel::GPIO9 => ChannelType::GPIO,
            Channel::SecondReference => ChannelType::Reference,
            _ => ChannelType::Cell,
        }
    }
}

impl vstd::std_specs::convert::FromSpecImpl<Channel> for ChannelType {
    open spec fn obeys_from_spec() -> bool {
        true
    }

    open spec fn from_spec(channel: Channel) -> Self {
        match channel {
            Channel::GPIO1 | Channel::GPIO2 | Channel::GPIO3 | Channel::GPIO4 | Channel::GPIO5
                | Channel::GPIO6 | Channel::GPIO7 | Channel::GPIO8 | Channel::GPIO9 => ChannelType::GPIO,
            Channel::SecondReference => ChannelType::Reference,
            _ => ChannelType::Cell,
        }
    }
}

impl RegisterAddress<Channel, Register> {
    /// Builds a register address of the LTC6813.
    pub fn ltc6813(channel: Channel, register: Register, slot: usize) -> (r: Self)
        requires
            slot < 3,
        ensures
            r.channel == channel,
            r.register == register,
            r.slot == slot,
    {
        RegisterAddress { channel, register, slot }
    }
}

/// Register locations of all 18 cells, in cell order: three slots per cell
/// voltage register group.
pub open spec fn spec_cell_locations_all() -> Seq<RegisterAddress<Channel, Register>> {
    seq![
        RegisterAddress { channel: Channel::Cell1, register: Register::CellVoltageA, slot: 0 },
        RegisterAddress { channel: Channel::Cell2, register: Register::CellVoltageA, slot: 1 },
        RegisterAddress { channel: Channel::Cell3, register: Register::CellVoltageA, slot: 2 },
        RegisterAddress { channel: Channel::Cell4, register: Register::CellVoltageB, slot: 0 },
        RegisterAddress { channel: Channel::Cell5, register: Register::CellVoltageB, slot: 1 },
        RegisterAddress { channel: Channel::Cell6, register: Register::CellVoltageB, slot: 2 },
        RegisterAddress { channel: Channel::Cell7, register: Register::CellVoltageC, slot: 0 },
        RegisterAddress { channel: Channel::Cell8, register: Register::CellVoltageC, slot: 1 },
        RegisterAddress { channel: Channel::Cell9, register: Register::CellVoltageC, slot: 2 },
        RegisterAddress { channel: Channel::Cell10, register: Register::CellVoltageD, slot: 0 },
        RegisterAddress { channel: Channel::Cell11, register: Register::CellVoltageD, slot: 1 },
        RegisterAddress { channel: Channel::Cell12, register: Register::CellVoltageD, slot: 2 },
        RegisterAddress { channel: Channel::Cell13, register: Register::CellVoltageE, slot: 0 },
        RegisterAddress { channel: Channel::Cell14, register: Register::CellVoltageE, slot: 1 },
        RegisterAddress { channel: Channel::Cell15, register: Register::CellVoltageE, slot: 2 },
        RegisterAddress { channel: Channel::Cell16, register: Register::CellVoltageF, slot: 0 },
        RegisterAddress { channel: Channel::Cell17, register: Register::CellVoltageF, slot: 1 },
        RegisterAddress { channel: Channel::Cell18, register: Register::CellVoltageF, slot: 2 },
    ]
}

/// Register locations of one cell group: the three cells converted together.
pub open spec fn spec_cell_locations_group(group: CellSelection) -> Seq<
    RegisterAddress<Channel, Register>,
> {
    match group {
        CellSelection::All => spec_cell_locations_all(),
        CellSelection::Group1 => seq![
            RegisterAddress { channel: Channel::Cell1, register: Register::CellVoltageA, slot: 0 },
            RegisterAddress { channel: Channel::Cell7, register: Register::CellVoltageC, slot: 0 },
            RegisterAddress { channel: Channel::Cell13, register: Register::CellVoltageE, slot: 0 },
        ],
        CellSelection::Group2 => seq![
            RegisterAddress { channel: Channel::Cell2, register: Register::CellVoltageA, slot: 1 },
            RegisterAddress { channel: Channel::Cell8, register: Register::CellVoltageC, slot: 1 },
            RegisterAddress { channel: Channel::Cell14, register: Register::CellVoltageE, slot: 1 },
        ],
        CellSelection::Group3 => seq![
            RegisterAddress { channel: Channel::Cell3, register: Register::CellVoltageA, slot: 2 },
            RegisterAddress { channel: Channel::Cell9, register: Register::CellVoltageC, slot: 2 },
            RegisterAddress { channel: Channel::Cell15, register: Register::CellVoltageE, slot: 2 },
        ],
        CellSelection::Group4 => seq![
            RegisterAddress { channel: Channel::Cell4, register: Register::CellVoltageB, slot: 0 },
            RegisterAddress { channel: Channel::Cell10, register: Register::CellVoltageD, slot: 0 },
            RegisterAddress { channel: Channel::Cell16, register: Register::CellVoltageF, slot: 0 },
        ],
        CellSelection::Group5 => seq![
            RegisterAddress { channel: Channel::Cell5, register: Register::CellVoltageB, slot: 1 },
            RegisterAddress { channel: Channel::Cell11, register: Register::CellVoltageD, slot: 1 },
            RegisterAddress { channel: Channel::Cell17, register: Register::CellVoltageF, slot: 1 },
        ],
        CellSelection::Group6 => seq![
            RegisterAddress { channel: Channel::Cell6, register: Register::CellVoltageB, slot: 2 },
            RegisterAddress { channel: Channel::Cell12, register: Register::CellVoltageD, slot: 2 },
            RegisterAddress { channel: Channel::Cell18, register: Register::CellVoltageF, slot: 2 },
        ],
    }
}

impl RegisterLocator<Channel, Register> for CellSelection {
    open spec fn spec_locations(&self) -> Seq<RegisterAddress<Channel, Register>> {
        spec_cell_locations_group(*self)
    }

    fn get_locations(&self) -> (r: Vec<RegisterAddress<Channel, Register>>) {
        let mut r: Vec<RegisterAddress<Channel, Register>> = Vec::new();
        match self {
            CellSelection::All => {
                r.push(RegisterAddress::ltc6813(Channel::Cell1, Register::CellVoltageA, 0));
                r.push(RegisterAddress::ltc6813(Channel::Cell2, Register::CellVoltageA, 1));
                r.push(RegisterAddress::ltc6813(Channel::Cell3, Register::CellVoltageA, 2));
                r.push(RegisterAddress::ltc6813(Channel::Cell4, Register::CellVoltageB, 0));
                r.push(RegisterAddress::ltc6813(Channel::Cell5, Register::CellVoltageB, 1));
                r.push(RegisterAddress::ltc6813(Channel::Cell6, Register::CellVoltageB, 2));
                r.push(RegisterAddress::ltc6813(Channel::Cell7, Register::CellVoltageC, 0));
                r.push(RegisterAddress::ltc6813(Channel::Cell8, Register::CellVoltageC, 1));
                r.push(RegisterAddress::ltc6813(Channel::Cell9, Register::CellVoltageC, 2));
                r.push(RegisterAddress::ltc6813(Channel::Cell10, Register::CellVoltageD, 0));
                r.push(RegisterAddress::ltc6813(Channel::Cell11, Register::CellVoltageD, 1));
                r.push(RegisterAddress::ltc6813(Channel::Cell12, Register::CellVoltageD, 2));
                r.push(RegisterAddress::ltc6813(Channel::Cell13, Register::CellVoltageE, 0));
                r.push(RegisterAddress::ltc6813(Channel::Cell14, Register::CellVoltageE, 1));
                r.push(RegisterAddress::ltc6813(Channel::Cell15, Register::CellVoltageE, 2));
                r.push(RegisterAddress::ltc6813(Channel::Cell16, Register::CellVoltageF, 0));
                r.push(RegisterAddress::ltc6813(Channel::Cell17, Register::CellVoltageF, 1));
                r.push(RegisterAddress::ltc6813(Channel::Cell18, Register::CellVoltageF, 2));
            },
            CellSelection::Group1 => {
                r.push(RegisterAddress::ltc6813(Channel::Cell1, Register::CellVoltageA, 0));
                r.push(RegisterAddress::ltc6813(Channel::Cell7, Register::CellVoltageC, 0));
                r.push(RegisterAddress::ltc6813(Channel::Cell13, Register::CellVoltageE, 0));
            },
            CellSelection::Group2 => {
                r.push(RegisterAddress::ltc6813(Channel::Cell2, Register::CellVoltageA, 1));
                r.push(RegisterAddress::ltc6813(Channel::Cell8, Register::CellVoltageC, 1));
                r.push(RegisterAddress::ltc6813(Channel::Cell14, Register::CellVoltageE, 1));
            },
            CellSelection::Group3 => {
                r.push(RegisterAddress::ltc6813(Channel::Cell3, Register::CellVoltageA, 2));
                r.push(RegisterAddress::ltc6813(Channel::Cell9, Register::CellVoltageC, 2));
                r.push(RegisterAddress::ltc6813(Channel::Cell15, Register::CellVoltageE, 2));
            },
            CellSelection::Group4 => {
                r.push(RegisterAddress::ltc6813(Channel::Cell4, Register::CellVoltageB, 0));
                r.push(RegisterAddress::ltc6813(Channel::Cell10, Register::CellVoltageD, 0));
                r.push(RegisterAddress::ltc6813(Channel::Cell16, Register::CellVoltageF, 0));
            },
            CellSelection::Group5 => {
                r.push(RegisterAddress::ltc6813(Channel::Cell5, Register::CellVoltageB, 1));
                r.push(RegisterAddress::ltc6813(Channel::Cell11, Register::CellVoltageD, 1));
                r.push(RegisterAddress::ltc6813(Channel::Cell17, Register::CellVoltageF, 1));
            },
            CellSelection::Group6 => {
                r.push(RegisterAddress::ltc6813(Channel::Cell6, Register::CellVoltageB, 2));
                r.push(RegisterAddress::ltc6813(Channel::Cell12, Register::CellVoltageD, 2));
                r.push(RegisterAddress::ltc6813(Channel::Cell18, Register::CellVoltageF, 2));
            },
        }
        proof {
            assert(r@ =~= self.spec_locations());
        }
        r
    }
}

/// Register locations of one GPIO group, including the second reference.
pub open spec fn spec_gpio_locations_group(group: GPIOSelection) -> Seq<
    RegisterAddress<Channel, Register>,
> {
    match group {
        GPIOSelection::All => seq![
            RegisterAddress { channel: Channel::GPIO1, register: Register::AuxiliaryA, slot: 0 },
            RegisterAddress { channel: Channel::GPIO2, register: Register::AuxiliaryA, slot: 1 },
            RegisterAddress { channel: Channel::GPIO3, register: Register::AuxiliaryA, slot: 2 },
            RegisterAddress { channel: Channel::GPIO4, register: Register::AuxiliaryB, slot: 0 },
            RegisterAddress { channel: Channel::GPIO5, register: Register::AuxiliaryB, slot: 1 },
            RegisterAddress { channel: Channel::GPIO6, register: Register::AuxiliaryC, slot: 0 },
            RegisterAddress { channel: Channel::GPIO7, register: Register::AuxiliaryC, slot: 1 },
            RegisterAddress { channel: Channel::GPIO8, register: Register::AuxiliaryC, slot: 2 },
            RegisterAddress { channel: Channel::GPIO9, register: Register::AuxiliaryD, slot: 0 },
            RegisterAddress {
                channel: Channel::SecondReference,
                register: Register::AuxiliaryB,
                slot: 2,
            },
        ],
        GPIOSelection::Group1 => seq![
            RegisterAddress { channel: Channel::GPIO1, register: Register::AuxiliaryA, slot: 0 },
            RegisterAddress { channel: Channel::GPIO6, register: Register::AuxiliaryC, slot: 0 },
        ],
        GPIOSelection::Group2 => seq![
            RegisterAddress { channel: Channel::GPIO2, register: Register::AuxiliaryA, slot: 1 },
            RegisterAddress { channel: Channel::GPIO7, register: Register::AuxiliaryC, slot: 1 },
        ],
        GPIOSelection::Group3 => seq![
            RegisterAddress { channel: Channel::GPIO3, register: Register::AuxiliaryA, slot: 2 },
            RegisterAddress { channel: Channel::GPIO8, register: Register::AuxiliaryC, slot: 2 },
        ],
        GPIOSelection::Group4 => seq![
            RegisterAddress { channel: Channel::GPIO4, register: Register::AuxiliaryB, slot: 0 },
            RegisterAddress { channel: Channel::GPIO9, register: Register::AuxiliaryD, slot: 0 },
        ],
        GPIOSelection::Group5 => seq![
            RegisterAddress { channel: Channel::GPIO5, register: Register::AuxiliaryB, slot: 1 },
        ],
        GPIOSelection::Group6 => seq![
            RegisterAddress {
                channel: Channel::SecondReference,
                register: Register::AuxiliaryB,
                slot: 2,
            },
        ],
    }
}

impl RegisterLocator<Channel, Register> for GPIOSelection {
    open spec fn spec_locations(&self) -> Seq<RegisterAddress<Channel, Register>> {
        spec_gpio_locations_group(*self)
    }

    fn get_locations(&self) -> (r: Vec<RegisterAddress<Channel, Register>>) {
        let mut r: Vec<RegisterAddress<Channel, Register>> = Vec::new();
        match self {
            GPIOSelection::All => {
                r.push(RegisterAddress::ltc6813(Channel::GPIO1, Register::AuxiliaryA, 0));
                r.push(RegisterAddress::ltc6813(Channel::GPIO2, Register::AuxiliaryA, 1));
                r.push(RegisterAddress::ltc6813(Channel::GPIO3, Register::AuxiliaryA, 2));
                r.push(RegisterAddress::ltc6813(Channel::GPIO4, Register::AuxiliaryB, 0));
                r.push(RegisterAddress::ltc6813(Channel::GPIO5, Register::AuxiliaryB, 1));
                r.push(RegisterAddress::ltc6813(Channel::GPIO6, Register::AuxiliaryC, 0));
                r.push(RegisterAddress::ltc6813(Channel::GPIO7, Register::AuxiliaryC, 1));
                r.push(RegisterAddress::ltc6813(Channel::GPIO8, Register::AuxiliaryC, 2));
                r.push(RegisterAddress::ltc6813(Channel::GPIO9, Register::AuxiliaryD, 0));
                r.push(RegisterAddress::ltc6813(Channel::SecondReference, Register::AuxiliaryB, 2));
            },
            GPIOSelection::Group1 => {
                r.push(RegisterAddress::ltc6813(Channel::GPIO1, Register::AuxiliaryA, 0));
                r.push(RegisterAddress::ltc6813(Channel::GPIO6, Register::AuxiliaryC, 0));
            },
            GPIOSelection::Group2 => {
                r.push(RegisterAddress::ltc6813(Channel::GPIO2, Register::AuxiliaryA, 1));
                r.push(RegisterAddress::ltc6813(Channel::GPIO7, Register::AuxiliaryC, 1));
            },
            GPIOSelection::Group3 => {
                r.push(RegisterAddress::ltc6813(Channel::GPIO3, Register::AuxiliaryA, 2));
                r.push(RegisterAddress::ltc6813(Channel::GPIO8, Register::AuxiliaryC, 2));
            },
            GPIOSelection::Group4 => {
                r.push(RegisterAddress::ltc6813(Channel::GPIO4, Register::AuxiliaryB, 0));
                r.push(RegisterAddress::ltc6813(Channel::GPIO9, Register::AuxiliaryD, 0));
            },
            GPIOSelection::Group5 => {
                r.push(RegisterAddress::ltc6813(Channel::GPIO5, Register::AuxiliaryB, 1));
            },
            GPIOSelection::Group6 => {
                r.push(RegisterAddress::ltc6813(Channel::SecondReference, Register::AuxiliaryB, 2));
            },
        }
        proof {
            assert(r@ =~= self.spec_locations());
        }
        r
    }
}

} // verus!
