//! Device-specific types of the LTC6811: 12 cells and 5 GPIO channels.
use crate::monitor::ADCMode;
use crate::monitor::ChannelIndex;
use crate::monitor::ChannelType;
use crate::monitor::CommandTime;
use crate::monitor::DeviceTypes;
use crate::monitor::GroupedRegisterIndex;
use crate::monitor::LTC681X;
use crate::monitor::NoPolling;
use crate::monitor::NoWriteCommandError;
use crate::monitor::RegisterAddress;
use crate::monitor::RegisterLocator;
use crate::monitor::ToCommandBitmap;
use crate::monitor::ToCommandTiming;
use crate::monitor::ToFullCommand;
use crate::monitor::command_frame;
use crate::spi::SpiDevice;
use vstd::prelude::*;

verus! {

/// Cell selection for the ADC conversion.
#[derive(Copy, Clone, Eq, PartialEq, Structural, Debug)]
pub enum CellSelection {
    /// All cells.
    All,
    /// Cells 1 and 7.
    Pair1,
    /// Cells 2 and 8.
    Pair2,
    /// Cells 3 and 9.
    Pair3,
    /// Cells 4 and 10.
    Pair4,
    /// Cells 5 and 11.
    Pair5,
    /// Cells 6 and 12.
    Pair6,
}

/// GPIO selection for the ADC conversion.
#[derive(Copy, Clone, Eq, PartialEq, Structural, Debug)]
pub enum GPIOSelection {
    /// GPIO 1 to 5 and the second reference.
    All,
    GPIO1,
    GPIO2,
    GPIO3,
    GPIO4,
    GPIO5,
    SecondReference,
}

/// Available registers.
#[derive(Copy, Clone, Eq, PartialEq, Structural, Debug)]
pub enum Register {
    CellVoltageA,
    CellVoltageB,
    CellVoltageC,
    CellVoltageD,
    AuxiliaryA,
    AuxiliaryB,
    StatusA,
    StatusB,
    ConfigurationA,
    ConfigurationB,
}

/// All conversion channels.
#[derive(Copy, Clone, Eq, PartialEq, Structural, Debug)]
pub enum Channel {
    Cell1,
    Cell2,
    Cell3,
    Cell4,
    Cell5,
    Cell6,
    Cell7,
    Cell8,
    Cell9,
    Cell10,
    Cell11,
    Cell12,
    GPIO1,
    GPIO2,
    GPIO3,
    GPIO4,
    GPIO5,
    SecondReference,
}

/// Device type of the LTC6811.
#[derive(Copy, Clone, Debug)]
pub struct LTC6811 {}

impl DeviceTypes for LTC6811 {
    type CellSelection = CellSelection;

    type GPIOSelection = GPIOSelection;

    type Register = Register;

    type Channel = Channel;

    open spec fn spec_overlap_test_reg_1() -> Option<Register> {
        Some(Register::CellVoltageC)
    }

    open spec fn spec_overlap_test_reg_2() -> Option<Register> {
        None
    }

    open spec fn spec_total_voltage_factor() -> u32 {
        30
    }

    open spec fn spec_reg_conf_b() -> Option<Register> {
        Some(Register::ConfigurationB)
    }

    fn cell_count() -> usize {
        12
    }

    fn gpio_count() -> usize {
        5
    }

    fn overlap_test_reg_1() -> (r: Option<Register>) {
        Some(Register::CellVoltageC)
    }

    fn overlap_test_reg_2() -> (r: Option<Register>) {
        None
    }

    fn reg_status_a() -> Register {
        Register::StatusA
    }

    fn reg_status_b() -> Register {
        Register::StatusB
    }

    fn reg_conf_a() -> (r: Register) {
        Register::ConfigurationA
    }

    fn reg_conf_b() -> (r: Option<Register>) {
        Some(Register::ConfigurationB)
    }

    fn total_voltage_factor() -> (r: u32) {
        30
    }
}

impl<B, const L: usize> LTC681X<B, NoPolling, LTC6811, L> where B: SpiDevice {
    /// Creates a client instance for the LTC6811 variant.
    pub fn ltc6811(bus: B) -> Self {
        LTC681X::new(bus)
    }
}

impl ToCommandBitmap for CellSelection {
    open spec fn spec_bitmap(&self) -> u16 {
        match self {
            CellSelection::All => 0x0,
            CellSelection::Pair1 => 0x1,
            CellSelection::Pair2 => 0x2,
            CellSelection::Pair3 => 0x3,
            CellSelection::Pair4 => 0x4,
            CellSelection::Pair5 => 0x5,
            CellSelection::Pair6 => 0x6,
        }
    }

    fn to_bitmap(&self) -> (r: u16) {
        match self {
            CellSelection::All => 0x0,
            CellSelection::Pair1 => 0x1,
            CellSelection::Pair2 => 0x2,
            CellSelection::Pair3 => 0x3,
            CellSelection::Pair4 => 0x4,
            CellSelection::Pair5 => 0x5,
            CellSelection::Pair6 => 0x6,
        }
    }
}

impl ToCommandBitmap for GPIOSelection {
    open spec fn spec_bitmap(&self) -> u16 {
        match self {
            GPIOSelection::All => 0x0,
            GPIOSelection::GPIO1 => 0x1,
            GPIOSelection::GPIO2 => 0x2,
            GPIOSelection::GPIO3 => 0x3,
            GPIOSelection::GPIO4 => 0x4,
            GPIOSelection::GPIO5 => 0x5,
            GPIOSelection::SecondReference => 0x6,
        }
    }

    fn to_bitmap(&self) -> (r: u16) {
        match self {
            GPIOSelection::All => 0x0,
            GPIOSelection::GPIO1 => 0x1,
            GPIOSelection::GPIO2 => 0x2,
            GPIOSelection::GPIO3 => 0x3,
            GPIOSelection::GPIO4 => 0x4,
            GPIOSelection::GPIO5 => 0x5,
            GPIOSelection::SecondReference => 0x6,
        }
    }
}

impl ToFullCommand for Register {
    open spec fn spec_read_command(&self) -> u16 {
        match self {
            Register::CellVoltageA => 0x0004,
            Register::CellVoltageB => 0x0006,
            Register::CellVoltageC => 0x0008,
            Register::CellVoltageD => 0x000a,
            Register::AuxiliaryA => 0x000c,
            Register::AuxiliaryB => 0x000e,
            Register::StatusA => 0x0010,
            Register::StatusB => 0x0012,
            Register::ConfigurationA => 0x0002,
            Register::ConfigurationB => 0x0026,
        }
    }

    open spec fn spec_writable(&self) -> bool {
        self is ConfigurationA || self is ConfigurationB
    }

    open spec fn spec_write_command(&self) -> u16 {
        match self {
            Register::ConfigurationA => 0x0001,
            Register::ConfigurationB => 0x0024,
            _ => 0x0000,
        }
    }

    fn to_read_command(&self) -> (r: [u8; 4]) {
        let word: u16 = match self {
            Register::CellVoltageA => 0x0004,
            Register::CellVoltageB => 0x0006,
            Register::CellVoltageC => 0x0008,
            Register::CellVoltageD => 0x000a,
            Register::AuxiliaryA => 0x000c,
            Register::AuxiliaryB => 0x000e,
            Register::StatusA => 0x0010,
            Register::StatusB => 0x0012,
            Register::ConfigurationA => 0x0002,
            Register::ConfigurationB => 0x0026,
        };
        command_frame(word)
    }

    fn to_write_command(&self) -> (r: Result<[u8; 4], NoWriteCommandError>) {
        match self {
            Register::ConfigurationA => Ok(command_frame(0x0001)),
            Register::ConfigurationB => Ok(command_frame(0x0024)),
            _ => Err(NoWriteCommandError {}),
        }
    }
}

impl ToCommandTiming for CellSelection {
    open spec fn spec_conv_command_timing(&self, mode: ADCMode) -> CommandTime {
        match self {
            CellSelection::All => match mode {
                ADCMode::Fast => CommandTime { regular: 1113, alternative: 1288 },
                ADCMode::Normal => CommandTime { regular: 2335, alternative: 3033 },
                ADCMode::Filtered => CommandTime { regular: 201317, alternative: 4430 },
                ADCMode::Other => CommandTime { regular: 12808, alternative: 7222 },
            },
            CellSelection::Pair1 | CellSelection::Pair2 | CellSelection::Pair3
                | CellSelection::Pair4 | CellSelection::Pair5 | CellSelection::Pair6 => match mode {
                ADCMode::Fast => CommandTime { regular: 201, alternative: 230 },
                ADCMode::Normal => CommandTime { regular: 405, alternative: 521 },
                ADCMode::Filtered => CommandTime { regular: 33568, alternative: 754 },
                ADCMode::Other => CommandTime { regular: 2150, alternative: 1219 },
            },
        }
    }

    fn to_conv_command_timing(&self, mode: ADCMode) -> (r: CommandTime) {
        match self {
            CellSelection::All => match mode {
                ADCMode::Fast => CommandTime::new(1113, 1288),
                ADCMode::Normal => CommandTime::new(2335, 3033),
                ADCMode::Filtered => CommandTime::new(201317, 4430),
                ADCMode::Other => CommandTime::new(12808, 7222),
            },
            CellSelection::Pair1 | CellSelection::Pair2 | CellSelection::Pair3
                | CellSelection::Pair4 | CellSelection::Pair5 | CellSelection::Pair6 => match mode {
                ADCMode::Fast => CommandTime::new(201, 230),
                ADCMode::Normal => CommandTime::new(405, 521),
                ADCMode::Filtered => CommandTime::new(33568, 754),
                ADCMode::Other => CommandTime::new(2150, 1219),
            },
        }
    }
}

impl ToCommandTiming for GPIOSelection {
    open spec fn spec_conv_command_timing(&self, mode: ADCMode) -> CommandTime {
        match self {
            GPIOSelection::All => match mode {
                ADCMode::Fast => CommandTime { regular: 1113, alternative: 1288 },
                ADCMode::Normal => CommandTime { regular: 2335, alternative: 3033 },
                ADCMode::Filtered => CommandTime { regular: 201317, alternative: 4430 },
                ADCMode::Other => CommandTime { regular: 12808, alternative: 7222 },
            },
            GPIOSelection::GPIO1 | GPIOSelection::GPIO2 | GPIOSelection::GPIO3
                | GPIOSelection::GPIO4 | GPIOSelection::GPIO5 | GPIOSelection::SecondReference => match mode {
                ADCMode::Fast => CommandTime { regular: 200, alternative: 229 },
                ADCMode::Normal => CommandTime { regular: 403, alternative: 520 },
                ADCMode::Filtered => CommandTime { regular: 34000, alternative: 753 },
                ADCMode::Other => CommandTime { regular: 2100, alternative: 1200 },
            },
        }
    }

    fn to_conv_command_timing(&self, mode: ADCMode) -> (r: CommandTime) {
        match self {
            GPIOSelection::All => match mode {
                ADCMode::Fast => CommandTime::new(1113, 1288),
                ADCMode::Normal => CommandTime::new(2335, 3033),
                ADCMode::Filtered => CommandTime::new(201317, 4430),
                ADCMode::Other => CommandTime::new(12808, 7222),
            },
            GPIOSelection::GPIO1 | GPIOSelection::GPIO2 | GPIOSelection::GPIO3
                | GPIOSelection::GPIO4 | GPIOSelection::GPIO5 | GPIOSelection::SecondReference => match mode {
                ADCMode::Fast => CommandTime::new(200, 229),
                ADCMode::Normal => CommandTime::new(403, 520),
                ADCMode::Filtered => CommandTime::new(34000, 753),
                ADCMode::Other => CommandTime::new(2100, 1200),
            },
        }
    }
}

impl GroupedRegisterIndex for Register {
    open spec fn spec_index(&self) -> usize {
        match self {
            Register::CellVoltageA => 0,
            Register::CellVoltageB => 1,
            Register::CellVoltageC => 2,
            Register::CellVoltageD => 3,
            Register::AuxiliaryA => 0,
            Register::AuxiliaryB => 1,
            Register::StatusA => 0,
            Register::StatusB => 1,
            Register::ConfigurationA => 0,
            Register::ConfigurationB => 1,
        }
    }

    fn to_index(&self) -> (r: usize) {
        match self {
            Register::CellVoltageA => 0,
            Register::CellVoltageB => 1,
            Register::CellVoltageC => 2,
            Register::CellVoltageD => 3,
            Register::AuxiliaryA => 0,
            Register::AuxiliaryB => 1,
            Register::StatusA => 0,
            Register::StatusB => 1,
            Register::ConfigurationA => 0,
            Register::ConfigurationB => 1,
        }
    }
}

impl ChannelIndex for Channel {
    open spec fn spec_cell_index(&self) -> Option<usize> {
        match self {
            Channel::Cell1 => Some(0usize),
            Channel::Cell2 => Some(1usize),
            Channel::Cell3 => Some(2usize),
            Channel::Cell4 => Some(3usize),
            Channel::Cell5 => Some(4usize),
            Channel::Cell6 => Some(5usize),
            Channel::Cell7 => Some(6usize),
            Channel::Cell8 => Some(7usize),
            Channel::Cell9 => Some(8usize),
            Channel::Cell10 => Some(9usize),
            Channel::Cell11 => Some(10usize),
            Channel::Cell12 => Some(11usize),
            _ => None,
        }
    }

    open spec fn spec_gpio_index(&self) -> Option<usize> {
        match self {
            Channel::GPIO1 => Some(0usize),
            Channel::GPIO2 => Some(1usize),
            Channel::GPIO3 => Some(2usize),
            Channel::GPIO4 => Some(3usize),
            Channel::GPIO5 => Some(4usize),
            _ => None,
        }
    }

    fn to_cell_index(&self) -> (r: Option<usize>) {
        match self {
            Channel::Cell1 => Some(0),
            Channel::Cell2 => Some(1),
            Channel::Cell3 => Some(2),
            Channel::Cell4 => Some(3),
            Channel::Cell5 => Some(4),
            Channel::Cell6 => Some(5),
            Channel::Cell7 => Some(6),
            Channel::Cell8 => Some(7),
            Channel::Cell9 => Some(8),
            Channel::Cell10 => Some(9),
            Channel::Cell11 => Some(10),
            Channel::Cell12 => Some(11),
            _ => None,
        }
    }

    fn to_gpio_index(&self) -> (r: Option<usize>) {
        match self {
            Channel::GPIO1 => Some(0),
            Channel::GPIO2 => Some(1),
            Channel::GPIO3 => Some(2),
            Channel::GPIO4 => Some(3),
            Channel::GPIO5 => Some(4),
            _ => None,
        }
    }
}

impl From<Channel> for ChannelType {
    fn from(channel: Channel) -> (r: Self) {
        match channel {
            Channel::GPIO1 | Channel::GPIO2 | Channel::GPIO3 | Channel::GPIO4 | Channel::GPIO5 => ChannelType::GPIO,
            Channel::SecondReference => ChannelType::Reference,
            _ => ChannelType::Cell,
        }
    }
}

impl vstd::std_specs::convert::FromSpecImpl<Channel> for ChannelType {
    open spec fn obeys_from_spec() -> bool {
        true
    }

    open spec fn from_spec(channel: Channel) -> Self {
        match channel {
            Channel::GPIO1 | Channel::GPIO2 | Channel::GPIO3 | Channel::GPIO4 | Channel::GPIO5 => ChannelType::GPIO,
            Channel::SecondReference => ChannelType::Reference,
            _ => ChannelType::Cell,
        }
    }
}

impl RegisterAddress<Channel, Register> {
    /// Builds a register address of the LTC6811.
    pub fn ltc6811(channel: Channel, register: Register, slot: usize) -> (r: Self)
        requires
            slot < 3,
        ensures
            r.channel == channel,
            r.register == register,
            r.slot == slot,
    {
        RegisterAddress { channel, register, slot }
    }
}

/// Register locations of all 12 cells, in cell order.
pub open spec fn spec_cell_locations_all() -> Seq<RegisterAddress<Channel, Register>> {
    seq![
        RegisterAddress { channel: Channel::Cell1, register: Register::CellVoltageA, slot: 0 },
        RegisterAddress { channel: Channel::Cell2, register: Register::CellVoltageA, slot: 1 },
        RegisterAddress { channel: Channel::Cell3, register: Register::CellVoltageA, slot: 2 },
        RegisterAddress { channel: Channel::Cell4, register: Register::CellVoltageB, slot: 0 },
        RegisterAddress { channel: Channel::Cell5, register: Register::CellVoltageB, slot: 1 },
        RegisterAddress { channel: Channel::Cell6, register: Register::CellVoltageB, slot: 2 },
        RegisterAddress { channel: Channel::Cell7, register: Register::CellVoltageC, slot: 0 },
        RegisterAddress { channel: Channel::Cell8, register: Register::CellVoltageC, slot: 1 },
        RegisterAddress { channel: Channel::Cell9, register: Register::CellVoltageC, slot: 2 },
        RegisterAddress { channel: Channel::Cell10, register: Register::CellVoltageD, slot: 0 },
        RegisterAddress { channel: Channel::Cell11, register: Register::CellVoltageD, slot: 1 },
        RegisterAddress { channel: Channel::Cell12, register: Register::CellVoltageD, slot: 2 },
    ]
}

/// Register locations of one cell pair: the two cells converted together.
pub open spec fn spec_cell_locations_group(group: CellSelection) -> Seq<
    RegisterAddress<Channel, Register>,
> {
    match group {
        CellSelection::All => spec_cell_locations_all(),
        CellSelection::Pair1 => seq![
            RegisterAddress { channel: Channel::Cell1, register: Register::CellVoltageA, slot: 0 },
            RegisterAddress { channel: Channel::Cell7, register: Register::CellVoltageC, slot: 0 },
        ],
        CellSelection::Pair2 => seq![
            RegisterAddress { channel: Channel::Cell2, register: Register::CellVoltageA, slot: 1 },
            RegisterAddress { channel: Channel::Cell8, register: Register::CellVoltageC, slot: 1 },
        ],
        CellSelection::Pair3 => seq![
            RegisterAddress { channel: Channel::Cell3, register: Register::CellVoltageA, slot: 2 },
            RegisterAddress { channel: Channel::Cell9, register: Register::CellVoltageC, slot: 2 },
        ],
        CellSelection::Pair4 => seq![
            RegisterAddress { channel: Channel::Cell4, register: Register::CellVoltageB, slot: 0 },
            RegisterAddress { channel: Channel::Cell10, register: Register::CellVoltageD, slot: 0 },
        ],
        CellSelection::Pair5 => seq![
            RegisterAddress { channel: Channel::Cell5, register: Register::CellVoltageB, slot: 1 },
            RegisterAddress { channel: Channel::Cell11, register: Register::CellVoltageD, slot: 1 },
        ],
        CellSelection::Pair6 => seq![
            RegisterAddress { channel: Channel::Cell6, register: Register::CellVoltageB, slot: 2 },
            RegisterAddress { channel: Channel::Cell12, register: Register::CellVoltageD, slot: 2 },
        ],
    }
}

impl RegisterLocator<Channel, Register> for CellSelection {
    open spec fn spec_locations(&self) -> Seq<RegisterAddress<Channel, Register>> {
        spec_cell_locations_group(*self)
    }

    fn get_locations(&self) -> (r: Vec<RegisterAddress<Channel, Register>>) {
        let mut r: Vec<RegisterAddress<Channel, Register>> = Vec::new();
        match self {
            CellSelection::All => {
                r.push(RegisterAddress::ltc6811(Channel::Cell1, Register::CellVoltageA, 0));
                r.push(RegisterAddress::ltc6811(Channel::Cell2, Register::CellVoltageA, 1));
                r.push(RegisterAddress::ltc6811(Channel::Cell3, Register::CellVoltageA, 2));
                r.push(RegisterAddress::ltc6811(Channel::Cell4, Register::CellVoltageB, 0));
                r.push(RegisterAddress::ltc6811(Channel::Cell5, Register::CellVoltageB, 1));
                r.push(RegisterAddress::ltc6811(Channel::Cell6, Register::CellVoltageB, 2));
                r.push(RegisterAddress::ltc6811(Channel::Cell7, Register::CellVoltageC, 0));
                r.push(RegisterAddress::ltc6811(Channel::Cell8, Register::CellVoltageC, 1));
                r.push(RegisterAddress::ltc6811(Channel::Cell9, Register::CellVoltageC, 2));
                r.push(RegisterAddress::ltc6811(Channel::Cell10, Register::CellVoltageD, 0));
                r.push(RegisterAddress::ltc6811(Channel::Cell11, Register::CellVoltageD, 1));
                r.push(RegisterAddress::ltc6811(Channel::Cell12, Register::CellVoltageD, 2));
            },
            CellSelection::Pair1 => {
                r.push(RegisterAddress::ltc6811(Channel::Cell1, Register::CellVoltageA, 0));
                r.push(RegisterAddress::ltc6811(Channel::Cell7, Register::CellVoltageC, 0));
            },
            CellSelection::Pair2 => {
                r.push(RegisterAddress::ltc6811(Channel::Cell2, Register::CellVoltageA, 1));
                r.push(RegisterAddress::ltc6811(Channel::Cell8, Register::CellVoltageC, 1));
            },
            CellSelection::Pair3 => {
                r.push(RegisterAddress::ltc6811(Channel::Cell3, Register::CellVoltageA, 2));
                r.push(RegisterAddress::ltc6811(Channel::Cell9, Register::CellVoltageC, 2));
            },
            CellSelection::Pair4 => {
                r.push(RegisterAddress::ltc6811(Channel::Cell4, Register::CellVoltageB, 0));
                r.push(RegisterAddress::ltc6811(Channel::Cell10, Register::CellVoltageD, 0));
            },
            CellSelection::Pair5 => {
                r.push(RegisterAddress::ltc6811(Channel::Cell5, Register::CellVoltageB, 1));
                r.push(RegisterAddress::ltc6811(Channel::Cell11, Register::CellVoltageD, 1));
            },
            CellSelection::Pair6 => {
                r.push(RegisterAddress::ltc6811(Channel::Cell6, Register::CellVoltageB, 2));
                r.push(RegisterAddress::ltc6811(Channel::Cell12, Register::CellVoltageD, 2));
            },
        }
        proof {
            assert(r@ =~= self.spec_locations());
        }
        r
    }
}

/// Register locations of one GPIO selection, including the second reference.
pub open spec fn spec_gpio_locations_group(group: GPIOSelection) -> Seq<
    RegisterAddress<Channel, Register>,
> {
    match group {
        GPIOSelection::All => seq![
            RegisterAddress { channel: Channel::GPIO1, register: Register::AuxiliaryA, slot: 0 },
            RegisterAddress { channel: Channel::GPIO2, register: Register::AuxiliaryA, slot: 1 },
            RegisterAddress { channel: Channel::GPIO3, register: Register::AuxiliaryA, slot: 2 },
            RegisterAddress { channel: Channel::GPIO4, register: Register::AuxiliaryB, slot: 0 },
            RegisterAddress { channel: Channel::GPIO5, register: Register::AuxiliaryB, slot: 1 },
            RegisterAddress {
                channel: Channel::SecondReference,
                register: Register::AuxiliaryB,
                slot: 2,
            },
        ],
        GPIOSelection::GPIO1 => seq![
            RegisterAddress { channel: Channel::GPIO1, register: Register::AuxiliaryA, slot: 0 },
        ],
        GPIOSelection::GPIO2 => seq![
            RegisterAddress { channel: Channel::GPIO2, register: Register::AuxiliaryA, slot: 1 },
        ],
        GPIOSelection::GPIO3 => seq![
            RegisterAddress { channel: Channel::GPIO3, register: Register::AuxiliaryA, slot: 2 },
        ],
        GPIOSelection::GPIO4 => seq![
            RegisterAddress { channel: Channel::GPIO4, register: Register::AuxiliaryB, slot: 0 },
        ],
        GPIOSelection::GPIO5 => seq![
            RegisterAddress { channel: Channel::GPIO5, register: Register::AuxiliaryB, slot: 1 },
        ],
        GPIOSelection::SecondReference => seq![
            RegisterAddress {
                channel: Channel::SecondReference,
                register: Register::AuxiliaryB,
                slot: 2,
            },
        ],
    }
}

impl RegisterLocator<Channel, Register> for GPIOSelection {
    open spec fn spec_locations(&self) -> Seq<RegisterAddress<Channel, Register>> {
        spec_gpio_locations_group(*self)
    }

    fn get_locations(&self) -> (r: Vec<RegisterAddress<Channel, Register>>) {
        let mut r: Vec<RegisterAddress<Channel, Register>> = Vec::new();
        match self {
            GPIOSelection::All => {
                r.push(RegisterAddress::ltc6811(Channel::GPIO1, Register::AuxiliaryA, 0));
                r.push(RegisterAddress::ltc6811(Channel::GPIO2, Register::AuxiliaryA, 1));
                r.push(RegisterAddress::ltc6811(Channel::GPIO3, Register::AuxiliaryA, 2));
                r.push(RegisterAddress::ltc6811(Channel::GPIO4, Register::AuxiliaryB, 0));
                r.push(RegisterAddress::ltc6811(Channel::GPIO5, Register::AuxiliaryB, 1));
                r.push(RegisterAddress::ltc6811(Channel::SecondReference, Register::AuxiliaryB, 2));
            },
            GPIOSelection::GPIO1 => {
                r.push(RegisterAddress::ltc6811(Channel::GPIO1, Register::AuxiliaryA, 0));
            },
            GPIOSelection::GPIO2 => {
                r.push(RegisterAddress::ltc6811(Channel::GPIO2, Register::AuxiliaryA, 1));
            },
            GPIOSelection::GPIO3 => {
                r.push(RegisterAddress::ltc6811(Channel::GPIO3, Register::AuxiliaryA, 2));
            },
            GPIOSelection::GPIO4 => {
                r.push(RegisterAddress::ltc6811(Channel::GPIO4, Register::AuxiliaryB, 0));
            },
            GPIOSelection::GPIO5 => {
                r.push(RegisterAddress::ltc6811(Channel::GPIO5, Register::AuxiliaryB, 1));
            },
            GPIOSelection::SecondReference => {
                r.push(RegisterAddress::ltc6811(Channel::SecondReference, Register::AuxiliaryB, 2));
            },
        }
        proof {
            assert(r@ =~= self.spec_locations());
        }
        r
    }
}

} // verus!
