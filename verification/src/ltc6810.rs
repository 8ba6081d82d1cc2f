//! Device-specific types of the LTC6810: 6 cells, 4 GPIO channels and the S0
//! pin.
use crate::monitor::ADCMode;
use crate::monitor::ChannelIndex;
use crate::monitor::ChannelType;
use crate::monitor::CommandTime;
use crate::monitor::DeviceTypes;
use crate::monitor::GroupedRegisterIndex;
use crate::monitor::LTC681X;
use crate::monitor::NoPolling;
use crate::monitor::NoWriteCommandError;
use crate::monitor::RegisterAddress;
use crate::monitor::RegisterLocator;
use crate::monitor::ToCommandBitmap;
use crate::monitor::ToCommandTiming;
use crate::monitor::ToFullCommand;
use crate::monitor::command_frame;
use crate::spi::SpiDevice;
use vstd::prelude::*;

verus! {

/// Cell selection for the ADC conversion.
#[derive(Copy, Clone, Eq, PartialEq, Structural, Debug)]
pub enum CellSelection {
    /// All cells.
    All,
    Cell1,
    Cell2,
    Cell3,
    Cell4,
    Cell5,
    Cell6,
}

/// GPIO selection for the ADC conversion.
#[derive(Copy, Clone, Eq, PartialEq, Structural, Debug)]
pub enum GPIOSelection {
    /// S0, GPIO 1 to 4 and the second reference.
    All,
    S0,
    GPIO1,
    GPIO2,
    GPIO3,
    GPIO4,
    SecondReference,
}

/// Available registers.
#[derive(Copy, Clone, Eq, PartialEq, Structural, Debug)]
pub enum Register {
    CellVoltageA,
    CellVoltageB,
    AuxiliaryA,
    AuxiliaryB,
    StatusA,
    StatusB,
    Configuration,
}

/// All conversion channels.
#[derive(Copy, Clone, Eq, PartialEq, Structural, Debug)]
pub enum Channel {
    Cell1,
    Cell2,
    Cell3,
    Cell4,
    Cell5,
    Cell6,
    GPIO1,
    GPIO2,
    GPIO3,
    GPIO4,
    S0,
    SecondReference,
}

/// Device type of the LTC6810.
#[derive(Copy, Clone, Debug)]
pub struct LTC6810 {}

impl DeviceTypes for LTC6810 {
    type CellSelection = CellSelection;

    type GPIOSelection = GPIOSelection;

    type Register = Register;

    type Channel = Channel;

    open spec fn spec_overlap_test_reg_1() -> Option<Register> {
        None
    }

    open spec fn spec_overlap_test_reg_2() -> Option<Register> {
        None
    }

    open spec fn spec_total_voltage_factor() -> u32 {
        30
    }

    open spec fn spec_reg_conf_b() -> Option<Register> {
        None
    }

    fn cell_count() -> usize {
        6
    }

    fn gpio_count() -> usize {
        4
    }

    fn overlap_test_reg_1() -> (r: Option<Register>) {
        None
    }

    fn overlap_test_reg_2() -> (r: Option<Register>) {
        None
    }

    fn reg_status_a() -> Register {
        Register::StatusA
    }

    fn reg_status_b() -> Register {
        Register::StatusB
    }

    fn reg_conf_a() -> (r: Register) {
        Register::Configuration
    }

    fn reg_conf_b() -> (r: Option<Register>) {
        None
    }

    fn total_voltage_factor() -> (r: u32) {
        30
    }
}

impl<B, const L: usize> LTC681X<B, NoPolling, LTC6810, L> where B: SpiDevice {
    /// Creates a client instance for the LTC6810 variant.
    pub fn ltc6810(bus: B) -> Self {
        LTC681X::new(bus)
    }
}

impl ToCommandBitmap for CellSelection {
    open spec fn spec_bitmap(&self) -> u16 {
        match self {
            CellSelection::All => 0x0,
            CellSelection::Cell1 => 0x1,
            CellSelection::Cell2 => 0x2,
            CellSelection::Cell3 => 0x3,
            CellSelection::Cell4 => 0x4,
            CellSelection::Cell5 => 0x5,
            CellSelection::Cell6 => 0x6,
        }
    }

    fn to_bitmap(&self) -> (r: u16) {
        match self {
            CellSelection::All => 0x0,
            CellSelection::Cell1 => 0x1,
            CellSelection::Cell2 => 0x2,
            CellSelection::Cell3 => 0x3,
            CellSelection::Cell4 => 0x4,
            CellSelection::Cell5 => 0x5,
            CellSelection::Cell6 => 0x6,
        }
    }
}

impl ToCommandBitmap for GPIOSelection {
    open spec fn spec_bitmap(&self) -> u16 {
        match self {
            GPIOSelection::All => 0x0,
            GPIOSelection::S0 => 0x1,
            GPIOSelection::GPIO1 => 0x2,
            GPIOSelection::GPIO2 => 0x3,
            GPIOSelection::GPIO3 => 0x4,
            GPIOSelection::GPIO4 => 0x5,
            GPIOSelection::SecondReference => 0x6,
        }
    }

    fn to_bitmap(&self) -> (r: u16) {
        match self {
            GPIOSelection::All => 0x0,
            GPIOSelection::S0 => 0x1,
            GPIOSelection::GPIO1 => 0x2,
            GPIOSelection::GPIO2 => 0x3,
            GPIOSelection::GPIO3 => 0x4,
            GPIOSelection::GPIO4 => 0x5,
            GPIOSelection::SecondReference => 0x6,
        }
    }
}

impl ToFullCommand for Register {
    open spec fn spec_read_command(&self) -> u16 {
        match self {
            Register::CellVoltageA => 0x0004,
            Register::CellVoltageB => 0x0006,
            Register::AuxiliaryA => 0x000c,
            Register::AuxiliaryB => 0x000e,
            Register::StatusA => 0x0010,
            Register::StatusB => 0x0012,
            Register::Configuration => 0x0002,
        }
    }

    open spec fn spec_writable(&self) -> bool {
        self is Configuration
    }

    open spec fn spec_write_command(&self) -> u16 {
        match self {
            Register::Configuration => 0x0001,
            _ => 0x0000,
        }
    }

    fn to_read_command(&self) -> (r: [u8; 4]) {
        let word: u16 = match self {
            Register::CellVoltageA => 0x0004,
            Register::CellVoltageB => 0x0006,
            Register::AuxiliaryA => 0x000c,
            Register::AuxiliaryB => 0x000e,
            Register::StatusA => 0x0010,
            Register::StatusB => 0x0012,
            Register::Configuration => 0x0002,
        };
        command_frame(word)
    }

    fn to_write_command(&self) -> (r: Result<[u8; 4], NoWriteCommandError>) {
        match self {
            Register::Configuration => Ok(command_frame(0x0001)),
            _ => Err(NoWriteCommandError {}),
        }
    }
}

impl ToCommandTiming for CellSelection {
    open spec fn spec_conv_command_timing(&self, mode: ADCMode) -> CommandTime {
        match self {
            CellSelection::All => match mode {
                ADCMode::Fast => CommandTime { regular: 1106, alternative: 1281 },
                ADCMode::Normal => CommandTime { regular: 2328, alternative: 3026 },
                ADCMode::Filtered => CommandTime { regular: 201310, alternative: 4423 },
                ADCMode::Other => CommandTime { regular: 12801, alternative: 7215 },
            },
            CellSelection::Cell1 | CellSelection::Cell2 | CellSelection::Cell3
                | CellSelection::Cell4 | CellSelection::Cell5 | CellSelection::Cell6 => match mode {
                ADCMode::Fast => CommandTime { regular: 200, alternative: 229 },
                ADCMode::Normal => CommandTime { regular: 404, alternative: 520 },
                ADCMode::Filtered => CommandTime { regular: 33567, alternative: 753 },
                ADCMode::Other => CommandTime { regular: 2149, alternative: 1218 },
            },
        }
    }

    fn to_conv_command_timing(&self, mode: ADCMode) -> (r: CommandTime) {
        match self {
            CellSelection::All => match mode {
                ADCMode::Fast => CommandTime::new(1106, 1281),
                ADCMode::Normal => CommandTime::new(2328, 3026),
                ADCMode::Filtered => CommandTime::new(201310, 4423),
                ADCMode::Other => CommandTime::new(12801, 7215),
            },
            CellSelection::Cell1 | CellSelection::Cell2 | CellSelection::Cell3
                | CellSelection::Cell4 | CellSelection::Cell5 | CellSelection::Cell6 => match mode {
                ADCMode::Fast => CommandTime::new(200, 229),
                ADCMode::Normal => CommandTime::new(404, 520),
                ADCMode::Filtered => CommandTime::new(33567, 753),
                ADCMode::Other => CommandTime::new(2149, 1218),
            },
        }
    }
}

impl ToCommandTiming for GPIOSelection {
    open spec fn spec_conv_command_timing(&self, mode: ADCMode) -> CommandTime {
        match self {
            GPIOSelection::All => match mode {
                ADCMode::Fast => CommandTime { regular: 1106, alternative: 1281 },
                ADCMode::Normal => CommandTime { regular: 2328, alternative: 3026 },
                ADCMode::Filtered => CommandTime { regular: 201310, alternative: 4423 },
                ADCMode::Other => CommandTime { regular: 12801, alternative: 7215 },
            },
            GPIOSelection::S0 | GPIOSelection::GPIO1 | GPIOSelection::GPIO2 | GPIOSelection::GPIO3
                | GPIOSelection::GPIO4 | GPIOSelection::SecondReference => match mode {
                ADCMode::Fast => CommandTime { regular: 200, alternative: 229 },
                ADCMode::Normal => CommandTime { regular: 404, alternative: 520 },
                ADCMode::Filtered => CommandTime { regular: 33567, alternative: 753 },
                ADCMode::Other => CommandTime { regular: 2149, alternative: 1218 },
            },
        }
    }

    fn to_conv_command_timing(&self, mode: ADCMode) -> (r: CommandTime) {
        match self {
            GPIOSelection::All => match mode {
                ADCMode::Fast => CommandTime::new(1106, 1281),
                ADCMode::Normal => CommandTime::new(2328, 3026),
                ADCMode::Filtered => CommandTime::new(201310, 4423),
                ADCMode::Other => CommandTime::new(12801, 7215),
            },
            GPIOSelection::S0 | GPIOSelection::GPIO1 | GPIOSelection::GPIO2 | GPIOSelection::GPIO3
                | GPIOSelection::GPIO4 | GPIOSelection::SecondReference => match mode {
                ADCMode::Fast => CommandTime::new(200, 229),
                ADCMode::Normal => CommandTime::new(404, 520),
                ADCMode::Filtered => CommandTime::new(33567, 753),
                ADCMode::Other => CommandTime::new(2149, 1218),
            },
        }
    }
}

impl GroupedRegisterIndex for Register {
    open spec fn spec_index(&self) -> usize {
        match self {
            Register::CellVoltageA => 0,
            Register::CellVoltageB => 1,
            Register::AuxiliaryA => 0,
            Register::AuxiliaryB => 1,
            Register::StatusA => 0,
            Register::StatusB => 1,
            Register::Configuration => 0,
        }
    }

    fn to_index(&self) -> (r: usize) {
        match self {
            Register::CellVoltageA => 0,
            Register::CellVoltageB => 1,
            Register::AuxiliaryA => 0,
            Register::AuxiliaryB => 1,
            Register::StatusA => 0,
            Register::StatusB => 1,
            Register::Configuration => 0,
        }
    }
}

impl ChannelIndex for Channel {
    open spec fn spec_cell_index(&self) -> Option<usize> {
        match self {
            Channel::Cell1 => Some(0usize),
            Channel::Cell2 => Some(1usize),
            Channel::Cell3 => Some(2usize),
            Channel::Cell4 => Some(3usize),
            Channel::Cell5 => Some(4usize),
            Channel::Cell6 => Some(5usize),
            _ => None,
        }
    }

    open spec fn spec_gpio_index(&self) -> Option<usize> {
        match self {
            Channel::GPIO1 => Some(0usize),
            Channel::GPIO2 => Some(1usize),
            Channel::GPIO3 => Some(2usize),
            Channel::GPIO4 => Some(3usize),
            _ => None,
        }
    }

    fn to_cell_index(&self) -> (r: Option<usize>) {
        match self {
            Channel::Cell1 => Some(0),
            Channel::Cell2 => Some(1),
            Channel::Cell3 => Some(2),
            Channel::Cell4 => Some(3),
            Channel::Cell5 => Some(4),
            Channel::Cell6 => Some(5),
            _ => None,
        }
    }

    fn to_gpio_index(&self) -> (r: Option<usize>) {
        match self {
            Channel::GPIO1 => Some(0),
            Channel::GPIO2 => Some(1),
            Channel::GPIO3 => Some(2),
            Channel::GPIO4 => Some(3),
            _ => None,
        }
    }
}

impl From<Channel> for ChannelType {
    fn from(channel: Channel) -> (r: Self) {
        match channel {
            Channel::GPIO1 | Channel::GPIO2 | Channel::GPIO3 | Channel::GPIO4 => ChannelType::GPIO,
            Channel::SecondReference => ChannelType::Reference,
            _ => ChannelType::Cell,
        }
    }
}

impl vstd::std_specs::convert::FromSpecImpl<Channel> for ChannelType {
    open spec fn obeys_from_spec() -> bool {
        true
    }

    open spec fn from_spec(channel: Channel) -> Self {
        match channel {
            Channel::GPIO1 | Channel::GPIO2 | Channel::GPIO3 | Channel::GPIO4 => ChannelType::GPIO,
            Channel::SecondReference => ChannelType::Reference,
            _ => ChannelType::Cell,
        }
    }
}

impl RegisterAddress<Channel, Register> {
    /// Builds a register address of the LTC6810.
    pub fn ltc6810(channel: Channel, register: Register, slot: usize) -> (r: Self)
        requires
            slot < 3,
        ensures
            r.channel == channel,
            r.register == register,
            r.slot == slot,
    {
        RegisterAddress { channel, register, slot }
    }
}

/// Register locations of all 6 cells, in cell order.
pub open spec fn spec_cell_locations_all() -> Seq<RegisterAddress<Channel, Register>> {
    seq![
        RegisterAddress { channel: Channel::Cell1, register: Register::CellVoltageA, slot: 0 },
        RegisterAddress { channel: Channel::Cell2, register: Register::CellVoltageA, slot: 1 },
        RegisterAddress { channel: Channel::Cell3, register: Register::CellVoltageA, slot: 2 },
        RegisterAddress { channel: Channel::Cell4, register: Register::CellVoltageB, slot: 0 },
        RegisterAddress { channel: Channel::Cell5, register: Register::CellVoltageB, slot: 1 },
        RegisterAddress { channel: Channel::Cell6, register: Register::CellVoltageB, slot: 2 },
    ]
}

/// Register location of one cell selection.
pub open spec fn spec_cell_locations_group(group: CellSelection) -> Seq<
    RegisterAddress<Channel, Register>,
> {
    match group {
        CellSelection::All => spec_cell_locations_all(),
        CellSelection::Cell1 => seq![
            RegisterAddress { channel: Channel::Cell1, register: Register::CellVoltageA, slot: 0 },
        ],
        CellSelection::Cell2 => seq![
            RegisterAddress { channel: Channel::Cell2, register: Register::CellVoltageA, slot: 1 },
        ],
        CellSelection::Cell3 => seq![
            RegisterAddress { channel: Channel::Cell3, register: Register::CellVoltageA, slot: 2 },
        ],
        CellSelection::Cell4 => seq![
            RegisterAddress { channel: Channel::Cell4, register: Register::CellVoltageB, slot: 0 },
        ],
        CellSelection::Cell5 => seq![
            RegisterAddress { channel: Channel::Cell5, register: Register::CellVoltageB, slot: 1 },
        ],
        CellSelection::Cell6 => seq![
            RegisterAddress { channel: Channel::Cell6, register: Register::CellVoltageB, slot: 2 },
        ],
    }
}

impl RegisterLocator<Channel, Register> for CellSelection {
    open spec fn spec_locations(&self) -> Seq<RegisterAddress<Channel, Register>> {
        spec_cell_locations_group(*self)
    }

    fn get_locations(&self) -> (r: Vec<RegisterAddress<Channel, Register>>) {
        let mut r: Vec<RegisterAddress<Channel, Register>> = Vec::new();
        match self {
            CellSelection::All => {
                r.push(RegisterAddress::ltc6810(Channel::Cell1, Register::CellVoltageA, 0));
                r.push(RegisterAddress::ltc6810(Channel::Cell2, Register::CellVoltageA, 1));
                r.push(RegisterAddress::ltc6810(Channel::Cell3, Register::CellVoltageA, 2));
                r.push(RegisterAddress::ltc6810(Channel::Cell4, Register::CellVoltageB, 0));
                r.push(RegisterAddress::ltc6810(Channel::Cell5, Register::CellVoltageB, 1));
                r.push(RegisterAddress::ltc6810(Channel::Cell6, Register::CellVoltageB, 2));
            },
            CellSelection::Cell1 => {
                r.push(RegisterAddress::ltc6810(Channel::Cell1, Register::CellVoltageA, 0));
            },
            CellSelection::Cell2 => {
                r.push(RegisterAddress::ltc6810(Channel::Cell2, Register::CellVoltageA, 1));
            },
            CellSelection::Cell3 => {
                r.push(RegisterAddress::ltc6810(Channel::Cell3, Register::CellVoltageA, 2));
            },
            CellSelection::Cell4 => {
                r.push(RegisterAddress::ltc6810(Channel::Cell4, Register::CellVoltageB, 0));
            },
            CellSelection::Cell5 => {
                r.push(RegisterAddress::ltc6810(Channel::Cell5, Register::CellVoltageB, 1));
            },
            CellSelection::Cell6 => {
                r.push(RegisterAddress::ltc6810(Channel::Cell6, Register::CellVoltageB, 2));
            },
        }
        proof {
            assert(r@ =~= self.spec_locations());
        }
        r
    }
}

/// Register locations of one GPIO selection, including S0 and the second
/// reference.
pub open spec fn spec_gpio_locations_group(group: GPIOSelection) -> Seq<
    RegisterAddress<Channel, Register>,
> {
    match group {
        GPIOSelection::All => seq![
            RegisterAddress { channel: Channel::S0, register: Register::AuxiliaryA, slot: 0 },
            RegisterAddress { channel: Channel::GPIO1, register: Register::AuxiliaryA, slot: 1 },
            RegisterAddress { channel: Channel::GPIO2, register: Register::AuxiliaryA, slot: 2 },
            RegisterAddress { channel: Channel::GPIO3, register: Register::AuxiliaryB, slot: 0 },
            RegisterAddress { channel: Channel::GPIO4, register: Register::AuxiliaryB, slot: 1 },
            RegisterAddress {
                channel: Channel::SecondReference,
                register: Register::AuxiliaryB,
                slot: 2,
            },
        ],
        GPIOSelection::S0 => seq![
            RegisterAddress { channel: Channel::S0, register: Register::AuxiliaryA, slot: 0 },
        ],
        GPIOSelection::GPIO1 => seq![
            RegisterAddress { channel: Channel::GPIO1, register: Register::AuxiliaryA, slot: 1 },
        ],
        GPIOSelection::GPIO2 => seq![
            RegisterAddress { channel: Channel::GPIO2, register: Register::AuxiliaryA, slot: 2 },
        ],
        GPIOSelection::GPIO3 => seq![
            RegisterAddress { channel: Channel::GPIO3, register: Register::AuxiliaryB, slot: 0 },
        ],
        GPIOSelection::GPIO4 => seq![
            RegisterAddress { channel: Channel::GPIO4, register: Register::AuxiliaryB, slot: 1 },
        ],
        GPIOSelection::SecondReference => seq![
            RegisterAddress {
                channel: Channel::SecondReference,
                register: Register::AuxiliaryB,
                slot: 2,
            },
        ],
    }
}

impl RegisterLocator<Channel, Register> for GPIOSelection {
    open spec fn spec_locations(&self) -> Seq<RegisterAddress<Channel, Register>> {
        spec_gpio_locations_group(*self)
    }

    fn get_locations(&self) -> (r: Vec<RegisterAddress<Channel, Register>>) {
        let mut r: Vec<RegisterAddress<Channel, Register>> = Vec::new();
        match self {
            GPIOSelection::All => {
                r.push(RegisterAddress::ltc6810(Channel::S0, Register::AuxiliaryA, 0));
                r.push(RegisterAddress::ltc6810(Channel::GPIO1, Register::AuxiliaryA, 1));
                r.push(RegisterAddress::ltc6810(Channel::GPIO2, Register::AuxiliaryA, 2));
                r.push(RegisterAddress::ltc6810(Channel::GPIO3, Register::AuxiliaryB, 0));
                r.push(RegisterAddress::ltc6810(Channel::GPIO4, Register::AuxiliaryB, 1));
                r.push(RegisterAddress::ltc6810(Channel::SecondReference, Register::AuxiliaryB, 2));
            },
            GPIOSelection::S0 => {
                r.push(RegisterAddress::ltc6810(Channel::S0, Register::AuxiliaryA, 0));
            },
            GPIOSelection::GPIO1 => {
                r.push(RegisterAddress::ltc6810(Channel::GPIO1, Register::AuxiliaryA, 1));
            },
            GPIOSelection::GPIO2 => {
                r.push(RegisterAddress::ltc6810(Channel::GPIO2, Register::AuxiliaryA, 2));
            },
            GPIOSelection::GPIO3 => {
                r.push(RegisterAddress::ltc6810(Channel::GPIO3, Register::AuxiliaryB, 0));
            },
            GPIOSelection::GPIO4 => {
                r.push(RegisterAddress::ltc6810(Channel::GPIO4, Register::AuxiliaryB, 1));
            },
            GPIOSelection::SecondReference => {
                r.push(RegisterAddress::ltc6810(Channel::SecondReference, Register::AuxiliaryB, 2));
            },
        }
        proof {
            assert(r@ =~= self.spec_locations());
        }
        r
    }
}

} // verus!
