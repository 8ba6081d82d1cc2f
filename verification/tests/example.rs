//! Exercises the client against the canned example transports.
use ltc681x::example::ExampleCSPin;
use ltc681x::example::ExampleSPIBus;
use ltc681x::example::ExampleSPIDevice;
use ltc681x::ltc6813::CellSelection;
use ltc681x::ltc6813::Channel;
use ltc681x::ltc6813::Register;
use ltc681x::ltc6813::LTC6813;
use ltc681x::monitor::ADCMode;
use ltc681x::monitor::LTC681X;

#[test]
fn test_example_device_read_voltages() {
    let spi_bus = ExampleSPIDevice::default();

    let mut client: LTC681X<_, _, LTC6813, 1> = LTC681X::ltc6813(spi_bus);

    client.start_conv_cells(ADCMode::Normal, CellSelection::Group1, true).unwrap();

    // Cell group 1 of the LTC6813: cells 1, 7 and 13.
    let voltages = client.read_voltages(CellSelection::Group1).unwrap();
    assert_eq!(Channel::Cell1, voltages[0][0].channel);
    assert_eq!(24979, voltages[0][0].voltage);
    assert_eq!(Channel::Cell7, voltages[0][1].channel);
    assert_eq!(25441, voltages[0][1].voltage);
}

#[test]
fn test_example_device_read_register() {
    let spi_bus = ExampleSPIDevice::default();

    let mut client: LTC681X<_, _, LTC6813, 1> = LTC681X::ltc6813(spi_bus);

    // Cell voltage register group B: cell 5 sits in the second slot.
    let cell_voltages = client.read_register(Register::CellVoltageB).unwrap();
    assert_eq!(7538, cell_voltages[0][1]);

    // Auxiliary voltage register group A: GPIO 1 sits in the first slot.
    let aux_voltages = client.read_register(Register::AuxiliaryA).unwrap();
    assert_eq!(24979, aux_voltages[0][0]);
}

#[test]
fn test_example_bus_polling() {
    let spi_bus = ExampleSPIBus::default();
    let cs_pin = ExampleCSPin {};
    let mut client: LTC681X<_, _, LTC6813, 1> = LTC681X::enable_sdo_polling(spi_bus, cs_pin);

    client.start_conv_cells(ADCMode::Normal, CellSelection::All, true).unwrap();

    // The example bus reports a finished conversion on the second poll.
    assert!(!client.adc_ready().unwrap());
    assert!(client.adc_ready().unwrap());
}

#[test]
fn test_example_device_internal_parameters() {
    let spi_bus = ExampleSPIDevice::default();

    let mut client: LTC681X<_, _, LTC6813, 1> = LTC681X::ltc6813(spi_bus);

    let data = client.read_internal_device_parameters().unwrap();
    assert_eq!(75_318_000, data[0].total_voltage);
    assert_eq!(3_200_000, data[0].analog_power);
    assert_eq!(5_120_000, data[0].digital_power);
}
