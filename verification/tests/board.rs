use core_s3::aw9523b::{Aw9523b, ExpanderPin, Port};
use core_s3::board::{ColorOrder, CoreS3, MemorySize};
use core_s3::bsp::{display_config, init_display_power, set_backlight, DeviceStep};
use core_s3::bus::RegisterStep;
use core_s3::gateway_h2::matter::{MatterOverThreadConfig, MatterServerConfig, ThreadDatasetConfig};
use core_s3::gateway_h2::GatewayH2;
use core_s3::pins::Gpio;

#[test]
fn board_description() {
    let board = CoreS3::board();
    assert_eq!(board.name, "M5Stack CoreS3 K128");
    assert_eq!(board.psram, MemorySize::mib(8));
    assert_eq!(board.flash.bytes, 16 * 1024 * 1024);
    assert_eq!(board.display.width, 320);
    assert_eq!(board.display.color_order, ColorOrder::Bgr);
    assert_eq!(board.i2c.sda, Gpio(12));
    assert_eq!(board.sd.spi.cs, Gpio(4));
    assert_eq!(board.camera.data[7], Gpio(46));
}

#[test]
fn expander_plans() {
    let expander = Aw9523b::new(());
    assert_eq!(expander.address(), 0x58);
    let steps = expander.init_core_s3_defaults();
    assert_eq!(steps.len(), 9);
    assert_eq!(steps[3], RegisterStep::WriteBit { register: 0x03, bit: 1, value: true });
    assert_eq!(
        expander.set_output(ExpanderPin::lcd_reset(), false),
        vec![RegisterStep::WriteBit { register: 0x03, bit: 1, value: false }]
    );
    assert_eq!(expander.input_port_register(Port::P0), 0x00);
    assert_eq!(expander.input_port_register(Port::P1), 0x01);
}

#[test]
fn display_power_sequence() {
    let steps = init_display_power();
    assert_eq!(steps.len(), 15);
    assert_eq!(steps[0], DeviceStep { address: 0x58, step: RegisterStep::WriteBit { register: 0x02, bit: 0, value: true } });
    assert_eq!(steps[9], DeviceStep { address: 0x34, step: RegisterStep::Write { register: 0x90, value: 0xBF } });
    assert_eq!(steps[13], DeviceStep { address: 0x34, step: RegisterStep::Write { register: 0x99, value: 28 } });
    assert_eq!(
        steps[14],
        DeviceStep { address: 0x58, step: RegisterStep::PulseBitLow { register: 0x03, bit: 1, low_ms: 10, high_ms: 20 } }
    );
    assert_eq!(set_backlight(0).len(), 1);
    assert_eq!(set_backlight(1)[1], DeviceStep { address: 0x34, step: RegisterStep::Write { register: 0x99, value: 20 } });
    let (bus, panel) = display_config();
    assert_eq!(bus.write_hz, 40_000_000);
    assert!(panel.invert_colors);
}

#[test]
fn matter_names_fit_their_capacity() {
    let config = MatterServerConfig::new(0xFFF1, 0x8000, 3840, 20202021, "CoreS3 Light");
    assert_eq!(config.device_name.as_str(), "CoreS3 Light");
    assert_eq!(config.port, 5540);
    let long = MatterServerConfig::new(1, 2, 3, 4, "a name that is far longer than thirty-two bytes").with_port(1234);
    assert_eq!(long.device_name.as_str(), "");
    assert_eq!(long.port, 1234);
    let thread = ThreadDatasetConfig::new("OpenThread-core", 0x1234, [1; 8], 15, [2; 16]);
    assert_eq!(thread.network_name.as_str(), "OpenThread-core");
    let too_long = ThreadDatasetConfig::new("OpenThread-core-s3", 0x1234, [1; 8], 15, [2; 16]);
    assert_eq!(too_long.network_name.as_str(), "");
    let all = MatterOverThreadConfig::new(GatewayH2::grove_uart(), config, thread);
    assert_eq!(all.gateway.host_uart.tx, Gpio(1));
    assert_eq!(all.gateway.host_uart.rx, Gpio(2));
}

#[test]
fn single_register_steps() {
    let pmic = core_s3::power::Axp2101::new(());
    assert_eq!(pmic.write_register(0x10, 1), vec![RegisterStep::Write { register: 0x10, value: 1 }]);
    assert_eq!(pmic.write_bit(0x90, 7, true), vec![RegisterStep::WriteBit { register: 0x90, bit: 7, value: true }]);
    let amp = core_s3::audio::Aw88298::new(());
    assert_eq!(amp.read_register16([0x14, 0xC3]), 0x14C3);
    assert_eq!(amp.write_register16(0x0C, 50), vec![RegisterStep::Write16 { register: 0x0C, value: 50 }]);
}
