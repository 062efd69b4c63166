use hbridge_driver::Driver;
use hbridge_driver::Fault;
use hbridge_driver::Transport;

struct Chip {
    control: Option<u8>,
    fault: u8,
    transactions: usize,
    broken: bool,
}

impl Chip {
    fn with_fault(fault: u8) -> Chip {
        Chip { control: None, fault, transactions: 0, broken: false }
    }

    fn broken() -> Chip {
        Chip { control: None, fault: 0, transactions: 0, broken: true }
    }
}

const CHIP_ADDRESS: u8 = 0x60;

impl Transport for Chip {
    type Error = &'static str;

    fn write(&mut self, address: u8, payload: &[u8]) -> Result<(), &'static str> {
        self.transactions += 1;
        if self.broken || address != CHIP_ADDRESS {
            return Err("no acknowledge");
        }
        match payload {
            [0x00, value] => self.control = Some(*value),
            [0x01, value] => {
                if value & 0x80 != 0 {
                    self.fault = 0;
                }
            }
            _ => return Err("unknown register"),
        }
        Ok(())
    }

    fn write_read<const N: usize>(
        &mut self,
        address: u8,
        payload: &[u8],
        reply: &mut [u8; N],
    ) -> Result<(), &'static str> {
        self.transactions += 1;
        if self.broken || address != CHIP_ADDRESS {
            return Err("no acknowledge");
        }
        if payload != [0x01] || N != 1 {
            return Err("unknown register");
        }
        reply[0] = self.fault;
        Ok(())
    }
}

#[test]
fn direction_operations_write_the_presets() {
    let mut driver = Driver::new(Chip::with_fault(0), CHIP_ADDRESS);
    assert_eq!(driver.forward(), Ok(()));
    let chip = driver.release();
    assert_eq!(chip.control, Some(0xfd));

    let mut driver = Driver::new(chip, CHIP_ADDRESS);
    assert_eq!(driver.reverse(), Ok(()));
    let chip = driver.release();
    assert_eq!(chip.control, Some(0xfe));

    let mut driver = Driver::new(chip, CHIP_ADDRESS);
    assert_eq!(driver.brake(), Ok(()));
    let chip = driver.release();
    assert_eq!(chip.control, Some(0xff));

    let mut driver = Driver::new(chip, CHIP_ADDRESS);
    assert_eq!(driver.coast(), Ok(()));
    let chip = driver.release();
    assert_eq!(chip.control, Some(0xfc));
    assert_eq!(chip.transactions, 4);
}

#[test]
fn construction_makes_no_transaction() {
    let driver = Driver::new(Chip::with_fault(0), CHIP_ADDRESS);
    let chip = driver.release();
    assert_eq!(chip.transactions, 0);
    assert_eq!(chip.control, None);
}

#[test]
fn read_fault_reports_the_flags_of_the_register() {
    let mut driver = Driver::new(Chip::with_fault(0x05), CHIP_ADDRESS);
    assert_eq!(
        driver.read_fault(),
        Ok(Fault { clear: false, i_limit: false, ots: false, uvlo: true, ocp: false, fault: true })
    );
    assert_eq!(driver.release().transactions, 1);
}

#[test]
fn clear_fault_acknowledges_a_latched_fault() {
    let mut driver = Driver::new(Chip::with_fault(0x11), CHIP_ADDRESS);
    let before = driver.read_fault().unwrap();
    assert!(before.fault && before.i_limit);
    assert_eq!(driver.clear_fault(), Ok(()));
    assert_eq!(driver.read_fault(), Ok(Fault::default()));
    assert_eq!(driver.release().transactions, 3);
}

#[test]
fn operations_report_the_transport_error_without_retrying() {
    let mut driver = Driver::new(Chip::broken(), CHIP_ADDRESS);
    assert_eq!(driver.forward(), Err("no acknowledge"));
    assert_eq!(driver.reverse(), Err("no acknowledge"));
    assert_eq!(driver.brake(), Err("no acknowledge"));
    assert_eq!(driver.coast(), Err("no acknowledge"));
    assert_eq!(driver.read_fault(), Err("no acknowledge"));
    assert_eq!(driver.clear_fault(), Err("no acknowledge"));
    assert_eq!(driver.release().transactions, 6);
}

#[test]
fn driver_talks_to_the_address_it_was_given() {
    let mut driver = Driver::new(Chip::with_fault(0), 0x61);
    assert_eq!(driver.forward(), Err("no acknowledge"));
    let chip = driver.release();
    assert_eq!(chip.control, None);
    assert_eq!(chip.transactions, 1);
}
