use lora_core::bindings::BindingSlot;
use lora_core::bindings::RadioBindingTable;
use lora_core::errors::CoreError;

#[test]
fn slots_are_write_once() {
    let mut t = RadioBindingTable::new();
    assert_eq!(t.bind(BindingSlot::Reset), Ok(()));
    assert_eq!(t.bind(BindingSlot::Reset), Err(CoreError::ConfigurationError));
    assert_eq!(t.bind(BindingSlot::AntennaSwitch), Ok(()));
    assert_eq!(
        t.bind(BindingSlot::AntennaSwitch),
        Err(CoreError::ConfigurationError)
    );
}

#[test]
fn capabilities_name_present_optionals() {
    let mut t = RadioBindingTable::new();
    let none = t.capabilities();
    assert!(!none.antenna_switch);
    assert!(!none.tcxo_enable);
    assert!(!none.busy_pin);
    assert!(!none.power_limit);
    assert_eq!(t.bind(BindingSlot::AntennaSwitch), Ok(()));
    assert_eq!(t.bind(BindingSlot::BusyPin), Ok(()));
    let some = t.capabilities();
    assert!(some.antenna_switch);
    assert!(!some.tcxo_enable);
    assert!(some.busy_pin);
    assert!(!some.power_limit);
}

#[test]
fn driver_ready_needs_all_required_slots() {
    let mut t = RadioBindingTable::new();
    assert!(!t.driver_ready());
    assert_eq!(t.bind(BindingSlot::Reset), Ok(()));
    assert_eq!(t.bind(BindingSlot::SpiInOut), Ok(()));
    assert_eq!(t.bind(BindingSlot::SpiNss), Ok(()));
    assert!(!t.driver_ready());
    assert_eq!(t.bind(BindingSlot::DelayMs), Ok(()));
    assert!(t.driver_ready());
}

#[test]
fn populated_antenna_slot_is_invoked_exactly_per_call() {
    let mut t = RadioBindingTable::new();
    assert_eq!(t.bind(BindingSlot::AntennaSwitch), Ok(()));
    assert!(t.set_antenna_pins(1, 2));
    assert_eq!(t.antenna_call_count(), 1);
    assert!(t.set_antenna_pins(0, 0));
    assert_eq!(t.antenna_call_count(), 2);
}

#[test]
fn unpopulated_antenna_slot_is_a_safe_no_op() {
    let mut t = RadioBindingTable::new();
    assert!(!t.set_antenna_pins(1, 2));
    assert_eq!(t.antenna_call_count(), 0);
}

#[test]
fn optional_slots_report_invocation() {
    let mut t = RadioBindingTable::new();
    assert!(!t.set_board_tcxo(true));
    assert!(!t.poll_busy_pin());
    assert!(!t.reduce_power(3));
    assert_eq!(t.bind(BindingSlot::TcxoEnable), Ok(()));
    assert_eq!(t.bind(BindingSlot::BusyPin), Ok(()));
    assert_eq!(t.bind(BindingSlot::PowerLimit), Ok(()));
    assert!(t.set_board_tcxo(true));
    assert!(t.poll_busy_pin());
    assert!(t.reduce_power(3));
    assert_eq!(t.tcxo_call_count(), 1);
    assert_eq!(t.busy_call_count(), 1);
    assert_eq!(t.power_call_count(), 1);
}
