use lora_core::channel_plan::Configuration;
use lora_core::errors::CoreError;

#[test]
fn join_frequency_uses_subband_zero() {
    let mut c = Configuration::new();
    assert_eq!(c.get_join_frequency(0xFF), 864_100_00);
    assert_eq!(c.get_join_frequency(0x00), 864_100_00);
    assert_eq!(c.get_join_frequency(0b00101000), 864_100_00);
}

#[test]
fn join_accept_frequency_follows_last_join() {
    let mut c = Configuration::new();
    let _ = c.get_join_frequency(0x42);
    assert_eq!(c.get_join_accept_frequency1(), 868_100_00);
}

#[test]
fn join_accept_frequency_of_fresh_configuration() {
    let mut c = Configuration::new();
    assert_eq!(c.get_join_accept_frequency1(), 868_100_00);
}

#[test]
fn data_frequency_from_random_byte() {
    // Bits 3 to 5 of 0b00101000 select subband 5: uplink[5].
    let mut c = Configuration::new();
    assert_eq!(c.get_data_frequency(0b00101000), Ok(868_500_00));
}

#[test]
fn data_frequency_from_explicit_subband() {
    // Explicit subband 3 selects index 2: uplink[2].
    let mut c = Configuration::new();
    c.set_subband(3);
    assert_eq!(c.get_data_frequency(0b00101000), Ok(864_500_00));
    assert_eq!(c.get_data_frequency(0xFF), Ok(864_500_00));
}

#[test]
fn data_frequency_covers_whole_uplink_table() {
    let expected: [u32; 6] = [
        864_100_00, 864_300_00, 864_500_00, 868_100_00, 868_300_00, 868_500_00,
    ];
    for (i, want) in expected.iter().enumerate() {
        let mut c = Configuration::new();
        let random = (i as u8) << 3;
        assert_eq!(c.get_data_frequency(random), Ok(*want));
        let mut with_subband = Configuration::new();
        with_subband.set_subband(i as u8 + 1);
        assert_eq!(with_subband.get_data_frequency(0), Ok(*want));
    }
}

#[test]
fn data_frequency_rejects_subband_zero() {
    let mut c = Configuration::new();
    c.set_subband(0);
    assert_eq!(c.get_data_frequency(0), Err(CoreError::ConfigurationError));
}

#[test]
fn data_frequency_rejects_subband_past_table() {
    let mut c = Configuration::new();
    c.set_subband(7);
    assert_eq!(c.get_data_frequency(0), Err(CoreError::ConfigurationError));
    let mut c8 = Configuration::new();
    c8.set_subband(8);
    assert_eq!(c8.get_data_frequency(0), Err(CoreError::ConfigurationError));
    let mut big = Configuration::new();
    big.set_subband(200);
    assert_eq!(big.get_data_frequency(0), Err(CoreError::ConfigurationError));
}

#[test]
fn data_frequency_rejects_random_index_past_table() {
    // Bits 3 to 5 equal to 6 or 7 point past the six-entry uplink table.
    let mut c = Configuration::new();
    assert_eq!(
        c.get_data_frequency(0b00110000),
        Err(CoreError::ConfigurationError)
    );
    assert_eq!(
        c.get_data_frequency(0b00111000),
        Err(CoreError::ConfigurationError)
    );
}

#[test]
fn join_accept_delays_are_the_regional_constants() {
    let mut c = Configuration::new();
    assert_eq!(c.get_join_accept_delay1(), 5);
    assert_eq!(c.get_join_accept_delay2(), 6);
}
