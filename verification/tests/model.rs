use cryptoauthlib::config_zone::{
    config_zone_is_locked, config_zone_to_slots, data_zone_is_locked, key_type_from_bits,
    slot_from_config_zone, slot_is_locked, write_config_from_nibble,
};
use cryptoauthlib::devtype::{atca_device_type_from_raw, config_zone_size, AtcaDeviceType};
use cryptoauthlib::iface::{atca_iface_setup_i2c, AtcaIface, AtcaIfaceType};
use cryptoauthlib::shim::{import_key_data_size, nonce_target_ok, slot_number_ok};
use cryptoauthlib::slot::{KeyType, NonceTarget, WriteConfig};
use cryptoauthlib::status::{atca_status_from_raw, AtcaStatus};

#[test]
fn status_mapping_covers_the_known_codes() {
    assert_eq!(atca_status_from_raw(0x00), AtcaStatus::AtcaSuccess);
    assert_eq!(atca_status_from_raw(0x01), AtcaStatus::AtcaConfigZoneLocked);
    assert_eq!(atca_status_from_raw(0x02), AtcaStatus::AtcaDataZoneLocked);
    assert_eq!(atca_status_from_raw(0xD0), AtcaStatus::AtcaWakeFailed);
    assert_eq!(atca_status_from_raw(0xD1), AtcaStatus::AtcaCheckMacVerifyFailed);
    assert_eq!(atca_status_from_raw(0xD2), AtcaStatus::AtcaParseError);
    assert_eq!(atca_status_from_raw(0xD4), AtcaStatus::AtcaStatusCrc);
    assert_eq!(atca_status_from_raw(0xD5), AtcaStatus::AtcaStatusUnknown);
    assert_eq!(atca_status_from_raw(0xD6), AtcaStatus::AtcaStatusEcc);
    assert_eq!(atca_status_from_raw(0xD7), AtcaStatus::AtcaStatusSelftestError);
    assert_eq!(atca_status_from_raw(0xE0), AtcaStatus::AtcaFuncFail);
    assert_eq!(atca_status_from_raw(0xE1), AtcaStatus::AtcaGenFail);
    assert_eq!(atca_status_from_raw(0xE2), AtcaStatus::AtcaBadParam);
    assert_eq!(atca_status_from_raw(0xE3), AtcaStatus::AtcaInvalidId);
    assert_eq!(atca_status_from_raw(0xE4), AtcaStatus::AtcaInvalidSize);
    assert_eq!(atca_status_from_raw(0xE5), AtcaStatus::AtcaRxCrcError);
    assert_eq!(atca_status_from_raw(0xE6), AtcaStatus::AtcaRxFail);
    assert_eq!(atca_status_from_raw(0xE7), AtcaStatus::AtcaRxNoResponse);
    assert_eq!(atca_status_from_raw(0xED), AtcaStatus::AtcaSmallBuffer);
    assert_eq!(atca_status_from_raw(0xF0), AtcaStatus::AtcaCommFail);
    assert_eq!(atca_status_from_raw(0xF1), AtcaStatus::AtcaTimeout);
    assert_eq!(atca_status_from_raw(0xF2), AtcaStatus::AtcaBadOpcode);
    assert_eq!(atca_status_from_raw(0xF4), AtcaStatus::AtcaExecutionError);
    assert_eq!(atca_status_from_raw(0xF5), AtcaStatus::AtcaUnimplemented);
    assert_eq!(atca_status_from_raw(0xF7), AtcaStatus::AtcaTxFail);
    assert_eq!(atca_status_from_raw(0xF8), AtcaStatus::AtcaNotLocked);
    assert_eq!(atca_status_from_raw(0xF9), AtcaStatus::AtcaNoDevices);
}

#[test]
fn status_mapping_is_total_over_unrecognized_codes() {
    assert_eq!(atca_status_from_raw(0x77), AtcaStatus::AtcaUnknown);
    assert_eq!(atca_status_from_raw(0xFF), AtcaStatus::AtcaUnknown);
    assert_eq!(atca_status_from_raw(0x03), AtcaStatus::AtcaUnknown);
}

#[test]
fn device_type_mapping_is_total() {
    assert_eq!(atca_device_type_from_raw(0), AtcaDeviceType::ATSHA204A);
    assert_eq!(atca_device_type_from_raw(1), AtcaDeviceType::ATECC108A);
    assert_eq!(atca_device_type_from_raw(2), AtcaDeviceType::ATECC508A);
    assert_eq!(atca_device_type_from_raw(3), AtcaDeviceType::ATECC608A);
    assert_eq!(atca_device_type_from_raw(9), AtcaDeviceType::AtcaDevUnknown);
    assert_eq!(atca_device_type_from_raw(255), AtcaDeviceType::AtcaDevUnknown);
}

#[test]
fn config_zone_geometry_by_device_family() {
    assert_eq!(config_zone_size(AtcaDeviceType::ATECC508A), 128);
    assert_eq!(config_zone_size(AtcaDeviceType::ATECC608A), 128);
    assert_eq!(config_zone_size(AtcaDeviceType::ATECC108A), 128);
    assert_eq!(config_zone_size(AtcaDeviceType::ATSHA204A), 88);
    assert_eq!(config_zone_size(AtcaDeviceType::AtcaTestDevSuccess), 128);
    assert_eq!(config_zone_size(AtcaDeviceType::AtcaTestDevFail), 128);
}

#[test]
fn iface_setup_builds_the_full_configuration() {
    let cfg = atca_iface_setup_i2c(
        AtcaDeviceType::ATECC608A,
        1500,
        20,
        Some(0xC0),
        Some(2),
        Some(400000),
    )
    .unwrap();
    assert_eq!(cfg.iface_type, AtcaIfaceType::AtcaI2cIface);
    assert_eq!(cfg.devtype, AtcaDeviceType::ATECC608A);
    assert_eq!(cfg.wake_delay, 1500);
    assert_eq!(cfg.rx_retries, 20);
    match cfg.iface {
        Some(AtcaIface::I2c(i2c)) => {
            assert_eq!(i2c.slave_address, 0xC0);
            assert_eq!(i2c.bus, 2);
            assert_eq!(i2c.baud, 400000);
        }
        None => panic!("expected i2c parameters"),
    }
}

#[test]
fn iface_setup_names_the_first_missing_field() {
    assert_eq!(
        atca_iface_setup_i2c(AtcaDeviceType::ATECC608A, 1500, 20, None, Some(2), Some(400000))
            .err()
            .unwrap(),
        "missing i2c slave address"
    );
    assert_eq!(
        atca_iface_setup_i2c(AtcaDeviceType::ATECC608A, 1500, 20, Some(0xC0), None, Some(400000))
            .err()
            .unwrap(),
        "missing i2c bus"
    );
    assert_eq!(
        atca_iface_setup_i2c(AtcaDeviceType::ATECC608A, 1500, 20, Some(0xC0), Some(2), None)
            .err()
            .unwrap(),
        "missing i2c baud rate"
    );
}

#[test]
fn write_config_nibble_mapping() {
    assert_eq!(write_config_from_nibble(0x0), WriteConfig::Always);
    assert_eq!(write_config_from_nibble(0x1), WriteConfig::PubInvalid);
    assert_eq!(write_config_from_nibble(0x2), WriteConfig::Never);
    assert_eq!(write_config_from_nibble(0x3), WriteConfig::Never);
    assert_eq!(write_config_from_nibble(0x4), WriteConfig::Encrypt);
    assert_eq!(write_config_from_nibble(0x5), WriteConfig::Encrypt);
    assert_eq!(write_config_from_nibble(0x6), WriteConfig::Encrypt);
    assert_eq!(write_config_from_nibble(0x8), WriteConfig::Never);
    assert_eq!(write_config_from_nibble(0xA), WriteConfig::Never);
    assert_eq!(write_config_from_nibble(0xC), WriteConfig::Encrypt);
}

#[test]
fn key_type_bits_mapping() {
    assert_eq!(key_type_from_bits(4), KeyType::P256EccKey);
    assert_eq!(key_type_from_bits(6), KeyType::Aes);
    assert_eq!(key_type_from_bits(7), KeyType::ShaOrText);
    assert_eq!(key_type_from_bits(0), KeyType::Rfu);
    assert_eq!(key_type_from_bits(5), KeyType::Rfu);
}

#[test]
fn parsing_a_crafted_config_zone() {
    let mut config = vec![0u8; 128];
    // Slot 5: encrypted reads keyed to slot 3, secret, written encrypted with
    // key 9; an AES key, individually unlocked.
    config[20 + 2 * 5] = 0x40 | 0x80 | 0x03;
    config[20 + 2 * 5 + 1] = 0x49;
    config[96 + 2 * 5] = 6 << 2;
    config[96 + 2 * 5 + 1] = 0x10 | 0x02;
    config[88] = 0x20;
    let slot = slot_from_config_zone(&config, 5);
    assert_eq!(slot.id, 5);
    assert!(!slot.is_locked);
    assert!(slot.config.read_key.encrypt_read);
    assert_eq!(slot.config.read_key.slot_number, 3);
    assert!(slot.config.is_secret);
    assert_eq!(slot.config.write_key, 9);
    assert_eq!(slot.config.write_config, WriteConfig::Encrypt);
    assert_eq!(slot.config.key_type, KeyType::Aes);
    assert!(slot.config.persistent_disable);
    assert_eq!(slot.config.auth_key, 2);
    assert!(!slot.config.ecc_key_attr.is_private);
    // Every other slot is locked.
    assert!(slot_is_locked(&config, 4));
    assert!(!slot_is_locked(&config, 5));
    assert!(slot_is_locked(&config, 12));

    let mut slots = Vec::new();
    assert_eq!(config_zone_to_slots(&config, &mut slots), AtcaStatus::AtcaSuccess);
    assert_eq!(slots.len(), 16);
    assert_eq!(slots[5], slot);

    let short = vec![0u8; 88];
    let mut untouched = slots.clone();
    assert_eq!(
        config_zone_to_slots(&short, &mut untouched),
        AtcaStatus::AtcaBadParam
    );
    assert_eq!(untouched.len(), 16);
}

#[test]
fn nonce_targets_by_device_family() {
    // The top-tier family accepts every target, the longer nonce only where
    // the datasheet allows it.
    let top = AtcaDeviceType::ATECC608A;
    assert!(nonce_target_ok(top, NonceTarget::TempKey, 32));
    assert!(nonce_target_ok(top, NonceTarget::TempKey, 64));
    assert!(nonce_target_ok(top, NonceTarget::MsgDigBuf, 32));
    assert!(nonce_target_ok(top, NonceTarget::MsgDigBuf, 64));
    assert!(nonce_target_ok(top, NonceTarget::AltKeyBuf, 32));
    assert!(!nonce_target_ok(top, NonceTarget::AltKeyBuf, 64));
    assert!(!nonce_target_ok(top, NonceTarget::TempKey, 16));
    // Every other family member supports TempKey at the standard size alone.
    let mid = AtcaDeviceType::ATECC508A;
    assert!(nonce_target_ok(mid, NonceTarget::TempKey, 32));
    assert!(!nonce_target_ok(mid, NonceTarget::TempKey, 64));
    assert!(!nonce_target_ok(mid, NonceTarget::MsgDigBuf, 32));
    assert!(!nonce_target_ok(mid, NonceTarget::AltKeyBuf, 32));
}

#[test]
fn slot_and_key_material_validation() {
    assert!(slot_number_ok(0));
    assert!(slot_number_ok(15));
    assert!(!slot_number_ok(16));
    assert_eq!(import_key_data_size(KeyType::P256EccKey), Some(32));
    assert_eq!(import_key_data_size(KeyType::Aes), Some(16));
    assert_eq!(import_key_data_size(KeyType::ShaOrText), Some(32));
    assert_eq!(import_key_data_size(KeyType::Rfu), None);
}

#[test]
fn zone_lock_bytes_are_read_independently() {
    let mut config = vec![0u8; 128];
    config[86] = 0x55;
    config[87] = 0x55;
    assert_eq!(data_zone_is_locked(&config), Ok(false));
    assert_eq!(config_zone_is_locked(&config), Ok(false));
    config[87] = 0x00;
    assert_eq!(config_zone_is_locked(&config), Ok(true));
    assert_eq!(data_zone_is_locked(&config), Ok(false));
    config[86] = 0x01;
    assert_eq!(data_zone_is_locked(&config), Ok(true));
    let short = vec![0u8; 3];
    assert_eq!(config_zone_is_locked(&short), Err(AtcaStatus::AtcaBadParam));
}
