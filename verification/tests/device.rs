use cryptoauthlib::create_atecc_device;
use cryptoauthlib::iface::{AtcaIfaceCfg, AtcaIfaceType};
use cryptoauthlib::devtype::AtcaDeviceType;
use cryptoauthlib::slot::{KeyType, NonceTarget, SignMode, VerifyMode};
use cryptoauthlib::status::AtcaStatus;
use cryptoauthlib::AteccDevice;

fn test_cfg(devtype: AtcaDeviceType) -> AtcaIfaceCfg {
    AtcaIfaceCfg {
        iface_type: AtcaIfaceType::AtcaI2cIface,
        devtype,
        iface: None,
        wake_delay: 1500,
        rx_retries: 20,
    }
}

fn success_device() -> cryptoauthlib::sw_impl::AteccDevice {
    create_atecc_device(test_cfg(AtcaDeviceType::AtcaTestDevSuccess)).unwrap()
}

fn fail_device() -> cryptoauthlib::sw_impl::AteccDevice {
    create_atecc_device(test_cfg(AtcaDeviceType::AtcaTestDevFail)).unwrap()
}

#[test]
fn sha_on_test_message_succeeds_with_full_digest() {
    let mut device = success_device();
    let message = b"TestMessage".to_vec();
    let mut digest: Vec<u8> = Vec::new();
    assert_eq!(device.sha(message, &mut digest), AtcaStatus::AtcaSuccess);
    assert_eq!(digest.len(), 32);
    assert_eq!(device.release(), AtcaStatus::AtcaSuccess);
}

#[test]
fn fail_device_random_fails_on_every_call() {
    let device = fail_device();
    for _ in 0..3 {
        let mut rand_out: Vec<u8> = Vec::new();
        assert_eq!(device.random(&mut rand_out), AtcaStatus::AtcaCommFail);
        assert!(rand_out.is_empty());
    }
}

#[test]
fn random_leaves_exactly_32_bytes_whatever_the_length_before() {
    let device = success_device();
    for prior_len in [0usize, 5, 32, 100] {
        let mut rand_out: Vec<u8> = vec![0xEE; prior_len];
        assert_eq!(device.random(&mut rand_out), AtcaStatus::AtcaSuccess);
        assert_eq!(rand_out.len(), 32);
        assert!(rand_out.iter().all(|&b| b == 0xA5));
    }
}

#[test]
fn sha_rejects_oversized_message_before_any_transport() {
    // Even on the device whose every transport operation fails, an oversized
    // message is reported as a bad parameter, not as a communication error:
    // the check happens before the transport.
    let oversized = vec![0u8; 65536];
    let mut digest: Vec<u8> = vec![7, 7];
    assert_eq!(
        fail_device().sha(oversized.clone(), &mut digest),
        AtcaStatus::AtcaBadParam
    );
    assert_eq!(digest, vec![7, 7]);
    assert_eq!(
        success_device().sha(oversized, &mut digest),
        AtcaStatus::AtcaBadParam
    );
    assert_eq!(digest, vec![7, 7]);
}

#[test]
fn sha_accepts_largest_message_the_protocol_can_carry() {
    let device = success_device();
    let mut digest: Vec<u8> = Vec::new();
    let message = vec![0u8; 65535];
    assert_eq!(device.sha(message, &mut digest), AtcaStatus::AtcaSuccess);
    assert_eq!(digest.len(), 32);
}

#[test]
fn read_then_cmp_reports_unchanged_configuration() {
    let device = success_device();
    let mut config_data: Vec<u8> = Vec::new();
    assert_eq!(device.read_config_zone(&mut config_data), AtcaStatus::AtcaSuccess);
    let mut same_config = false;
    assert_eq!(
        device.cmp_config_zone(&mut config_data, &mut same_config),
        AtcaStatus::AtcaSuccess
    );
    assert!(same_config);
}

#[test]
fn cmp_detects_a_changed_configuration() {
    let device = success_device();
    let mut config_data: Vec<u8> = Vec::new();
    assert_eq!(device.read_config_zone(&mut config_data), AtcaStatus::AtcaSuccess);
    config_data[0] ^= 0xFF;
    let mut same_config = true;
    assert_eq!(
        device.cmp_config_zone(&mut config_data, &mut same_config),
        AtcaStatus::AtcaSuccess
    );
    assert!(!same_config);
}

#[test]
fn cmp_with_wrong_sized_buffer_is_bad_param() {
    let device = success_device();
    let mut config_data: Vec<u8> = vec![0u8; 10];
    let mut same_config = true;
    assert_eq!(
        device.cmp_config_zone(&mut config_data, &mut same_config),
        AtcaStatus::AtcaBadParam
    );
    // The flag is untouched and no comparison was attempted.
    assert!(same_config);
    assert_eq!(config_data.len(), 10);
}

#[test]
fn release_twice_reports_nothing_to_release() {
    let mut device = success_device();
    assert_eq!(device.release(), AtcaStatus::AtcaSuccess);
    assert_eq!(device.release(), AtcaStatus::AtcaNotInitialized);
    // A released session answers every operation without panicking.
    let mut rand_out: Vec<u8> = Vec::new();
    assert_eq!(device.random(&mut rand_out), AtcaStatus::AtcaNotInitialized);
    assert_eq!(device.get_device_type(), AtcaDeviceType::AtcaTestDevSuccess);
}

#[test]
fn verify_hash_comm_failure_is_the_error_variant() {
    let device = fail_device();
    let hash = vec![0u8; 32];
    let signature = vec![0u8; 64];
    let public_key = vec![0u8; 64];
    let result = device.verify_hash(VerifyMode::External(public_key), &hash, &signature);
    assert_eq!(result, Err(AtcaStatus::AtcaCommFail));
}

#[test]
fn verify_hash_success_and_bad_parameters() {
    let device = success_device();
    let hash = vec![0u8; 32];
    let signature = vec![0u8; 64];
    assert_eq!(
        device.verify_hash(VerifyMode::External(vec![0u8; 64]), &hash, &signature),
        Ok(true)
    );
    // Wrong hash length.
    assert_eq!(
        device.verify_hash(VerifyMode::External(vec![0u8; 64]), &hash[..31], &signature),
        Err(AtcaStatus::AtcaBadParam)
    );
    // Wrong signature length.
    assert_eq!(
        device.verify_hash(VerifyMode::External(vec![0u8; 64]), &hash, &signature[..63]),
        Err(AtcaStatus::AtcaBadParam)
    );
    // Truncated public key.
    assert_eq!(
        device.verify_hash(VerifyMode::External(vec![0u8; 63]), &hash, &signature),
        Err(AtcaStatus::AtcaBadParam)
    );
    // Internal mode with an invalid slot.
    assert_eq!(
        device.verify_hash(VerifyMode::Internal(16), &hash, &signature),
        Err(AtcaStatus::AtcaBadParam)
    );
    // Internal mode with a valid slot.
    assert_eq!(
        device.verify_hash(VerifyMode::Internal(0), &hash, &signature),
        Ok(true)
    );
}

#[test]
fn nonce_target_rules_for_non_top_tier_devices() {
    let device = success_device();
    assert_eq!(
        device.nonce(NonceTarget::TempKey, &[0u8; 32]),
        AtcaStatus::AtcaSuccess
    );
    assert_eq!(
        device.nonce(NonceTarget::TempKey, &[0u8; 16]),
        AtcaStatus::AtcaBadParam
    );
    assert_eq!(
        device.nonce(NonceTarget::MsgDigBuf, &[0u8; 32]),
        AtcaStatus::AtcaBadParam
    );
    assert_eq!(
        device.nonce(NonceTarget::AltKeyBuf, &[0u8; 32]),
        AtcaStatus::AtcaBadParam
    );
}

#[test]
fn nonce_rand_requires_the_fixed_host_nonce_size() {
    let device = success_device();
    let mut rand_out: Vec<u8> = Vec::new();
    assert_eq!(
        device.nonce_rand(&[0u8; 20], &mut rand_out),
        AtcaStatus::AtcaSuccess
    );
    assert_eq!(rand_out.len(), 32);
    assert_eq!(
        device.nonce_rand(&[0u8; 32], &mut rand_out),
        AtcaStatus::AtcaBadParam
    );
}

#[test]
fn gen_key_validates_slot_kind_and_lock() {
    let device = success_device();
    assert_eq!(device.gen_key(KeyType::P256EccKey, 0), AtcaStatus::AtcaSuccess);
    assert_eq!(device.gen_key(KeyType::P256EccKey, 16), AtcaStatus::AtcaInvalidId);
    assert_eq!(device.gen_key(KeyType::ShaOrText, 0), AtcaStatus::AtcaBadParam);
    assert_eq!(device.gen_key(KeyType::Rfu, 0), AtcaStatus::AtcaBadParam);
    // Slot 1 is individually locked on the test double.
    assert_eq!(device.gen_key(KeyType::P256EccKey, 1), AtcaStatus::AtcaExecutionError);
    assert_eq!(fail_device().gen_key(KeyType::P256EccKey, 0), AtcaStatus::AtcaCommFail);
}

#[test]
fn import_key_validates_key_material_size() {
    let device = success_device();
    assert_eq!(
        device.import_key(KeyType::P256EccKey, &[0u8; 32], 0),
        AtcaStatus::AtcaSuccess
    );
    assert_eq!(
        device.import_key(KeyType::P256EccKey, &[0u8; 31], 0),
        AtcaStatus::AtcaInvalidSize
    );
    assert_eq!(
        device.import_key(KeyType::Aes, &[0u8; 16], 0),
        AtcaStatus::AtcaSuccess
    );
    assert_eq!(
        device.import_key(KeyType::Rfu, &[0u8; 32], 0),
        AtcaStatus::AtcaBadParam
    );
    assert_eq!(
        device.import_key(KeyType::P256EccKey, &[0u8; 32], 99),
        AtcaStatus::AtcaInvalidId
    );
    assert_eq!(
        device.import_key(KeyType::ShaOrText, &[0u8; 32], 1),
        AtcaStatus::AtcaExecutionError
    );
}

#[test]
fn get_public_key_needs_a_private_key_slot() {
    let device = success_device();
    let mut public_key: Vec<u8> = Vec::new();
    assert_eq!(device.get_public_key(0, &mut public_key), AtcaStatus::AtcaSuccess);
    assert_eq!(public_key.len(), 64);
    // Slot 2 of the test double holds no key for the supported curve.
    assert_eq!(
        device.get_public_key(2, &mut public_key),
        AtcaStatus::AtcaExecutionError
    );
    assert_eq!(device.get_public_key(200, &mut public_key), AtcaStatus::AtcaInvalidId);
}

#[test]
fn sign_hash_produces_a_full_signature() {
    let device = success_device();
    let mut signature: Vec<u8> = Vec::new();
    assert_eq!(
        device.sign_hash(SignMode::External(vec![0u8; 32]), 0, &mut signature),
        AtcaStatus::AtcaSuccess
    );
    assert_eq!(signature.len(), 64);
    assert_eq!(
        device.sign_hash(SignMode::External(vec![0u8; 31]), 0, &mut signature),
        AtcaStatus::AtcaBadParam
    );
    assert_eq!(
        device.sign_hash(SignMode::External(vec![0u8; 32]), 3, &mut signature),
        AtcaStatus::AtcaExecutionError
    );
    assert_eq!(
        fail_device().sign_hash(SignMode::External(vec![0u8; 32]), 0, &mut signature),
        AtcaStatus::AtcaCommFail
    );
}

#[test]
fn zone_locks_are_reported_independently() {
    let device = success_device();
    assert_eq!(device.configuration_is_locked(), Ok(true));
    assert_eq!(device.data_zone_is_locked(), Ok(false));
    let failing = fail_device();
    assert_eq!(failing.configuration_is_locked(), Err(AtcaStatus::AtcaCommFail));
    assert_eq!(failing.data_zone_is_locked(), Err(AtcaStatus::AtcaCommFail));
}

#[test]
fn read_config_zone_resizes_to_device_geometry() {
    let device = success_device();
    let mut config_data: Vec<u8> = vec![1, 2, 3];
    assert_eq!(device.read_config_zone(&mut config_data), AtcaStatus::AtcaSuccess);
    assert_eq!(config_data.len(), 128);
    assert_eq!(config_data[86], 0x55);
    assert_eq!(config_data[87], 0x00);
    assert_eq!(config_data[20], 0x87);
    let failing = fail_device();
    let mut untouched: Vec<u8> = vec![9];
    assert_eq!(failing.read_config_zone(&mut untouched), AtcaStatus::AtcaCommFail);
    assert_eq!(untouched, vec![9]);
}

#[test]
fn get_config_describes_all_sixteen_slots() {
    let device = success_device();
    let mut atca_slots = Vec::new();
    assert_eq!(device.get_config(&mut atca_slots), AtcaStatus::AtcaSuccess);
    assert_eq!(atca_slots.len(), 16);
    for (i, slot) in atca_slots.iter().enumerate() {
        assert_eq!(slot.id as usize, i);
    }
    let slot0 = &atca_slots[0];
    assert!(!slot0.is_locked);
    assert_eq!(slot0.config.key_type, KeyType::P256EccKey);
    assert!(slot0.config.ecc_key_attr.is_private);
    assert!(slot0.config.ecc_key_attr.ext_sign);
    assert!(slot0.config.ecc_key_attr.int_sign);
    assert!(slot0.config.ecc_key_attr.ecdh_operation);
    assert!(!slot0.config.ecc_key_attr.ecdh_secret_out);
    assert!(slot0.config.is_secret);
    assert!(slot0.config.pub_info);
    let slot1 = &atca_slots[1];
    assert!(slot1.is_locked);
    assert_eq!(slot1.config.key_type, KeyType::Rfu);
    assert!(!slot1.config.ecc_key_attr.is_private);
}

#[test]
fn get_device_type_answers_without_a_round_trip() {
    assert_eq!(
        success_device().get_device_type(),
        AtcaDeviceType::AtcaTestDevSuccess
    );
    assert_eq!(fail_device().get_device_type(), AtcaDeviceType::AtcaTestDevFail);
}

#[test]
fn factory_rejects_the_unknown_device_type() {
    let result = create_atecc_device(test_cfg(AtcaDeviceType::AtcaDevUnknown));
    assert_eq!(
        result.err().unwrap(),
        "Attempting to create an unknown device type"
    );
}

#[test]
fn factory_reports_missing_transport_for_hardware_types() {
    for devtype in [
        AtcaDeviceType::ATECC508A,
        AtcaDeviceType::ATECC608A,
        AtcaDeviceType::ATECC108A,
        AtcaDeviceType::ATSHA204A,
    ] {
        let result = create_atecc_device(test_cfg(devtype));
        assert!(result.is_err());
    }
}
