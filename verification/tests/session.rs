use cryptoauthlib::devtype::AtcaDeviceType;
use cryptoauthlib::iface::{AtcaIfaceCfg, AtcaIfaceType};
use cryptoauthlib::session::AteccSessionManager;
use cryptoauthlib::status::AtcaStatus;

fn test_cfg(devtype: AtcaDeviceType) -> AtcaIfaceCfg {
    AtcaIfaceCfg {
        iface_type: AtcaIfaceType::AtcaI2cIface,
        devtype,
        iface: None,
        wake_delay: 1500,
        rx_retries: 20,
    }
}

#[test]
fn only_one_session_is_ever_live() {
    let mut manager = AteccSessionManager::new();
    assert!(!manager.active());
    assert!(manager.init(test_cfg(AtcaDeviceType::AtcaTestDevSuccess)).is_ok());
    assert!(manager.active());
    // A second attempt while a session is live fails cleanly and leaves the
    // live session in place.
    let second = manager.init(test_cfg(AtcaDeviceType::AtcaTestDevSuccess));
    assert_eq!(second.err().unwrap(), "a device session is already active");
    assert!(manager.active());
    // After a release the slot is free again.
    assert_eq!(manager.release(), AtcaStatus::AtcaSuccess);
    assert!(!manager.active());
    assert!(manager.init(test_cfg(AtcaDeviceType::AtcaTestDevFail)).is_ok());
    assert!(manager.active());
    assert_eq!(manager.release(), AtcaStatus::AtcaSuccess);
}

#[test]
fn releasing_an_empty_slot_reports_nothing_to_release() {
    let mut manager = AteccSessionManager::new();
    assert_eq!(manager.release(), AtcaStatus::AtcaNotInitialized);
    assert_eq!(manager.release(), AtcaStatus::AtcaNotInitialized);
}

#[test]
fn failed_initialization_leaves_the_slot_empty() {
    let mut manager = AteccSessionManager::new();
    assert!(manager.init(test_cfg(AtcaDeviceType::AtcaDevUnknown)).is_err());
    assert!(!manager.active());
    assert!(manager.init(test_cfg(AtcaDeviceType::ATECC608A)).is_err());
    assert!(!manager.active());
    // The slot is still usable after rejected attempts.
    assert!(manager.init(test_cfg(AtcaDeviceType::AtcaTestDevSuccess)).is_ok());
    assert!(manager.active());
}
