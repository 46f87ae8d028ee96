//! The interface configuration consumed by the device factory, and its
//! construction with mandatory-field checking.

use vstd::prelude::*;
use crate::devtype::AtcaDeviceType;

verus! {

/// Bus protocol variant a device is attached through.
#[derive(Clone, Copy, Debug, PartialEq, Eq, Structural)]
pub enum AtcaIfaceType {
    /// Two-wire serial bus.
    AtcaI2cIface,
    /// Single-wire interface.
    AtcaSwiIface,
    /// Serial line.
    AtcaUartIface,
    /// Four-wire serial bus.
    AtcaSpiIface,
    /// An unrecognized interface kind.
    AtcaUnknownIface,
}

/// Transport parameters of a device attached over the two-wire serial bus.
#[derive(Clone, Copy, Debug, PartialEq, Eq, Structural)]
pub struct AtcaIfaceI2c {
    /// Bus address of the device.
    pub slave_address: u8,
    /// Bus number the device is attached to.
    pub bus: u8,
    /// Clock rate of the bus.
    pub baud: u32,
}

/// Transport parameters of whichever bus variant the configuration names.
#[derive(Clone, Copy, Debug, PartialEq, Eq, Structural)]
pub enum AtcaIface {
    /// Parameters of the two-wire serial bus.
    I2c(AtcaIfaceI2c),
}

/// Everything the factory needs to construct a session: bus variant, device
/// type, transport parameters and retry policy.  Immutable once constructed;
/// owned by the session during its lifetime.
#[derive(Clone, Copy, Debug, PartialEq, Eq, Structural)]
pub struct AtcaIfaceCfg {
    /// Bus protocol variant.
    pub iface_type: AtcaIfaceType,
    /// Device type the factory routes on.
    pub devtype: AtcaDeviceType,
    /// Bus parameters; `None` until a bus variant's mandatory parameters have
    /// been supplied.
    pub iface: Option<AtcaIface>,
    /// Delay to apply after waking the device, in time units of the bus.
    pub wake_delay: u16,
    /// How many times receiving a response is retried before giving up.
    pub rx_retries: i32,
}

/// Builds an interface configuration for a device attached over the two-wire
/// serial bus.  All three bus parameters are mandatory: the first one absent
/// is reported by name and nothing is constructed.
pub fn atca_iface_setup_i2c(
    device_type: AtcaDeviceType,
    wake_delay: u16,
    rx_retries: i32,
    slave_address: Option<u8>,
    bus: Option<u8>,
    baud: Option<u32>,
) -> (cfg: Result<AtcaIfaceCfg, String>)
    ensures
        slave_address is None ==> (cfg matches Err(m) && m@ == "missing i2c slave address"@),
        slave_address is Some && bus is None ==> (cfg matches Err(m) && m@ == "missing i2c bus"@),
        slave_address is Some && bus is Some && baud is None ==> (cfg matches Err(m) && m@
            == "missing i2c baud rate"@),
        slave_address is Some && bus is Some && baud is Some ==> cfg == Ok::<AtcaIfaceCfg, String>(
            (AtcaIfaceCfg {
                iface_type: AtcaIfaceType::AtcaI2cIface,
                devtype: device_type,
                iface: Some(
                    AtcaIface::I2c(
                        (AtcaIfaceI2c {
                            slave_address: slave_address->0,
                            bus: bus->0,
                            baud: baud->0,
                        }),
                    ),
                ),
                wake_delay: wake_delay,
                rx_retries: rx_retries,
            }),
        ),
{
    let slave_address: u8 = match slave_address {
        Some(x) => x,
        None => {
            return Err("missing i2c slave address".to_owned());
        },
    };
    let bus: u8 = match bus {
        Some(x) => x,
        None => {
            return Err("missing i2c bus".to_owned());
        },
    };
    let baud: u32 = match baud {
        Some(x) => x,
        None => {
            return Err("missing i2c baud rate".to_owned());
        },
    };
    Ok(
        AtcaIfaceCfg {
            iface_type: AtcaIfaceType::AtcaI2cIface,
            devtype: device_type,
            iface: Some(AtcaIface::I2c(AtcaIfaceI2c { slave_address, bus, baud })),
            wake_delay,
            rx_retries,
        },
    )
}

} // verus!
