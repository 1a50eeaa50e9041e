//! The GATT layout of a peripheral as the engine reads it, and the search for the
//! power characteristic in it.

use crate::constants::{LHV2_GATT_POWER_CHARACTERISTIC, LHV2_GATT_POWER_SERVICE};
use crate::error::{Error, MissingPart};
use crate::first_match::{lemma_filter_first_match, lemma_filter_without_match};
use vstd::prelude::*;

verus! {

/// A characteristic, named by its UUID and that of its service.
#[derive(Clone, Copy, Debug, PartialEq, Eq, Structural)]
pub struct GattCharacteristic {
    pub uuid: u128,
    pub service_uuid: u128,
}

/// A service with its characteristics, in the order in which the peripheral
/// lists them.
#[derive(Debug, PartialEq, Eq)]
pub struct GattService {
    pub uuid: u128,
    pub primary: bool,
    pub characteristics: Vec<GattCharacteristic>,
}

/// Whether a service is the vendor's power service.
pub open spec fn is_power_service(service: GattService) -> bool {
    service.uuid == LHV2_GATT_POWER_SERVICE
}

/// Whether a characteristic is the power characteristic.
pub open spec fn is_power_characteristic(characteristic: GattCharacteristic) -> bool {
    characteristic.uuid == LHV2_GATT_POWER_CHARACTERISTIC
}

/// The power characteristic of a peripheral with these services: the first
/// power characteristic of the first power service. A later power service is not
/// consulted when the first one lacks the characteristic.
pub open spec fn power_characteristic_of(services: Seq<GattService>) -> Result<
    GattCharacteristic,
    Error,
> {
    let power_services = services.filter(|s: GattService| is_power_service(s));
    if power_services.len() == 0 {
        Err(Error::ProtocolVerificationFailed(MissingPart::Service))
    } else {
        let found = power_services[0].characteristics@.filter(
            |c: GattCharacteristic| is_power_characteristic(c),
        );
        if found.len() == 0 {
            Err(Error::ProtocolVerificationFailed(MissingPart::Characteristic))
        } else {
            Ok(found[0])
        }
    }
}

/// Index of the first power service, or the number of services if there is none.
fn first_power_service(services: &Vec<GattService>) -> (at: usize)
    ensures
        at <= services.len(),
        at < services.len() ==> is_power_service(services[at as int]),
        forall|k: int| 0 <= k < at ==> !is_power_service(services[k]),
{
    let mut at: usize = 0;
    while at < services.len()
        invariant
            at <= services.len(),
            forall|k: int| 0 <= k < at ==> !is_power_service(services[k]),
        decreases services.len() - at,
    {
        if services[at].uuid == LHV2_GATT_POWER_SERVICE {
            return at;
        }
        at += 1;
    }
    at
}

/// Index of the first power characteristic, or the number of characteristics if
/// there is none.
fn first_power_characteristic(characteristics: &Vec<GattCharacteristic>) -> (at: usize)
    ensures
        at <= characteristics.len(),
        at < characteristics.len() ==> is_power_characteristic(characteristics[at as int]),
        forall|k: int| 0 <= k < at ==> !is_power_characteristic(characteristics[k]),
{
    let mut at: usize = 0;
    while at < characteristics.len()
        invariant
            at <= characteristics.len(),
            forall|k: int| 0 <= k < at ==> !is_power_characteristic(characteristics[k]),
        decreases characteristics.len() - at,
    {
        if characteristics[at].uuid == LHV2_GATT_POWER_CHARACTERISTIC {
            return at;
        }
        at += 1;
    }
    at
}

/// The power characteristic of a device: the handle it holds from earlier in the
/// connection where it holds one, else the one found among its services.
pub open spec fn resolved_characteristic(
    cached: Option<GattCharacteristic>,
    services: Seq<GattService>,
) -> Result<GattCharacteristic, Error> {
    match cached {
        Some(characteristic) => Ok(characteristic),
        None => power_characteristic_of(services),
    }
}

/// Finds the power characteristic among the services that a peripheral offers.
/// Fails when the power service, or the characteristic within it, is absent: the
/// peripheral then does not speak the vendor protocol, whatever its name.
pub fn assert_power_characteristic(services: &Vec<GattService>) -> (found: Result<
    GattCharacteristic,
    Error,
>)
    ensures
        found == power_characteristic_of(services@),
{
    let ghost wanted_service = |s: GattService| is_power_service(s);
    let ghost wanted_characteristic = |c: GattCharacteristic| is_power_characteristic(c);
    let service_at = first_power_service(services);
    if service_at == services.len() {
        proof {
            lemma_filter_without_match(services@, wanted_service);
        }
        return Err(Error::ProtocolVerificationFailed(MissingPart::Service));
    }
    proof {
        lemma_filter_first_match(services@, wanted_service, service_at as int);
    }
    let characteristics = &services[service_at].characteristics;
    let at = first_power_characteristic(characteristics);
    if at == characteristics.len() {
        proof {
            lemma_filter_without_match(characteristics@, wanted_characteristic);
        }
        return Err(Error::ProtocolVerificationFailed(MissingPart::Characteristic));
    }
    proof {
        lemma_filter_first_match(characteristics@, wanted_characteristic, at as int);
    }
    Ok(characteristics[at])
}

/// As [`assert_power_characteristic`], without the reason of a failure.
pub fn get_power_characteristic(services: &Vec<GattService>) -> (found: Option<
    GattCharacteristic,
>)
    ensures
        found == match power_characteristic_of(services@) {
            Ok(characteristic) => Some(characteristic),
            Err(_) => None,
        },
{
    match assert_power_characteristic(services) {
        Ok(characteristic) => Some(characteristic),
        Err(_) => None,
    }
}

} // verus!
