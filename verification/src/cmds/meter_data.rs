//! The quantities that a meter reports, and their scale codes.

use vstd::prelude::*;

verus! {

/// One meter reading, tagged with the quantity and the unit it is given in.
///
/// The reading is a double-precision number. A variant holds it as its
/// IEEE 754 bit pattern, the value that `f64::to_bits` returns and that
/// `f64::from_bits` turns back into the number.
#[allow(non_camel_case_types)]
#[derive(Copy, Clone, Debug)]
pub enum MeterData {
    Electric_kWh(u64),
    Electric_kVAh(u64),
    Electric_W(u64),
    Electric_PulseCount(u64),
    Gas_meter2(u64),
    Gas_feet2(u64),
    Gas_PulseCount(u64),
    Water_meter2(u64),
    Water_feet2(u64),
    Water_Gallons(u64),
    Water_PulseCount(u64),
}

impl MeterData {
    /// The scale code of the reading's unit.
    ///
    /// A code has a meaning only within its family: 0 stands for kWh on an
    /// electric meter and for cubic meters on a gas or water meter. The code
    /// depends on the variant alone, never on the reading.
    pub open spec fn spec_get_scale(&self) -> u8 {
        match *self {
            MeterData::Electric_kWh(_) => 0x00,
            MeterData::Electric_kVAh(_) => 0x01,
            MeterData::Electric_W(_) => 0x02,
            MeterData::Electric_PulseCount(_) => 0x03,
            MeterData::Gas_meter2(_) => 0x00,
            MeterData::Gas_feet2(_) => 0x01,
            MeterData::Gas_PulseCount(_) => 0x03,
            MeterData::Water_meter2(_) => 0x00,
            MeterData::Water_feet2(_) => 0x01,
            MeterData::Water_Gallons(_) => 0x02,
            MeterData::Water_PulseCount(_) => 0x03,
        }
    }

    /// Returns the scale code of the reading's unit, a value from 0 to 3.
    #[verifier::when_used_as_spec(spec_get_scale)]
    pub fn get_scale(&self) -> (scale: u8)
        ensures
            scale == self.spec_get_scale(),
            scale <= 3,
    {
        match *self {
            MeterData::Electric_kWh(_) => 0x00,
            MeterData::Electric_kVAh(_) => 0x01,
            MeterData::Electric_W(_) => 0x02,
            MeterData::Electric_PulseCount(_) => 0x03,
            MeterData::Gas_meter2(_) => 0x00,
            MeterData::Gas_feet2(_) => 0x01,
            MeterData::Gas_PulseCount(_) => 0x03,
            MeterData::Water_meter2(_) => 0x00,
            MeterData::Water_feet2(_) => 0x01,
            MeterData::Water_Gallons(_) => 0x02,
            MeterData::Water_PulseCount(_) => 0x03,
        }
    }
}

} // verus!
