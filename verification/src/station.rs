//! The stations a tagged bike travels between: the single-byte status code
//! the wireless characteristic may carry, and the name shown for it.

use vstd::prelude::*;

verus! {

/// A station on the line, carried over the air as a single byte.
#[derive(Debug, Clone, Copy, PartialEq, Eq, Structural)]
pub enum Station {
    /// San Francisco, King Street.
    SFKingStreet,
    /// San Francisco, 22nd Street.
    SF22ndStreet,
    /// Bayshore.
    Bayshore,
    /// Burlingame.
    Burlingame,
    /// San Mateo.
    SanMateo,
    /// San Jose Diridon.
    SanJoseDiridon,
}

/// The byte code of each station.
pub open spec fn spec_station_code(s: Station) -> u8 {
    match s {
        Station::SFKingStreet => 0,
        Station::SF22ndStreet => 1,
        Station::Bayshore => 2,
        Station::Burlingame => 3,
        Station::SanMateo => 4,
        Station::SanJoseDiridon => 5,
    }
}

/// The station a byte code names, if any.
pub open spec fn spec_station_from_code(v: u8) -> Option<Station> {
    if v == 0 {
        Some(Station::SFKingStreet)
    } else if v == 1 {
        Some(Station::SF22ndStreet)
    } else if v == 2 {
        Some(Station::Bayshore)
    } else if v == 3 {
        Some(Station::Burlingame)
    } else if v == 4 {
        Some(Station::SanMateo)
    } else if v == 5 {
        Some(Station::SanJoseDiridon)
    } else {
        None
    }
}

impl Station {
    /// The byte this station travels as; decoding it yields the station
    /// back.
    pub fn as_u8(&self) -> (r: u8)
        ensures
            r == spec_station_code(*self),
            spec_station_from_code(r) == Some(*self),
    {
        match self {
            Station::SFKingStreet => 0,
            Station::SF22ndStreet => 1,
            Station::Bayshore => 2,
            Station::Burlingame => 3,
            Station::SanMateo => 4,
            Station::SanJoseDiridon => 5,
        }
    }

    /// Decodes a byte from the wire; bytes that name no station are refused.
    pub fn from_u8(v: u8) -> (r: Option<Station>)
        ensures
            r == spec_station_from_code(v),
            v >= 6 ==> r is None,
    {
        match v {
            0 => Some(Station::SFKingStreet),
            1 => Some(Station::SF22ndStreet),
            2 => Some(Station::Bayshore),
            3 => Some(Station::Burlingame),
            4 => Some(Station::SanMateo),
            5 => Some(Station::SanJoseDiridon),
            _ => None,
        }
    }

    /// The name shown to a person for this station.
    pub fn name(&self) -> (r: &'static str)
        ensures
            match *self {
                Station::SFKingStreet => r@ == "San Francisco"@,
                Station::SF22ndStreet => r@ == "22nd Street"@,
                Station::Bayshore => r@ == "Bayshore"@,
                Station::Burlingame => r@ == "Burlingame"@,
                Station::SanMateo => r@ == "San Mateo"@,
                Station::SanJoseDiridon => r@ == "San Jose"@,
            },
    {
        match self {
            Station::SFKingStreet => "San Francisco",
            Station::SF22ndStreet => "22nd Street",
            Station::Bayshore => "Bayshore",
            Station::Burlingame => "Burlingame",
            Station::SanMateo => "San Mateo",
            Station::SanJoseDiridon => "San Jose",
        }
    }
}

} // verus!
