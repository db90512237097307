use vstd::prelude::*;

verus! {

/// Where a watched value stands against the bounds of its alarm.
#[derive(Clone, Copy, Debug, PartialEq, Eq, Structural)]
#[allow(non_camel_case_types)]
pub enum AlarmZone {
    UNKNOW,
    MIDDLE,
    VERY_LOW,
    LOW,
    HIGH,
    VERY_HIGH,
}

/// The wire number of each zone.
pub open spec fn zone_number(z: AlarmZone) -> i32 {
    match z {
        AlarmZone::UNKNOW => 0,
        AlarmZone::MIDDLE => 1,
        AlarmZone::VERY_LOW => 2,
        AlarmZone::LOW => 3,
        AlarmZone::HIGH => 4,
        AlarmZone::VERY_HIGH => 5,
    }
}

impl AlarmZone {
    /// The wire number of the zone.
    pub fn value(&self) -> (r: i32)
        ensures
            r == zone_number(*self),
    {
        match self {
            AlarmZone::UNKNOW => 0,
            AlarmZone::MIDDLE => 1,
            AlarmZone::VERY_LOW => 2,
            AlarmZone::LOW => 3,
            AlarmZone::HIGH => 4,
            AlarmZone::VERY_HIGH => 5,
        }
    }

    /// The zone with wire number `value`, if there is one.
    pub fn from_i32(value: i32) -> (r: Option<AlarmZone>)
        ensures
            r matches Some(z) ==> zone_number(z) == value,
            r is None <==> !(0 <= value <= 5),
    {
        match value {
            0 => Some(AlarmZone::UNKNOW),
            1 => Some(AlarmZone::MIDDLE),
            2 => Some(AlarmZone::VERY_LOW),
            3 => Some(AlarmZone::LOW),
            4 => Some(AlarmZone::HIGH),
            5 => Some(AlarmZone::VERY_HIGH),
            _ => None,
        }
    }

    /// Every zone, in wire order.
    pub fn values() -> (r: Vec<AlarmZone>)
        ensures
            r@.len() == 6,
            forall|i: int| 0 <= i < 6 ==> zone_number(#[trigger] r@[i]) == i,
    {
        vec![AlarmZone::UNKNOW, AlarmZone::MIDDLE, AlarmZone::VERY_LOW, AlarmZone::LOW, AlarmZone::HIGH, AlarmZone::VERY_HIGH]
    }
}

/// Each zone has its own wire number, and reading a zone's number gives the zone back.
pub proof fn lemma_zone_number_round_trip(z: AlarmZone, w: AlarmZone)
    ensures
        0 <= zone_number(z) <= 5,
        zone_number(z) == zone_number(w) ==> z == w,
{
}

} // verus!
