//! Location records, in the form the wire carries and in the form the
//! library works on.

use vstd::prelude::*;
use crate::instant::Instant;
use crate::timestamp::{deserialize_timestamp, timestamp_of, TimestampError};

verus! {

/// One observation as the wire carries it: the timestamp still a string of
/// decimal digits, the coordinates in units of one ten-millionth of a degree,
/// the accuracy radius in metres.
#[derive(Debug, PartialEq, Eq)]
pub struct RawLocation {
    pub timestamp_ms: String,
    pub latitude_e7: i32,
    pub longitude_e7: i32,
    pub accuracy: u32,
}

/// One observation with its timestamp turned into an instant.
#[derive(Clone, Copy, Debug, PartialEq, Eq)]
pub struct Location {
    pub timestamp: Instant,
    pub latitude: i32,
    pub longitude: i32,
    pub accuracy: u32,
}

/// A location history: the observations in the order in which they were
/// given.
#[derive(Debug, PartialEq, Eq)]
pub struct Locations {
    pub locations: Vec<Location>,
}

/// Why a history could not be loaded: the record at `index` is the first
/// whose timestamp is refused, for the reason given in `cause`.
#[derive(Clone, Copy, Debug, PartialEq, Eq)]
pub struct LoadError {
    pub index: usize,
    pub cause: TimestampError,
}

impl RawLocation {
    /// The record that this wire record stands for, or the reason why its
    /// timestamp is refused. The three numbers are taken over as they are.
    pub open spec fn normalized(self) -> Result<Location, TimestampError> {
        match timestamp_of(self.timestamp_ms@) {
            Ok(t) => Ok(
                Location {
                    timestamp: t,
                    latitude: self.latitude_e7,
                    longitude: self.longitude_e7,
                    accuracy: self.accuracy,
                },
            ),
            Err(e) => Err(e),
        }
    }
}

/// Every record of `raw` carries a timestamp that is accepted.
pub open spec fn well_formed(raw: Seq<RawLocation>) -> bool {
    forall|i: int| 0 <= i < raw.len() ==> (#[trigger] raw[i]).normalized() is Ok
}

/// The history that the wire records `raw` stand for: one record for each
/// wire record, in the same order.
pub open spec fn loaded_records(raw: Seq<RawLocation>) -> Seq<Location>
    recommends
        well_formed(raw),
{
    Seq::new(raw.len(), |i: int| raw[i].normalized()->Ok_0)
}

/// The error `e` names the first record of `raw` that is refused, and the
/// reason why it is.
pub open spec fn is_first_refusal(raw: Seq<RawLocation>, e: LoadError) -> bool {
    &&& e.index < raw.len()
    &&& raw[e.index as int].normalized() == Err::<Location, TimestampError>(e.cause)
    &&& forall|j: int| 0 <= j < e.index ==> (#[trigger] raw[j]).normalized() is Ok
}

/// Loading changes no number: where every record of `raw` is accepted, the
/// record loaded at a position has the coordinates and the accuracy of the
/// wire record at that position, and the instant that its timestamp names.
pub proof fn lemma_load_keeps_numbers(raw: Seq<RawLocation>, i: int)
    requires
        well_formed(raw),
        0 <= i < raw.len(),
    ensures
        loaded_records(raw).len() == raw.len(),
        loaded_records(raw)[i].latitude == raw[i].latitude_e7,
        loaded_records(raw)[i].longitude == raw[i].longitude_e7,
        loaded_records(raw)[i].accuracy == raw[i].accuracy,
        timestamp_of(raw[i].timestamp_ms@) == Ok::<Instant, TimestampError>(
            loaded_records(raw)[i].timestamp,
        ),
{
    assert(raw[i].normalized() is Ok);
}

impl Location {
    /// Reads one wire record. It fails exactly when the timestamp is
    /// refused; the coordinates and the accuracy come out unchanged.
    pub fn from_raw(raw: &RawLocation) -> (r: Result<Location, TimestampError>)
        ensures
            r == raw.normalized(),
            r matches Ok(l) ==> l.latitude == raw.latitude_e7 && l.longitude == raw.longitude_e7
                && l.accuracy == raw.accuracy,
    {
        match deserialize_timestamp(raw.timestamp_ms.as_str()) {
            Ok(t) => Ok(
                Location {
                    timestamp: t,
                    latitude: raw.latitude_e7,
                    longitude: raw.longitude_e7,
                    accuracy: raw.accuracy,
                },
            ),
            Err(e) => Err(e),
        }
    }
}

impl View for Locations {
    type V = Seq<Location>;

    open spec fn view(&self) -> Seq<Location> {
        self.locations@
    }
}

impl Locations {
    /// Loads a history from its wire records, keeping their order.
    ///
    /// The load succeeds exactly when every record is accepted, and then
    /// holds one record for each wire record. Otherwise nothing is loaded,
    /// and the error names the first record that was refused.
    pub fn load(raw: &[RawLocation]) -> (r: Result<Locations, LoadError>)
        ensures
            r is Ok <==> well_formed(raw@),
            match r {
                Ok(loaded) => loaded@ == loaded_records(raw@) && loaded@.len() == raw@.len(),
                Err(e) => is_first_refusal(raw@, e),
            },
    {
        let mut locations: Vec<Location> = Vec::new();
        let n = raw.len();
        let mut i: usize = 0;
        while i < n
            invariant
                i <= n,
                n == raw@.len(),
                locations@.len() == i,
                forall|j: int|
                    0 <= j < i ==> (#[trigger] raw@[j]).normalized() == Ok::<
                        Location,
                        TimestampError,
                    >(locations@[j]),
            decreases n - i,
        {
            match Location::from_raw(&raw[i]) {
                Ok(l) => {
                    locations.push(l);
                },
                Err(cause) => {
                    return Err(LoadError { index: i, cause });
                },
            }
            i = i + 1;
        }
        assert(locations@ =~= loaded_records(raw@));
        Ok(Locations { locations })
    }

    /// The number of records in the history.
    pub fn len(&self) -> (n: usize)
        ensures
            n == self@.len(),
    {
        self.locations.len()
    }
}

} // verus!
