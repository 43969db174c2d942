//! The ingestion pipeline: decode the frame, match the registered beacon,
//! authenticate the frame, date the observation and build the record.

use vstd::prelude::*;
use crate::frame::{advertising_outcome, decode_advertising, AdvertisingView, DecodedAdvertising};
use crate::signature::{signature_valid, verify_signature};
use crate::timestamp::{epoch_of_millis, from_epoch_millis, EpochTime};

verus! {

/// A report relayed by a gateway. The coordinates are carried as the bit
/// patterns of IEEE-754 doubles and copied through unchanged.
#[derive(Debug, Clone)]
pub struct InboundReport {
    pub observed_at_epoch_millis: u64,
    pub signal_strength_dbm: i8,
    pub advertising_hex: String,
    pub latitude_bits: u64,
    pub longitude_bits: u64,
    pub horizontal_dilution_bits: u64,
}

/// A registered beacon: its identifier and its SEC1-encoded public key.
#[derive(Debug, Clone)]
pub struct BeaconRecord {
    pub identifier: Vec<u8>,
    pub public_key: Vec<u8>,
}

/// An authenticated, dated sighting of a beacon.
#[derive(Debug, Clone)]
pub struct PositionObservation {
    pub identifier: Vec<u8>,
    pub captured_at: EpochTime,
    pub received_at: EpochTime,
    pub signal_strength_dbm: i8,
    pub payload: Vec<u8>,
    pub latitude_bits: u64,
    pub longitude_bits: u64,
    pub horizontal_dilution_bits: u64,
}

/// A report as mathematical values.
pub ghost struct ReportView {
    pub observed_at_epoch_millis: u64,
    pub signal_strength_dbm: i8,
    pub advertising_hex: Seq<char>,
    pub latitude_bits: u64,
    pub longitude_bits: u64,
    pub horizontal_dilution_bits: u64,
}

/// A registered beacon as mathematical values.
pub ghost struct BeaconView {
    pub identifier: Seq<u8>,
    pub public_key: Seq<u8>,
}

/// An observation as mathematical values.
pub ghost struct ObservationView {
    pub identifier: Seq<u8>,
    pub captured_at: EpochTime,
    pub received_at: EpochTime,
    pub signal_strength_dbm: i8,
    pub payload: Seq<u8>,
    pub latitude_bits: u64,
    pub longitude_bits: u64,
    pub horizontal_dilution_bits: u64,
}

impl View for InboundReport {
    type V = ReportView;

    open spec fn view(&self) -> ReportView {
        ReportView {
            observed_at_epoch_millis: self.observed_at_epoch_millis,
            signal_strength_dbm: self.signal_strength_dbm,
            advertising_hex: self.advertising_hex@,
            latitude_bits: self.latitude_bits,
            longitude_bits: self.longitude_bits,
            horizontal_dilution_bits: self.horizontal_dilution_bits,
        }
    }
}

impl View for BeaconRecord {
    type V = BeaconView;

    open spec fn view(&self) -> BeaconView {
        BeaconView { identifier: self.identifier@, public_key: self.public_key@ }
    }
}

impl View for PositionObservation {
    type V = ObservationView;

    open spec fn view(&self) -> ObservationView {
        ObservationView {
            identifier: self.identifier@,
            captured_at: self.captured_at,
            received_at: self.received_at,
            signal_strength_dbm: self.signal_strength_dbm,
            payload: self.payload@,
            latitude_bits: self.latitude_bits,
            longitude_bits: self.longitude_bits,
            horizontal_dilution_bits: self.horizontal_dilution_bits,
        }
    }
}

/// Why a report was turned away.
#[derive(Debug, Clone, Copy, PartialEq, Eq, Structural)]
pub enum Rejection {
    MalformedAdvertising,
    UnknownBeacon,
    Unauthenticated,
    InvalidTimestamp,
}

impl Rejection {
    /// The HTTP status that a rejection is answered with.
    pub fn status_code(&self) -> (r: u16)
        ensures
            r == match *self {
                Rejection::MalformedAdvertising => 400u16,
                Rejection::UnknownBeacon => 404u16,
                Rejection::Unauthenticated => 401u16,
                Rejection::InvalidTimestamp => 400u16,
            },
    {
        match self {
            Rejection::MalformedAdvertising => 400,
            Rejection::UnknownBeacon => 404,
            Rejection::Unauthenticated => 401,
            Rejection::InvalidTimestamp => 400,
        }
    }
}

pub open spec fn beacon_view(found: Option<&BeaconRecord>) -> Option<BeaconView> {
    match found {
        Some(b) => Some(b@),
        None => None,
    }
}

/// The observation recorded for an authenticated frame: identifier and
/// payload from the frame, the two instants, and the gateway's readings
/// copied unchanged.
pub open spec fn observation_of(
    report: ReportView,
    adv: AdvertisingView,
    captured_at: EpochTime,
    received_at: EpochTime,
) -> ObservationView {
    ObservationView {
        identifier: adv.identifier,
        captured_at,
        received_at,
        signal_strength_dbm: report.signal_strength_dbm,
        payload: adv.payload,
        latitude_bits: report.latitude_bits,
        longitude_bits: report.longitude_bits,
        horizontal_dilution_bits: report.horizontal_dilution_bits,
    }
}

/// What ingesting a report gives, given the directory's answer to the lookup
/// of the decoded identifier and the backend clock. Each step is tried in
/// turn and the first failure decides: decoding, the beacon match (an exact
/// byte-for-byte identifier), the signature, then the timestamp.
pub open spec fn ingest_outcome(
    report: ReportView,
    found: Option<BeaconView>,
    received_at: EpochTime,
) -> Result<ObservationView, Rejection> {
    match advertising_outcome(report.advertising_hex) {
        Err(_) => Err(Rejection::MalformedAdvertising),
        Ok(adv) => match found {
            None => Err(Rejection::UnknownBeacon),
            Some(beacon) => if beacon.identifier != adv.identifier {
                Err(Rejection::UnknownBeacon)
            } else if !signature_valid(adv.signed_data, adv.signature, beacon.public_key) {
                Err(Rejection::Unauthenticated)
            } else {
                match epoch_of_millis(report.observed_at_epoch_millis) {
                    None => Err(Rejection::InvalidTimestamp),
                    Some(captured_at) => Ok(observation_of(report, adv, captured_at, received_at)),
                }
            },
        },
    }
}

fn bytes_equal(a: &[u8], b: &[u8]) -> (r: bool)
    ensures
        r == (a@ == b@),
{
    if a.len() != b.len() {
        return false;
    }
    let mut i: usize = 0;
    while i < a.len()
        invariant
            a@.len() == b@.len(),
            0 <= i <= a@.len(),
            forall|j: int| 0 <= j < i ==> a@[j] == b@[j],
        decreases a@.len() - i,
    {
        if a[i] != b[i] {
            return false;
        }
        i = i + 1;
    }
    assert(a@ =~= b@);
    true
}

/// Turns a report into an observation, or says why it is refused. `found`
/// is what the beacon directory returned for the decoded identifier.
pub fn ingest(
    report: &InboundReport,
    found: Option<&BeaconRecord>,
    received_at: EpochTime,
) -> (r: Result<PositionObservation, Rejection>)
    ensures
        match r {
            Ok(obs) => ingest_outcome(report@, beacon_view(found), received_at) == Ok::<
                ObservationView,
                Rejection,
            >(obs@),
            Err(e) => ingest_outcome(report@, beacon_view(found), received_at) == Err::<
                ObservationView,
                Rejection,
            >(e),
        },
{
    let adv: DecodedAdvertising = match decode_advertising(report.advertising_hex.as_str()) {
        Ok(adv) => adv,
        Err(_) => return Err(Rejection::MalformedAdvertising),
    };
    let beacon = match found {
        Some(beacon) => beacon,
        None => return Err(Rejection::UnknownBeacon),
    };
    if !bytes_equal(beacon.identifier.as_slice(), adv.identifier.as_slice()) {
        return Err(Rejection::UnknownBeacon);
    }
    if !verify_signature(
        adv.signed_data.as_slice(),
        adv.signature.as_slice(),
        beacon.public_key.as_slice(),
    ) {
        return Err(Rejection::Unauthenticated);
    }
    let captured_at = match from_epoch_millis(report.observed_at_epoch_millis) {
        Some(t) => t,
        None => return Err(Rejection::InvalidTimestamp),
    };
    Ok(build_observation(report, adv, captured_at, received_at))
}

/// Builds the observation for a frame that has been authenticated and a
/// capture instant that has been checked.
pub fn build_observation(
    report: &InboundReport,
    adv: DecodedAdvertising,
    captured_at: EpochTime,
    received_at: EpochTime,
) -> (r: PositionObservation)
    ensures
        r@ == observation_of(report@, adv@, captured_at, received_at),
{
    PositionObservation {
        identifier: adv.identifier,
        captured_at,
        received_at,
        signal_strength_dbm: report.signal_strength_dbm,
        payload: adv.payload,
        latitude_bits: report.latitude_bits,
        longitude_bits: report.longitude_bits,
        horizontal_dilution_bits: report.horizontal_dilution_bits,
    }
}

/// The beacon lookup comes before the signature check: a well-formed report
/// whose identifier the directory does not know is refused as an unknown
/// beacon, whatever its signature bytes are.
pub proof fn lemma_unknown_beacon_precedes_signature(
    report: ReportView,
    found: Option<BeaconView>,
    received_at: EpochTime,
)
    requires
        advertising_outcome(report.advertising_hex) is Ok,
        found is None || found->Some_0.identifier != advertising_outcome(
            report.advertising_hex,
        )->Ok_0.identifier,
    ensures
        ingest_outcome(report, found, received_at) == Err::<ObservationView, Rejection>(
            Rejection::UnknownBeacon,
        ),
{
}

/// Any observation that comes out of the pipeline is authenticated: the
/// beacon it names is the one looked up, and the frame's signature checks out
/// under that beacon's key.
pub proof fn lemma_observation_is_authenticated(
    report: ReportView,
    found: Option<BeaconView>,
    received_at: EpochTime,
)
    requires
        ingest_outcome(report, found, received_at) is Ok,
    ensures
        ({
            let adv: AdvertisingView = advertising_outcome(report.advertising_hex)->Ok_0;
            &&& advertising_outcome(report.advertising_hex) is Ok
            &&& found is Some
            &&& found->Some_0.identifier == adv.identifier
            &&& signature_valid(adv.signed_data, adv.signature, found->Some_0.public_key)
            &&& ingest_outcome(report, found, received_at)->Ok_0.identifier == adv.identifier
        }),
{
}

} // verus!
