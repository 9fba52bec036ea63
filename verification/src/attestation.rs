//! The attestation verifier, and what the contract hands to it.
//!
//! Whether a quote validates is decided outside this crate. What is proved
//! here is what the contract asks of the verifier; what it makes of each
//! answer is proved with the contract.
//!
//! The verifier accepts only a fingerprint and a device that it was given.
//! So where the contract does not ask for an approved fingerprint, it gives
//! the fingerprint that the attestation itself claims; and where it lists no
//! device, it gives the device of the quote's platform certificate. The
//! verifier then holds both against the quote.

use crate::types::Verdict::{Accepted, Invalid, UnknownDevice, WrongDigest};
use crate::types::{Measurements, Ppid, Verdict};
use shade_attestation::attestation::{DstackAttestation, GetSingleEvent, VerificationError};
use shade_attestation::measurements::FullMeasurements;
use shade_attestation::measurements::Measurements as Rtmrs;
use shade_attestation::report_data::ReportData;
use shade_attestation::tcb_info::HexBytes;
use vstd::prelude::*;
use vstd::utf8::encode_utf8;

verus! {

/// `shade_attestation::attestation::DstackAttestation`: a quote with its
/// collateral and event log. Nothing is known of its inside here; it is
/// carried to the verifier.
#[verifier::external_type_specification]
#[verifier::external_body]
pub struct ExDstackAttestation(DstackAttestation);

/// Length of the report data bound into a quote.
pub const REPORT_DATA_SIZE: usize = 64;

/// The report data that binds a quote to `caller`: the bytes of the account
/// name, filled up with zeros. A name of more than 64 bytes binds nothing.
pub open spec fn spec_report_data(caller: Seq<char>) -> Option<Seq<u8>> {
    let name = encode_utf8(caller);
    if name.len() <= REPORT_DATA_SIZE {
        Some(
            Seq::new(
                REPORT_DATA_SIZE as nat,
                |i: int| if i < name.len() {
                    name[i]
                } else {
                    0u8
                },
            ),
        )
    } else {
        None
    }
}

/// The report data that binds a quote to `caller`.
pub fn report_data(caller: &String) -> (data: Option<[u8; 64]>)
    ensures
        match data {
            Some(bytes) => spec_report_data(caller@) == Some(bytes@),
            None => spec_report_data(caller@) is None,
        },
{
    let name = caller.as_str().as_bytes();
    if name.len() > REPORT_DATA_SIZE {
        return None;
    }
    let mut bytes = [0u8; 64];
    let mut i: usize = 0;
    while i < name.len()
        invariant
            i <= name@.len() <= REPORT_DATA_SIZE,
            bytes@.len() == REPORT_DATA_SIZE,
            forall|j: int| 0 <= j < i ==> bytes@[j] == name@[j],
            forall|j: int| i <= j < REPORT_DATA_SIZE ==> bytes@[j] == 0u8,
        decreases name@.len() - i,
    {
        bytes[i] = name[i];
        i += 1;
    }
    assert(bytes@ =~= spec_report_data(caller@).unwrap());
    Some(bytes)
}

/// What `DstackAttestation::verify` answers when it is asked about
/// `attestation` with these report data, at this time, with these accepted
/// fingerprints and devices. The verifier reads no clock and nothing else
/// besides its arguments; it hashes one integer in the byte order of the
/// machine, so the answer is one for all machines of one byte order.
pub uninterp spec fn attestation_verdict(
    attestation: DstackAttestation,
    report_data: Seq<u8>,
    timestamp_seconds: u64,
    measurements: Seq<Measurements>,
    ppids: Seq<Ppid>,
) -> Verdict;

/// Calls `DstackAttestation::verify`, with the fingerprints and devices in
/// the verifier's own types, field for field. The answer depends on the
/// arguments alone. Where the verifier accepts, it names one of the
/// fingerprints and one of the devices it was given. Where it refuses, the
/// variant of its error is handed on: `WrongHash` with the name of the
/// digest, `Custom`, which it raises for a device that is not among those
/// given, and every other variant as one.
#[verifier::external_body]
fn verify_quote(
    attestation: &DstackAttestation,
    report_data: &[u8; 64],
    timestamp_seconds: u64,
    measurements: &Vec<Measurements>,
    ppids: &Vec<Ppid>,
) -> (verdict: Verdict)
    ensures
        verdict == attestation_verdict(
            *attestation,
            report_data@,
            timestamp_seconds,
            measurements@,
            ppids@,
        ),
        verdict matches Verdict::Accepted(fingerprint, device) ==> measurements@.contains(
            fingerprint,
        ) && ppids@.contains(device),
{
    let accepted = Vec::from_iter(measurements.iter().map(
        |&Measurements { mrtd, rtmr0, rtmr1, rtmr2, key_provider_event_digest, app_compose_hash_payload }|
            FullMeasurements { rtmrs: Rtmrs { mrtd, rtmr0, rtmr1, rtmr2 }, key_provider_event_digest, app_compose_hash_payload },
    ));
    let devices = Vec::from_iter(ppids.iter().copied().map(HexBytes::from));
    match attestation.verify(ReportData::from(*report_data), timestamp_seconds, &accepted, &devices) {
        Ok((FullMeasurements { rtmrs: Rtmrs { mrtd, rtmr0, rtmr1, rtmr2 }, key_provider_event_digest, app_compose_hash_payload }, ppid)) =>
            Accepted(Measurements { mrtd, rtmr0, rtmr1, rtmr2, key_provider_event_digest, app_compose_hash_payload }, *ppid),
        Err(VerificationError::WrongHash { name, .. }) => WrongDigest(name.to_string()),
        Err(VerificationError::Custom(_)) => UnknownDevice,
        Err(_) => Invalid,
    }
}

/// The device identifier in the platform certificate of the quote of
/// `attestation`, as `dcap_qvl::verify::verify` reads it at this time; none
/// where the quote does not validate.
pub uninterp spec fn quoted_device(attestation: DstackAttestation, timestamp_seconds: u64) -> Option<
    Seq<u8>,
>;

/// Calls `dcap_qvl::verify::verify` on the quote and the collateral of
/// `attestation`, as the verifier itself does first, and hands on the device
/// identifier of the report it returns. The answer depends on the arguments
/// alone.
#[verifier::external_body]
fn quote_device(attestation: &DstackAttestation, timestamp_seconds: u64) -> (device: Option<Vec<u8>>)
    ensures
        match device {
            Some(bytes) => quoted_device(*attestation, timestamp_seconds) == Some(bytes@),
            None => quoted_device(*attestation, timestamp_seconds) is None,
        },
{
    dcap_qvl::verify::verify(&attestation.quote, &attestation.collateral, timestamp_seconds)
        .ok()
        .map(|report| report.ppid)
}

/// The fingerprint that `attestation` claims of itself: the registers and
/// the composition hash of its platform information, and the digest of the
/// one event of this name that `GetSingleEvent::get_single_event` finds in
/// its event log; none where there is no such event, or more than one.
pub uninterp spec fn claimed_fingerprint(attestation: DstackAttestation, event: Seq<char>) -> Option<
    Measurements,
>;

/// Calls `GetSingleEvent::get_single_event` on the platform information of
/// `attestation` and puts the digest of the event it finds beside the
/// registers and the composition hash that stand there, field for field.
#[verifier::external_body]
fn claimed_measurements(attestation: &DstackAttestation, event: &'static str) -> (claimed: Option<
    Measurements,
>)
    ensures
        claimed == claimed_fingerprint(*attestation, event@),
{
    let info = &attestation.tcb_info;
    info.get_single_event(event).ok().map(|found| Measurements {
        mrtd: *info.mrtd,
        rtmr0: *info.rtmr0,
        rtmr1: *info.rtmr1,
        rtmr2: *info.rtmr2,
        key_provider_event_digest: *found.digest,
        app_compose_hash_payload: *info.compose_hash,
    })
}

/// The name of the event whose digest belongs to a fingerprint.
pub open spec fn key_provider_event() -> Seq<char> {
    "key-provider"@
}

/// The device that these bytes spell.
pub open spec fn device_of(bytes: Seq<u8>) -> Ppid {
    choose|device: Ppid| device@ == bytes
}

/// The device that `bytes` spell, if they are as many as a device has.
pub fn device_from(bytes: &Vec<u8>) -> (device: Option<Ppid>)
    ensures
        match device {
            Some(device) => bytes@.len() == 16 && device@ == bytes@ && device == device_of(bytes@),
            None => bytes@.len() != 16,
        },
{
    if bytes.len() != 16 {
        return None;
    }
    let mut device = [0u8; 16];
    let mut i: usize = 0;
    while i < 16
        invariant
            i <= 16,
            bytes@.len() == 16,
            device@.len() == 16,
            forall|j: int| 0 <= j < i ==> device@[j] == bytes@[j],
        decreases 16 - i,
    {
        device[i] = bytes[i];
        i += 1;
    }
    proof {
        assert(device@ =~= bytes@);
        assert(device_of(bytes@)@ == bytes@);
        assert(device =~= device_of(bytes@));
    }
    Some(device)
}

/// The fingerprint that `attestation` claims of itself, if its event log
/// holds the one event that belongs to it.
pub fn claim(attestation: &DstackAttestation) -> (claimed: Option<Measurements>)
    ensures
        claimed == claimed_fingerprint(*attestation, key_provider_event()),
{
    claimed_measurements(attestation, "key-provider")
}

/// The device that the quote of `attestation` names at this time, if the
/// quote validates and names one of the right length.
pub fn device_named(attestation: &DstackAttestation, timestamp_seconds: u64) -> (device: Option<
    Ppid,
>)
    ensures
        match device {
            Some(device) => quoted_device(*attestation, timestamp_seconds) == Some(device@),
            None => quoted_device(*attestation, timestamp_seconds) matches Some(bytes)
                ==> bytes.len() != 16,
        },
{
    match quote_device(attestation, timestamp_seconds) {
        Some(bytes) => device_from(&bytes),
        None => None,
    }
}

/// The fingerprints that the verifier is given: the approved ones where
/// attestation is required, else the one that the attestation claims.
pub open spec fn fingerprints_asked(
    attestation: DstackAttestation,
    requires_tee: bool,
    approved: Seq<Measurements>,
) -> Seq<Measurements> {
    if requires_tee {
        approved
    } else {
        match claimed_fingerprint(attestation, key_provider_event()) {
            Some(claimed) => seq![claimed],
            None => Seq::empty(),
        }
    }
}

/// The devices that the verifier is given: the approved ones where there
/// are any, else the device of the quote.
pub open spec fn devices_asked(
    attestation: DstackAttestation,
    timestamp_seconds: u64,
    approved: Seq<Ppid>,
) -> Seq<Ppid> {
    if approved.len() > 0 {
        approved
    } else {
        match quoted_device(attestation, timestamp_seconds) {
            Some(bytes) => if bytes.len() == 16 {
                seq![device_of(bytes)]
            } else {
                Seq::empty()
            },
            None => Seq::empty(),
        }
    }
}

/// The verifier's answer about `attestation` for `caller`: asked with the
/// caller's report data, the time in seconds, and the fingerprints and
/// devices of [`fingerprints_asked`] and [`devices_asked`]. A caller whose
/// name binds nothing is refused without asking.
pub open spec fn spec_examine(
    attestation: DstackAttestation,
    caller: Seq<char>,
    now_ms: u64,
    requires_tee: bool,
    measurements: Seq<Measurements>,
    ppids: Seq<Ppid>,
) -> Verdict {
    match spec_report_data(caller) {
        Some(data) => attestation_verdict(
            attestation,
            data,
            (now_ms / 1000) as u64,
            fingerprints_asked(attestation, requires_tee, measurements),
            devices_asked(attestation, (now_ms / 1000) as u64, ppids),
        ),
        None => Verdict::Invalid,
    }
}

/// What stands behind an accepted fingerprint and device: each is among
/// the approved where the approved were given to the verifier, and else is
/// what the attestation claims and what its quote names.
pub open spec fn vouched(
    attestation: DstackAttestation,
    now_ms: u64,
    requires_tee: bool,
    measurements: Seq<Measurements>,
    ppids: Seq<Ppid>,
    fingerprint: Measurements,
    device: Ppid,
) -> bool {
    &&& requires_tee ==> measurements.contains(fingerprint)
    &&& !requires_tee ==> claimed_fingerprint(attestation, key_provider_event()) == Some(
        fingerprint,
    )
    &&& ppids.len() > 0 ==> ppids.contains(device)
    &&& ppids.len() == 0 ==> quoted_device(attestation, (now_ms / 1000) as u64) == Some(device@)
}

/// Asks the verifier about `attestation` on behalf of `caller`, for a
/// contract that approves `measurements` and `ppids`. Whatever it accepts is
/// vouched for.
pub fn examine(
    attestation: &DstackAttestation,
    caller: &String,
    now_ms: u64,
    requires_tee: bool,
    measurements: &Vec<Measurements>,
    ppids: &Vec<Ppid>,
) -> (verdict: Verdict)
    ensures
        verdict == spec_examine(*attestation, caller@, now_ms, requires_tee, measurements@, ppids@),
        verdict matches Verdict::Accepted(fingerprint, device) ==> vouched(
            *attestation,
            now_ms,
            requires_tee,
            measurements@,
            ppids@,
            fingerprint,
            device,
        ),
{
    let data = match report_data(caller) {
        Some(data) => data,
        None => {
            return Verdict::Invalid;
        },
    };
    let seconds = now_ms / 1000;
    let mut claimed: Vec<Measurements> = Vec::new();
    if !requires_tee {
        if let Some(fingerprint) = claim(attestation) {
            claimed.push(fingerprint);
        }
    }
    let mut quoted: Vec<Ppid> = Vec::new();
    if ppids.len() == 0 {
        if let Some(device) = device_named(attestation, seconds) {
            proof {
                let bytes = quoted_device(*attestation, seconds).unwrap();
                assert(device_of(bytes)@ == bytes);
                assert(device =~= device_of(bytes));
            }
            quoted.push(device);
        }
    }
    assert(claimed@.len() <= 1 && (claimed@.len() == 1 ==> claimed_fingerprint(
        *attestation,
        key_provider_event(),
    ) == Some(claimed@[0])));
    assert(quoted@.len() <= 1 && (quoted@.len() == 1 ==> quoted_device(*attestation, seconds)
        == Some(quoted@[0]@)));
    let fingerprints = if requires_tee {
        measurements
    } else {
        &claimed
    };
    let devices = if ppids.len() > 0 {
        ppids
    } else {
        &quoted
    };
    assert(fingerprints@ =~= fingerprints_asked(*attestation, requires_tee, measurements@));
    assert(devices@ =~= devices_asked(*attestation, seconds, ppids@));
    let verdict = verify_quote(attestation, &data, seconds, fingerprints, devices);
    proof {
        if let Verdict::Accepted(fingerprint, device) = verdict {
            let i = choose|i: int| 0 <= i < fingerprints@.len() && fingerprints@[i] == fingerprint;
            assert(fingerprints@[i] == fingerprint);
            let j = choose|j: int| 0 <= j < devices@.len() && devices@[j] == device;
            assert(devices@[j] == device);
        }
    }
    verdict
}

} // verus!
