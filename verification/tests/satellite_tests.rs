use satellite_registry::errors::ApiError;
use satellite_registry::satellites::{
    complete_satellite_request, decode_satellite, FetchOutcome, ManeuverType, OperationStatus,
    SatelliteApiResponse,
};

fn padded(text: &str) -> Vec<u8> {
    let bytes = text.as_bytes();
    assert!(bytes.len() <= 30);
    let mut out = (bytes.len() as u32).to_le_bytes().to_vec();
    out.extend_from_slice(bytes);
    out.resize(34, 0);
    out
}

fn sample_record() -> Vec<u8> {
    let mut b: Vec<u8> = Vec::new();
    b.extend_from_slice(&[7u8; 32]);
    b.extend_from_slice(&padded("Sentinel-1"));
    b.extend_from_slice(&padded("DE"));
    b.extend_from_slice(&42u64.to_le_bytes());
    b.extend_from_slice(&1_700_000_000i64.to_le_bytes());
    b.extend_from_slice(&(-5i64).to_le_bytes());
    b.extend_from_slice(&padded("LEO"));
    b.extend_from_slice(&98.6f64.to_bits().to_le_bytes());
    b.extend_from_slice(&693.0f64.to_bits().to_le_bytes());
    b.extend_from_slice(&7071.0f64.to_bits().to_le_bytes());
    b.extend_from_slice(&0.001f64.to_bits().to_le_bytes());
    b.extend_from_slice(&123.4f64.to_bits().to_le_bytes());
    b.extend_from_slice(&90.0f64.to_bits().to_le_bytes());
    b.push(5);
    b.push(0);
    assert_eq!(b.len(), 208);
    b
}

#[test]
fn exact_buffer_decodes_every_field() {
    let b = sample_record();
    let s = decode_satellite(&b).expect("well-formed buffer");
    assert_eq!(s.owner.bytes, [7u8; 32]);
    assert_eq!(s.name_as_string(), "Sentinel-1");
    assert_eq!(s.country_as_string(), "DE");
    assert_eq!(s.orbit_type_as_string(), "LEO");
    assert_eq!(s.norad_id, 42);
    assert_eq!(s.launch_date, 1_700_000_000);
    assert_eq!(s.mint_date, -5);
    assert_eq!(s.inclination, 98.6f64.to_bits());
    assert_eq!(s.altitude, 693.0f64.to_bits());
    assert_eq!(s.semi_major_axis, 7071.0f64.to_bits());
    assert_eq!(s.eccentricity, 0.001f64.to_bits());
    assert_eq!(s.raan, 123.4f64.to_bits());
    assert_eq!(s.arg_of_periapsis, 90.0f64.to_bits());
    assert_eq!(s.maneuver_type, ManeuverType::CollisionAvoidance);
    assert_eq!(s.operation_status, OperationStatus::Active);
}

#[test]
fn one_byte_short_is_malformed() {
    let mut b = sample_record();
    b.pop();
    assert_eq!(b.len(), 207);
    assert!(matches!(decode_satellite(&b), Err(ApiError::MalformedRecord)));
}

#[test]
fn one_byte_long_is_malformed() {
    let mut b = sample_record();
    b.push(0);
    assert!(matches!(decode_satellite(&b), Err(ApiError::MalformedRecord)));
}

#[test]
fn status_discriminant_out_of_range_is_malformed() {
    let mut b = sample_record();
    b[207] = 3;
    assert!(matches!(decode_satellite(&b), Err(ApiError::MalformedRecord)));
}

#[test]
fn maneuver_discriminant_out_of_range_is_malformed() {
    let mut b = sample_record();
    b[206] = 8;
    assert!(matches!(decode_satellite(&b), Err(ApiError::MalformedRecord)));
}

#[test]
fn every_maneuver_discriminant_in_range_decodes() {
    let variants = [
        ManeuverType::StationKeeping,
        ManeuverType::OrbitRaising,
        ManeuverType::OrbitLowering,
        ManeuverType::InclinationChange,
        ManeuverType::PhaseAdjustment,
        ManeuverType::CollisionAvoidance,
        ManeuverType::EndOfLife,
        ManeuverType::Desaturation,
    ];
    for (tag, expected) in variants.iter().enumerate() {
        let mut b = sample_record();
        b[206] = tag as u8;
        let s = decode_satellite(&b).expect("tag in range");
        assert_eq!(s.maneuver_type, *expected);
    }
}

#[test]
fn projection_cleans_text_and_passes_the_rest_through() {
    let b = sample_record();
    let s = decode_satellite(&b).expect("well-formed buffer");
    let r = SatelliteApiResponse::from(s);
    assert_eq!(r.name, "Sentinel-1");
    assert_eq!(r.country, "DE");
    assert_eq!(r.orbit_type, "LEO");
    assert_eq!(r.owner.bytes, [7u8; 32]);
    assert_eq!(r.norad_id, 42);
    assert_eq!(r.launch_date, 1_700_000_000);
    assert_eq!(r.mint_date, -5);
    assert_eq!(f64::from_bits(r.inclination), 98.6);
    assert_eq!(f64::from_bits(r.eccentricity), 0.001);
    assert_eq!(r.maneuver_type, ManeuverType::CollisionAvoidance);
    assert_eq!(r.operation_status, OperationStatus::Active);
}

fn with_discriminator(record: &[u8]) -> Vec<u8> {
    let mut data = vec![0xAAu8; 8];
    data.extend_from_slice(record);
    data
}

#[test]
fn found_record_completes_with_projected_response() {
    let data = with_discriminator(&sample_record());
    let r = complete_satellite_request(FetchOutcome::Found(data)).expect("decodes");
    assert_eq!(r.name, "Sentinel-1");
    assert_eq!(r.operation_status, OperationStatus::Active);
    assert_eq!(r.norad_id, 42);
}

#[test]
fn absent_record_completes_not_found() {
    let r = complete_satellite_request(FetchOutcome::NotFound);
    assert_eq!(r.unwrap_err().status_code(), 404);
}

#[test]
fn transport_failure_completes_internal_error() {
    let r = complete_satellite_request(FetchOutcome::TransportFailed);
    let e = r.unwrap_err();
    assert_eq!(e, ApiError::TransportError);
    assert_eq!(e.status_code(), 500);
}

#[test]
fn short_store_bytes_complete_malformed() {
    let mut data = with_discriminator(&sample_record());
    data.truncate(data.len() - 10);
    let e = complete_satellite_request(FetchOutcome::Found(data)).unwrap_err();
    assert_eq!(e, ApiError::MalformedRecord);
    assert_eq!(e.status_code(), 500);
}

#[test]
fn bytes_shorter_than_discriminator_complete_malformed() {
    let e = complete_satellite_request(FetchOutcome::Found(vec![1, 2, 3])).unwrap_err();
    assert_eq!(e, ApiError::MalformedRecord);
}

#[test]
fn status_codes_cover_the_taxonomy() {
    assert_eq!(ApiError::InvalidInput.status_code(), 400);
    assert_eq!(ApiError::NotFound.status_code(), 404);
    assert_eq!(ApiError::TransportError.status_code(), 500);
    assert_eq!(ApiError::MalformedRecord.status_code(), 500);
}

#[test]
fn every_status_discriminant_in_range_decodes() {
    let variants = [
        OperationStatus::Active,
        OperationStatus::Maintenance,
        OperationStatus::Offline,
    ];
    for (tag, expected) in variants.iter().enumerate() {
        let mut b = sample_record();
        b[207] = tag as u8;
        let s = decode_satellite(&b).expect("tag in range");
        assert_eq!(s.operation_status, *expected);
    }
}
