use vstd::prelude::*;
use vstd::bytes::spec_u64_from_le_bytes;
use vstd::bytes::spec_u64_to_le_bytes;
use vstd::bytes::u64_from_le_bytes;
use vstd::bytes::u64_to_le_bytes;
use vstd::slice::slice_subrange;
use vstd::slice::slice_to_vec;
use crate::address::Address;
use crate::errors::ApiError;
use crate::padded_text::decode_padded_text;
use crate::padded_text::padded_text;
use crate::numeric_id::parse_norad_id;
use crate::numeric_id::spec_parse_u64;
use crate::solana::base58_decoded_address;
use crate::solana::on_curve;
use crate::solana::parse_address;
use crate::solana::pda_derivation;
use crate::solana::find_program_address;

verus! {

broadcast use vstd::slice::axiom_spec_len;

/// The seed tag that starts every satellite derivation: the ASCII bytes of
/// the word "satellite".
pub open spec fn satellite_tag() -> Seq<u8> {
    seq![115u8, 97u8, 116u8, 101u8, 108u8, 108u8, 105u8, 116u8, 101u8]
}

/// The ordered seed list of a satellite record: the tag, the two authority
/// addresses, and the numeric id as 8 little-endian bytes.
pub open spec fn satellite_seeds(user: Seq<u8>, registry: Seq<u8>, norad_id: u64) -> Seq<Seq<u8>> {
    seq![satellite_tag(), user, registry, spec_u64_to_le_bytes(norad_id)]
}

/// What the derivation contract pins down: the outcome succeeds exactly when
/// the canonical derivation of the satellite seeds succeeds, a returned pair
/// is the derivation's own address and bump, and that address is off-curve.
pub open spec fn derivation_result_matches(
    r: Option<(Address, u8)>,
    user: Seq<u8>,
    registry: Seq<u8>,
    norad_id: u64,
    program: Seq<u8>,
) -> bool {
    &&& r is Some <==> pda_derivation(satellite_seeds(user, registry, norad_id), program) is Some
    &&& r matches Some(p) ==> Some((p.0@, p.1)) == pda_derivation(
        satellite_seeds(user, registry, norad_id),
        program,
    ) && !on_curve(p.0@)
}

/// Computes the satellite record's address and bump byte from the two
/// authorities, the numeric id and the namespace address.
pub fn derive_satellite_address(
    user: &Address,
    registry: &Address,
    norad_id: u64,
    program: &Address,
) -> (r: Option<(Address, u8)>)
    ensures
        derivation_result_matches(r, user@, registry@, norad_id, program@),
{
    let mut seeds: Vec<Vec<u8>> = Vec::new();
    seeds.push(vec![115u8, 97u8, 116u8, 101u8, 108u8, 108u8, 105u8, 116u8, 101u8]);
    seeds.push(slice_to_vec(user.bytes.as_slice()));
    seeds.push(slice_to_vec(registry.bytes.as_slice()));
    seeds.push(u64_to_le_bytes(norad_id));
    proof {
        assert(seeds.deep_view() =~~= satellite_seeds(user@, registry@, norad_id));
    }
    find_program_address(&seeds, program)
}

/// Law: the derivation is deterministic. Any two outcomes that satisfy the
/// derivation contract for the same inputs agree, both on success and on the
/// derived address and bump.
pub proof fn lemma_derivation_deterministic(
    r1: Option<(Address, u8)>,
    r2: Option<(Address, u8)>,
    user: Seq<u8>,
    registry: Seq<u8>,
    norad_id: u64,
    program: Seq<u8>,
)
    requires
        derivation_result_matches(r1, user, registry, norad_id, program),
        derivation_result_matches(r2, user, registry, norad_id, program),
    ensures
        r1 is Some <==> r2 is Some,
        r1 matches Some(p1) ==> r2 matches Some(p2) ==> p1.0@ == p2.0@ && p1.1 == p2.1,
{
}

/// Law: a derived address is never on the signing curve, so no private key
/// can sign for it.
pub proof fn lemma_derived_address_off_curve(
    r: Option<(Address, u8)>,
    user: Seq<u8>,
    registry: Seq<u8>,
    norad_id: u64,
    program: Seq<u8>,
)
    requires
        derivation_result_matches(r, user, registry, norad_id, program),
    ensures
        r matches Some(p) ==> !on_curve(p.0@),
{
}

/// The fixed wire width of a satellite record once the 8-byte leading
/// discriminator has been stripped.
pub const SATELLITE_WIRE_LEN: usize = 208;

/// The closed set of operation states, wire-encoded as a discriminant byte
/// in declaration order.
#[derive(Clone, Copy, Debug, PartialEq, Eq, Structural)]
pub enum OperationStatus {
    Active,
    Maintenance,
    Offline,
}

/// The closed set of maneuver kinds, wire-encoded as a discriminant byte in
/// declaration order.
#[derive(Clone, Copy, Debug, PartialEq, Eq, Structural)]
pub enum ManeuverType {
    StationKeeping,
    OrbitRaising,
    OrbitLowering,
    InclinationChange,
    PhaseAdjustment,
    CollisionAvoidance,
    EndOfLife,
    Desaturation,
}

/// Reads a signed 64-bit little-endian number: the unsigned word
/// reinterpreted as two's complement.
pub open spec fn spec_i64_from_le_bytes(b: Seq<u8>) -> i64 {
    #[verifier::truncate] (spec_u64_from_le_bytes(b) as i64)
}

/// The variant that an operation status discriminant byte stands for, or
/// `None` when the byte is outside the declared range.
pub open spec fn operation_status_from_tag(t: u8) -> Option<OperationStatus> {
    if t == 0 {
        Some(OperationStatus::Active)
    } else if t == 1 {
        Some(OperationStatus::Maintenance)
    } else if t == 2 {
        Some(OperationStatus::Offline)
    } else {
        None
    }
}

/// The variant that a maneuver discriminant byte stands for, or `None` when
/// the byte is outside the declared range.
pub open spec fn maneuver_type_from_tag(t: u8) -> Option<ManeuverType> {
    if t == 0 {
        Some(ManeuverType::StationKeeping)
    } else if t == 1 {
        Some(ManeuverType::OrbitRaising)
    } else if t == 2 {
        Some(ManeuverType::OrbitLowering)
    } else if t == 3 {
        Some(ManeuverType::InclinationChange)
    } else if t == 4 {
        Some(ManeuverType::PhaseAdjustment)
    } else if t == 5 {
        Some(ManeuverType::CollisionAvoidance)
    } else if t == 6 {
        Some(ManeuverType::EndOfLife)
    } else if t == 7 {
        Some(ManeuverType::Desaturation)
    } else {
        None
    }
}

/// Decodes an operation status discriminant byte.
pub fn decode_operation_status(t: u8) -> (r: Option<OperationStatus>)
    ensures
        r == operation_status_from_tag(t),
{
    match t {
        0 => Some(OperationStatus::Active),
        1 => Some(OperationStatus::Maintenance),
        2 => Some(OperationStatus::Offline),
        _ => None,
    }
}

/// Decodes a maneuver discriminant byte.
pub fn decode_maneuver_type(t: u8) -> (r: Option<ManeuverType>)
    ensures
        r == maneuver_type_from_tag(t),
{
    match t {
        0 => Some(ManeuverType::StationKeeping),
        1 => Some(ManeuverType::OrbitRaising),
        2 => Some(ManeuverType::OrbitLowering),
        3 => Some(ManeuverType::InclinationChange),
        4 => Some(ManeuverType::PhaseAdjustment),
        5 => Some(ManeuverType::CollisionAvoidance),
        6 => Some(ManeuverType::EndOfLife),
        7 => Some(ManeuverType::Desaturation),
        _ => None,
    }
}

/// The fully typed satellite record, laid out on the wire in field order at
/// fixed widths. The three text fields keep their padded wire form (a 4-byte
/// little-endian length prefix in a 34-byte slot); the six orbital
/// parameters are IEEE-754 double-precision values kept as their raw 64-bit
/// little-endian words.
#[derive(Debug)]
pub struct Satellite {
    pub owner: Address,
    pub name: [u8; 34],
    pub country: [u8; 34],
    pub norad_id: u64,
    pub launch_date: i64,
    pub mint_date: i64,
    pub orbit_type: [u8; 34],
    pub inclination: u64,
    pub altitude: u64,
    pub semi_major_axis: u64,
    pub eccentricity: u64,
    pub raan: u64,
    pub arg_of_periapsis: u64,
    pub maneuver_type: ManeuverType,
    pub operation_status: OperationStatus,
}

/// Whether a stripped byte buffer fits the fixed layout: exactly the fixed
/// width, with both discriminant bytes in range.
pub open spec fn satellite_bytes_well_formed(b: Seq<u8>) -> bool {
    &&& b.len() == 208
    &&& maneuver_type_from_tag(b[206]) is Some
    &&& operation_status_from_tag(b[207]) is Some
}

/// How a decoded record relates to the buffer it was read from: every field
/// equals the bytes at its fixed offset, numbers read little-endian.
pub open spec fn satellite_matches_bytes(s: Satellite, b: Seq<u8>) -> bool {
    &&& s.owner@ == b.subrange(0, 32)
    &&& s.name@ == b.subrange(32, 66)
    &&& s.country@ == b.subrange(66, 100)
    &&& s.norad_id == spec_u64_from_le_bytes(b.subrange(100, 108))
    &&& s.launch_date == spec_i64_from_le_bytes(b.subrange(108, 116))
    &&& s.mint_date == spec_i64_from_le_bytes(b.subrange(116, 124))
    &&& s.orbit_type@ == b.subrange(124, 158)
    &&& s.inclination == spec_u64_from_le_bytes(b.subrange(158, 166))
    &&& s.altitude == spec_u64_from_le_bytes(b.subrange(166, 174))
    &&& s.semi_major_axis == spec_u64_from_le_bytes(b.subrange(174, 182))
    &&& s.eccentricity == spec_u64_from_le_bytes(b.subrange(182, 190))
    &&& s.raan == spec_u64_from_le_bytes(b.subrange(190, 198))
    &&& s.arg_of_periapsis == spec_u64_from_le_bytes(b.subrange(198, 206))
    &&& Some(s.maneuver_type) == maneuver_type_from_tag(b[206])
    &&& Some(s.operation_status) == operation_status_from_tag(b[207])
}

/// Copies `N` bytes out of a slice into a fixed array.
fn read_array<const N: usize>(b: &[u8], off: usize) -> (r: [u8; N])
    requires
        off + N <= b.len(),
    ensures
        r@ == b@.subrange(off as int, off as int + N as int),
{
    let mut r = [0u8; N];
    let mut i: usize = 0;
    while i < N
        invariant
            i <= N,
            off + N <= b.len(),
            r@.len() == N,
            forall|j: int| 0 <= j < i ==> r@[j] == b@[off + j],
        decreases N - i,
    {
        r[i] = b[off + i];
        i = i + 1;
    }
    proof {
        assert(r@ =~= b@.subrange(off as int, off as int + N as int));
    }
    r
}

/// Reads a signed 64-bit little-endian field.
fn read_i64(b: &[u8], off: usize) -> (r: i64)
    requires
        off + 8 <= b.len(),
    ensures
        r == spec_i64_from_le_bytes(b@.subrange(off as int, off as int + 8)),
{
    let x = u64_from_le_bytes(slice_subrange(b, off, off + 8));
    #[verifier::truncate] (x as i64)
}

/// Decodes a raw byte buffer, already stripped of its 8-byte discriminator,
/// into a satellite record. Succeeds exactly on buffers of the fixed layout
/// width whose two discriminant bytes are in range; any other buffer is a
/// malformed record.
pub fn decode_satellite(bytes: &[u8]) -> (r: Result<Satellite, ApiError>)
    ensures
        r is Ok <==> satellite_bytes_well_formed(bytes@),
        r matches Ok(s) ==> satellite_matches_bytes(s, bytes@),
        r matches Err(e) ==> e == ApiError::MalformedRecord,
{
    if bytes.len() != SATELLITE_WIRE_LEN {
        return Err(ApiError::MalformedRecord);
    }
    let maneuver_type = match decode_maneuver_type(bytes[206]) {
        Some(m) => m,
        None => {
            return Err(ApiError::MalformedRecord);
        },
    };
    let operation_status = match decode_operation_status(bytes[207]) {
        Some(s) => s,
        None => {
            return Err(ApiError::MalformedRecord);
        },
    };
    Ok(
        Satellite {
            owner: Address { bytes: read_array::<32>(bytes, 0) },
            name: read_array::<34>(bytes, 32),
            country: read_array::<34>(bytes, 66),
            norad_id: u64_from_le_bytes(slice_subrange(bytes, 100, 108)),
            launch_date: read_i64(bytes, 108),
            mint_date: read_i64(bytes, 116),
            orbit_type: read_array::<34>(bytes, 124),
            inclination: u64_from_le_bytes(slice_subrange(bytes, 158, 166)),
            altitude: u64_from_le_bytes(slice_subrange(bytes, 166, 174)),
            semi_major_axis: u64_from_le_bytes(slice_subrange(bytes, 174, 182)),
            eccentricity: u64_from_le_bytes(slice_subrange(bytes, 182, 190)),
            raan: u64_from_le_bytes(slice_subrange(bytes, 190, 198)),
            arg_of_periapsis: u64_from_le_bytes(slice_subrange(bytes, 198, 206)),
            maneuver_type,
            operation_status,
        },
    )
}

impl Satellite {
    /// Extracts the text held in a padded wire field, tolerating a short
    /// slice and a corrupted length prefix.
    pub fn get_string_from_padded_bytes(bytes: &[u8]) -> (r: String)
        ensures
            r@ == padded_text(bytes@),
    {
        decode_padded_text(bytes)
    }

    pub fn name_as_string(&self) -> (r: String)
        ensures
            r@ == padded_text(self.name@),
    {
        Self::get_string_from_padded_bytes(self.name.as_slice())
    }

    pub fn country_as_string(&self) -> (r: String)
        ensures
            r@ == padded_text(self.country@),
    {
        Self::get_string_from_padded_bytes(self.country.as_slice())
    }

    pub fn orbit_type_as_string(&self) -> (r: String)
        ensures
            r@ == padded_text(self.orbit_type@),
    {
        Self::get_string_from_padded_bytes(self.orbit_type.as_slice())
    }
}

/// The API-facing record: the three padded text fields replaced by their
/// clean decoded strings, every other field passed through unchanged. The
/// six orbital parameters stay raw 64-bit IEEE-754 words here.
#[derive(Debug)]
pub struct SatelliteApiResponse {
    pub owner: Address,
    pub name: String,
    pub country: String,
    pub norad_id: u64,
    pub launch_date: i64,
    pub mint_date: i64,
    pub orbit_type: String,
    pub inclination: u64,
    pub altitude: u64,
    pub semi_major_axis: u64,
    pub eccentricity: u64,
    pub raan: u64,
    pub arg_of_periapsis: u64,
    pub maneuver_type: ManeuverType,
    pub operation_status: OperationStatus,
}

/// How the API record relates to the decoded record it projects: text fields
/// are the decoded padded text, all others are equal.
pub open spec fn projection_of(r: SatelliteApiResponse, s: Satellite) -> bool {
    &&& r.owner@ == s.owner@
    &&& r.name@ == padded_text(s.name@)
    &&& r.country@ == padded_text(s.country@)
    &&& r.norad_id == s.norad_id
    &&& r.launch_date == s.launch_date
    &&& r.mint_date == s.mint_date
    &&& r.orbit_type@ == padded_text(s.orbit_type@)
    &&& r.inclination == s.inclination
    &&& r.altitude == s.altitude
    &&& r.semi_major_axis == s.semi_major_axis
    &&& r.eccentricity == s.eccentricity
    &&& r.raan == s.raan
    &&& r.arg_of_periapsis == s.arg_of_periapsis
    &&& r.maneuver_type == s.maneuver_type
    &&& r.operation_status == s.operation_status
}

impl SatelliteApiResponse {
    /// Projects a decoded record into its API form. Total and pure: the
    /// padded-text decoding has already absorbed every recoverable
    /// corruption, so no failure path is left.
    pub fn from(account: Satellite) -> (r: Self)
        ensures
            projection_of(r, account),
    {
        SatelliteApiResponse {
            owner: account.owner,
            name: account.name_as_string(),
            country: account.country_as_string(),
            norad_id: account.norad_id,
            launch_date: account.launch_date,
            mint_date: account.mint_date,
            orbit_type: account.orbit_type_as_string(),
            inclination: account.inclination,
            altitude: account.altitude,
            semi_major_axis: account.semi_major_axis,
            eccentricity: account.eccentricity,
            raan: account.raan,
            arg_of_periapsis: account.arg_of_periapsis,
            maneuver_type: account.maneuver_type,
            operation_status: account.operation_status,
        }
    }
}

/// What fetching the derived address from the remote store produced: the
/// account's raw bytes, a confirmed absence, or any other transport failure.
pub enum FetchOutcome {
    Found(Vec<u8>),
    NotFound,
    TransportFailed,
}

/// How an API record relates to the stripped buffer it was decoded from:
/// the composition of the fixed layout and the projection.
pub open spec fn response_matches_bytes(r: SatelliteApiResponse, b: Seq<u8>) -> bool {
    &&& r.owner@ == b.subrange(0, 32)
    &&& r.name@ == padded_text(b.subrange(32, 66))
    &&& r.country@ == padded_text(b.subrange(66, 100))
    &&& r.norad_id == spec_u64_from_le_bytes(b.subrange(100, 108))
    &&& r.launch_date == spec_i64_from_le_bytes(b.subrange(108, 116))
    &&& r.mint_date == spec_i64_from_le_bytes(b.subrange(116, 124))
    &&& r.orbit_type@ == padded_text(b.subrange(124, 158))
    &&& r.inclination == spec_u64_from_le_bytes(b.subrange(158, 166))
    &&& r.altitude == spec_u64_from_le_bytes(b.subrange(166, 174))
    &&& r.semi_major_axis == spec_u64_from_le_bytes(b.subrange(174, 182))
    &&& r.eccentricity == spec_u64_from_le_bytes(b.subrange(182, 190))
    &&& r.raan == spec_u64_from_le_bytes(b.subrange(190, 198))
    &&& r.arg_of_periapsis == spec_u64_from_le_bytes(b.subrange(198, 206))
    &&& Some(r.maneuver_type) == maneuver_type_from_tag(b[206])
    &&& Some(r.operation_status) == operation_status_from_tag(b[207])
}

/// What the preparation step's outcome is pinned to: invalid input exactly
/// when one of the three texts does not parse, otherwise the derivation's own
/// outcome, with the statistically improbable exhaustion of bump bytes
/// surfaced as invalid input too, since it is a function of the inputs alone.
pub open spec fn prepare_result_matches(
    r: Result<(Address, u8), ApiError>,
    user: Seq<char>,
    registry: Seq<char>,
    norad: Seq<char>,
    program: Seq<u8>,
) -> bool {
    let u = base58_decoded_address(user);
    let g = base58_decoded_address(registry);
    let n = spec_parse_u64(norad);
    if u is None || g is None || n is None {
        r == Err::<(Address, u8), ApiError>(ApiError::InvalidInput)
    } else {
        let d = pda_derivation(satellite_seeds(u->Some_0, g->Some_0, n->Some_0), program);
        &&& r is Ok <==> d is Some
        &&& r matches Ok(p) ==> Some((p.0@, p.1)) == d && !on_curve(p.0@)
        &&& r is Err ==> r == Err::<(Address, u8), ApiError>(ApiError::InvalidInput)
    }
}

/// Parses the three caller-supplied texts and derives the record's address
/// and bump byte. No fetch is attempted here: a parse failure rejects the
/// request before anything leaves the process.
pub fn prepare_satellite_request(
    user_authority_str: &str,
    registry_authority_str: &str,
    norad_id_str: &str,
    program: &Address,
) -> (r: Result<(Address, u8), ApiError>)
    ensures
        prepare_result_matches(
            r,
            user_authority_str@,
            registry_authority_str@,
            norad_id_str@,
            program@,
        ),
{
    let user = match parse_address(user_authority_str) {
        Some(a) => a,
        None => {
            return Err(ApiError::InvalidInput);
        },
    };
    let registry = match parse_address(registry_authority_str) {
        Some(a) => a,
        None => {
            return Err(ApiError::InvalidInput);
        },
    };
    let norad_id = match parse_norad_id(norad_id_str) {
        Some(n) => n,
        None => {
            return Err(ApiError::InvalidInput);
        },
    };
    match derive_satellite_address(&user, &registry, norad_id, program) {
        Some(p) => Ok(p),
        None => Err(ApiError::InvalidInput),
    }
}

/// Turns the fetch outcome for a derived address into the externally visible
/// result: a missing account is not-found, any other remote failure is a
/// transport error, returned bytes are stripped of their 8-byte discriminator
/// and decoded, and a buffer that cannot carry the discriminator or the fixed
/// layout is a malformed record.
pub fn complete_satellite_request(outcome: FetchOutcome) -> (r: Result<
    SatelliteApiResponse,
    ApiError,
>)
    ensures
        outcome is NotFound ==> r == Err::<SatelliteApiResponse, ApiError>(ApiError::NotFound),
        outcome is TransportFailed ==> r == Err::<SatelliteApiResponse, ApiError>(
            ApiError::TransportError,
        ),
        outcome matches FetchOutcome::Found(data) ==> {
            &&& r is Ok <==> (data@.len() >= 8 && satellite_bytes_well_formed(data@.skip(8)))
            &&& r matches Ok(resp) ==> response_matches_bytes(resp, data@.skip(8))
            &&& r matches Err(e) ==> e == ApiError::MalformedRecord
        },
{
    match outcome {
        FetchOutcome::NotFound => Err(ApiError::NotFound),
        FetchOutcome::TransportFailed => Err(ApiError::TransportError),
        FetchOutcome::Found(data) => {
            if data.len() < 8 {
                return Err(ApiError::MalformedRecord);
            }
            let payload = slice_subrange(data.as_slice(), 8, data.len());
            proof {
                assert(payload@ =~= data@.skip(8));
            }
            match decode_satellite(payload) {
                Ok(sat) => Ok(SatelliteApiResponse::from(sat)),
                Err(e) => Err(e),
            }
        },
    }
}

} // verus!
