//! The calls that reach the machine: operating-system facts, memory and
//! disk sizes, the clock, timestamp formatting and the machine identifier. What they return
//! depends on the machine and the moment, so their contracts state only
//! what holds of every outcome.

use vstd::prelude::*;

verus! {

/// Declares `sys_info::Error`, the error of the system queries; the library
/// never looks inside it.
#[verifier::external_type_specification]
#[verifier::external_body]
pub struct ExSysInfoError(sys_info::Error);

/// Declares `std::time::SystemTime`, a reading of the system clock; the
/// library looks at it only through `since_unix_epoch`.
#[verifier::external_type_specification]
#[verifier::external_body]
pub struct ExSystemTime(std::time::SystemTime);

/// Declares `machineid_rs::IdBuilder`, the builder of machine identifiers;
/// what it holds is named by `builder_parts` and `builder_hash`.
#[verifier::external_type_specification]
#[verifier::external_body]
pub struct ExIdBuilder(machineid_rs::IdBuilder);

/// Total and free memory, in kilobytes.
pub struct MemoryStats {
    pub total: u64,
    pub free: u64,
}

/// Total and free space of the disk, in kilobytes.
pub struct DiskStats {
    pub total: u64,
    pub free: u64,
}

/// `sys_info::os_type`: the operating system's type, such as "Linux".
/// Nothing is stated of the result: it is read from the running system.
#[verifier::external_body]
pub(crate) fn os_type() -> (r: Result<String, sys_info::Error>) {
    sys_info::os_type()
}

/// `sys_info::os_release`: the operating system's release. Nothing is stated
/// of the result: it is read from the running system.
#[verifier::external_body]
pub(crate) fn os_release() -> (r: Result<String, sys_info::Error>) {
    sys_info::os_release()
}

/// `sys_info::mem_info`, of which the total and free memory are kept.
/// Nothing is stated of the values: they are read from the running system.
#[verifier::external_body]
pub(crate) fn mem_info() -> (r: Result<MemoryStats, sys_info::Error>) {
    match sys_info::mem_info() {
        Ok(m) => Ok(MemoryStats { total: m.total, free: m.free }),
        Err(e) => Err(e),
    }
}

/// `sys_info::disk_info`: total and free disk space. Nothing is stated of
/// the values: they are read from the running system.
#[verifier::external_body]
pub(crate) fn disk_info() -> (r: Result<DiskStats, sys_info::Error>) {
    match sys_info::disk_info() {
        Ok(d) => Ok(DiskStats { total: d.total, free: d.free }),
        Err(e) => Err(e),
    }
}

/// `std::time::SystemTime::now`: the system clock's reading. Nothing is
/// stated of it: it is the clock's.
#[verifier::external_body]
pub(crate) fn system_time_now() -> (r: std::time::SystemTime) {
    std::time::SystemTime::now()
}

/// How far a clock reading lies from the Unix epoch: whole seconds and the
/// nanoseconds beyond them.
pub struct EpochOffset {
    pub secs: u64,
    pub nanos: u32,
}

/// `std::time::SystemTime::duration_since(UNIX_EPOCH)`: `Ok` with the
/// distance after the epoch, or `Err` with the distance before it, each as
/// whole seconds and the nanoseconds beyond them (fewer than a billion, as
/// `Duration::subsec_nanos` documents). Which distance comes out is the
/// clock's and is not stated.
#[verifier::external_body]
pub(crate) fn since_unix_epoch(t: &std::time::SystemTime) -> (r: Result<EpochOffset, EpochOffset>)
    ensures
        r matches Ok(d) ==> d.nanos < 1_000_000_000,
        r matches Err(d) ==> d.nanos < 1_000_000_000,
{
    match t.duration_since(std::time::UNIX_EPOCH) {
        Ok(d) => Ok(EpochOffset { secs: d.as_secs(), nanos: d.subsec_nanos() }),
        Err(e) => Err(EpochOffset { secs: e.duration().as_secs(), nanos: e.duration().subsec_nanos() }),
    }
}

/// How many digits of the second's fraction a timestamp shows.
pub enum SubsecondDigits {
    /// None.
    Secs,
    /// Three.
    Millis,
    /// Six.
    Micros,
    /// Nine.
    Nanos,
    /// As many as the fraction needs: none, three, six or nine.
    AutoSi,
}

/// Whether `c` is an ASCII decimal digit.
pub open spec fn is_digit(c: char) -> bool {
    '0' <= c <= '9'
}

/// Whether `s` is an RFC 3339 UTC timestamp with milliseconds and a four-digit
/// year, as in `2018-01-26T18:30:09.453Z`: exactly
/// `DDDD-DD-DDTDD:DD:DD.DDDZ`, with `D` a decimal digit.
pub open spec fn is_utc_millis_timestamp(s: Seq<char>) -> bool {
    &&& s.len() == 24
    &&& forall|i: int|
        0 <= i < 24 && i != 4 && i != 7 && i != 10 && i != 13 && i != 16 && i != 19 && i != 23
            ==> is_digit(#[trigger] s[i])
    &&& s[4] == '-'
    &&& s[7] == '-'
    &&& s[10] == 'T'
    &&& s[13] == ':'
    &&& s[16] == ':'
    &&& s[19] == '.'
    &&& s[23] == 'Z'
}

/// Whether `secs` seconds after the Unix epoch fall in the years 0 to 9999:
/// from 0000-01-01T00:00:00Z to 9999-12-31T23:59:59Z.
pub open spec fn in_four_digit_years(secs: int) -> bool {
    -62167219200 <= secs <= 253402300799
}

/// The text that chrono gives for the instant `secs` seconds and `nanos`
/// nanoseconds after the Unix epoch, written in UTC as RFC 3339 with the
/// given fraction digits and, when `use_z`, `Z` for the zero offset; `None`
/// where chrono cannot represent the instant.
pub uninterp spec fn rfc3339_text(secs: i64, nanos: u32, digits: SubsecondDigits, use_z: bool) -> Option<Seq<char>>;

/// `chrono::DateTime::<Utc>::from_timestamp` followed by `to_rfc3339_opts`
/// (the instant in between is a type this library cannot name, so both calls
/// stand in one wrapper): the instant's RFC 3339 text, named
/// `rfc3339_text`. The instant is representable for every year from 0 to
/// 9999 with fewer than a billion nanoseconds; there, with three fraction
/// digits and `Z`, the text is `DDDD-DD-DDTDD:DD:DD.DDDZ` (chrono writes four
/// year digits, two for each other part, three for the milliseconds, and `Z`
/// for the zero offset). Which date the digits spell is left to the name.
#[verifier::external_body]
pub(crate) fn format_rfc3339(secs: i64, nanos: u32, digits: SubsecondDigits, use_z: bool) -> (r: Option<String>)
    ensures
        crate::text::opt_view(r) == rfc3339_text(secs, nanos, digits, use_z),
        nanos < 1_000_000_000 && in_four_digit_years(secs as int) ==> r is Some,
        nanos < 1_000_000_000 && in_four_digit_years(secs as int) && digits is Millis && use_z
            ==> is_utc_millis_timestamp(r->0@),
{
    let form = match digits {
        SubsecondDigits::Secs => chrono::SecondsFormat::Secs,
        SubsecondDigits::Millis => chrono::SecondsFormat::Millis,
        SubsecondDigits::Micros => chrono::SecondsFormat::Micros,
        SubsecondDigits::Nanos => chrono::SecondsFormat::Nanos,
        SubsecondDigits::AutoSi => chrono::SecondsFormat::AutoSi,
    };
    match chrono::DateTime::from_timestamp(secs, nanos) {
        Some(t) => Some(t.to_rfc3339_opts(form, use_z)),
        None => None,
    }
}

/// The digests that can seal a machine identifier.
pub enum IdHash {
    MD5,
    SHA256,
    SHA1,
}

/// The machine facts that can go into a machine identifier.
pub enum IdComponent {
    SystemID,
    CPUCores,
    OSName,
    Username,
    MachineName,
    MacAddress,
    CPUID,
    DriveSerial,
}

/// The components that an identifier builder holds, in the order added.
pub uninterp spec fn builder_parts(b: machineid_rs::IdBuilder) -> Seq<IdComponent>;

/// The digest that an identifier builder was made with.
pub uninterp spec fn builder_hash(b: machineid_rs::IdBuilder) -> IdHash;

/// The number of hexadecimal digits of a digest's HMAC.
pub open spec fn hex_digest_len(h: IdHash) -> nat {
    match h {
        IdHash::MD5 => 32,
        IdHash::SHA1 => 40,
        IdHash::SHA256 => 64,
    }
}

/// The lower-case hexadecimal HMAC, with the digest `hash` and the key `key`,
/// of the bytes `text`.
pub uninterp spec fn keyed_digest(hash: IdHash, key: Seq<char>, text: Seq<u8>) -> Seq<char>;

/// Whether `c` is a lower-case hexadecimal digit.
pub open spec fn is_lower_hex(c: char) -> bool {
    ('0' <= c <= '9') || ('a' <= c <= 'f')
}

/// `machineid_rs::IdBuilder::new`: a builder with no components and the
/// given digest.
#[verifier::external_body]
pub(crate) fn id_builder_new(hash: IdHash) -> (b: machineid_rs::IdBuilder)
    ensures
        builder_parts(b) == Seq::<IdComponent>::empty(),
        builder_hash(b) == hash,
{
    machineid_rs::IdBuilder::new(
        match hash {
            IdHash::MD5 => machineid_rs::Encryption::MD5,
            IdHash::SHA256 => machineid_rs::Encryption::SHA256,
            IdHash::SHA1 => machineid_rs::Encryption::SHA1,
        },
    )
}

/// `machineid_rs::IdBuilder::add_component`: appends the component unless
/// the builder holds it already; the digest stays.
#[verifier::external_body]
pub(crate) fn id_builder_add(b: &mut machineid_rs::IdBuilder, c: IdComponent)
    ensures
        builder_parts(*final(b)) == (if builder_parts(*old(b)).contains(c) {
            builder_parts(*old(b))
        } else {
            builder_parts(*old(b)).push(c)
        }),
        builder_hash(*final(b)) == builder_hash(*old(b)),
{
    b.add_component(
        match c {
            IdComponent::SystemID => machineid_rs::HWIDComponent::SystemID,
            IdComponent::CPUCores => machineid_rs::HWIDComponent::CPUCores,
            IdComponent::OSName => machineid_rs::HWIDComponent::OSName,
            IdComponent::Username => machineid_rs::HWIDComponent::Username,
            IdComponent::MachineName => machineid_rs::HWIDComponent::MachineName,
            IdComponent::MacAddress => machineid_rs::HWIDComponent::MacAddress,
            IdComponent::CPUID => machineid_rs::HWIDComponent::CPUID,
            IdComponent::DriveSerial => machineid_rs::HWIDComponent::DriveSerial,
        },
    );
}

/// `machineid_rs::IdBuilder::build`, with its error dropped (its type is not
/// public): the HMAC with the builder's digest under `key` of the text that
/// the components' machine values join into, in lower-case hexadecimal (the
/// name `keyed_digest`), or `None` when a component could not be read. The
/// builder is left as it was. The call panics on a builder without
/// components. The joined text depends on the machine and is not stated.
#[verifier::external_body]
pub(crate) fn id_builder_build(b: &mut machineid_rs::IdBuilder, key: &str) -> (r: Option<String>)
    requires
        builder_parts(*old(b)).len() > 0,
    ensures
        builder_parts(*final(b)) == builder_parts(*old(b)),
        builder_hash(*final(b)) == builder_hash(*old(b)),
        r matches Some(s) ==> s@.len() == hex_digest_len(builder_hash(*old(b))),
        r matches Some(s) ==> forall|i: int| 0 <= i < s@.len() ==> is_lower_hex(#[trigger] s@[i]),
        r matches Some(s) ==> exists|t: Seq<u8>|
            s@ == #[trigger] keyed_digest(builder_hash(*old(b)), key@, t),
{
    b.build(key).ok()
}

} // verus!
