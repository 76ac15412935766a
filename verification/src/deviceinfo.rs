//! Description of the device an event happened on, and the system facts
//! it is built from.

use std::collections::HashMap;
use vstd::prelude::*;
use crate::hardware::HardwareInfo;
use crate::platform::{
    builder_hash, builder_parts, disk_info, keyed_digest, format_rfc3339, id_builder_add, id_builder_build,
    id_builder_new, in_four_digit_years, is_lower_hex, is_utc_millis_timestamp, mem_info,
    os_release, os_type, rfc3339_text, since_unix_epoch, system_time_now, DiskStats, EpochOffset,
    IdComponent, IdHash, MemoryStats, SubsecondDigits,
};
use crate::text::opt_view;

verus! {

/// Usage of one mounted disk.
#[derive(Debug, PartialEq)]
pub struct DiskInfo {
    pub total: u64,
    pub free: u64,
    pub used: u64,
    pub mount_point: String,
}

/// The device an event happened on.
#[derive(Debug)]
pub struct DeviceInfo {
    pub id: Option<String>,
    pub manufacturer: Option<String>,
    pub model: Option<String>,
    pub model_number: Option<String>,
    pub os_name: String,
    pub os_version: String,
    pub hostname: String,
    pub free_memory: Option<u64>,
    pub total_memory: Option<u64>,
    pub free_disk: Option<u64>,
    pub total_disk: Option<u64>,
    pub disk_usage: Option<HashMap<String, DiskInfo>>,
    pub time: String,
}

/// The value of a [`DeviceInfo`], with its texts as character sequences.
#[verifier::ext_equal]
pub struct DeviceInfoView {
    pub id: Option<Seq<char>>,
    pub manufacturer: Option<Seq<char>>,
    pub model: Option<Seq<char>>,
    pub model_number: Option<Seq<char>>,
    pub os_name: Seq<char>,
    pub os_version: Seq<char>,
    pub hostname: Seq<char>,
    pub free_memory: Option<u64>,
    pub total_memory: Option<u64>,
    pub free_disk: Option<u64>,
    pub total_disk: Option<u64>,
    pub disk_usage: Option<HashMap<String, DiskInfo>>,
    pub time: Seq<char>,
}

impl View for DeviceInfo {
    type V = DeviceInfoView;

    open spec fn view(&self) -> DeviceInfoView {
        DeviceInfoView {
            id: opt_view(self.id),
            manufacturer: opt_view(self.manufacturer),
            model: opt_view(self.model),
            model_number: opt_view(self.model_number),
            os_name: self.os_name@,
            os_version: self.os_version@,
            hostname: self.hostname@,
            free_memory: self.free_memory,
            total_memory: self.total_memory,
            free_disk: self.free_disk,
            total_disk: self.total_disk,
            disk_usage: self.disk_usage,
            time: self.time@,
        }
    }
}

/// One write of one field of a device description, as its setters make it.
pub enum DeviceUpdate {
    Id(Seq<char>),
    Manufacturer(Seq<char>),
    Model(Seq<char>),
    ModelNumber(Seq<char>),
    OsName(Seq<char>),
    OsVersion(Seq<char>),
    Hostname(Seq<char>),
    FreeMemory(u64),
    TotalMemory(u64),
    FreeDisk(u64),
    TotalDisk(u64),
    DiskUsage(HashMap<String, DiskInfo>),
    Time(Seq<char>),
}

impl DeviceUpdate {
    /// The position of the field that the update writes.
    pub open spec fn field(self) -> int {
        match self {
            DeviceUpdate::Id(_) => 0,
            DeviceUpdate::Manufacturer(_) => 1,
            DeviceUpdate::Model(_) => 2,
            DeviceUpdate::ModelNumber(_) => 3,
            DeviceUpdate::OsName(_) => 4,
            DeviceUpdate::OsVersion(_) => 5,
            DeviceUpdate::Hostname(_) => 6,
            DeviceUpdate::FreeMemory(_) => 7,
            DeviceUpdate::TotalMemory(_) => 8,
            DeviceUpdate::FreeDisk(_) => 9,
            DeviceUpdate::TotalDisk(_) => 10,
            DeviceUpdate::DiskUsage(_) => 11,
            DeviceUpdate::Time(_) => 12,
        }
    }
}

impl DeviceInfoView {
    /// The description after the update: its field holds the new value and
    /// every other field is unchanged.
    pub open spec fn apply(self, u: DeviceUpdate) -> DeviceInfoView {
        match u {
            DeviceUpdate::Id(v) => DeviceInfoView { id: Some(v), ..self },
            DeviceUpdate::Manufacturer(v) => DeviceInfoView { manufacturer: Some(v), ..self },
            DeviceUpdate::Model(v) => DeviceInfoView { model: Some(v), ..self },
            DeviceUpdate::ModelNumber(v) => DeviceInfoView { model_number: Some(v), ..self },
            DeviceUpdate::OsName(v) => DeviceInfoView { os_name: v, ..self },
            DeviceUpdate::OsVersion(v) => DeviceInfoView { os_version: v, ..self },
            DeviceUpdate::Hostname(v) => DeviceInfoView { hostname: v, ..self },
            DeviceUpdate::FreeMemory(v) => DeviceInfoView { free_memory: Some(v), ..self },
            DeviceUpdate::TotalMemory(v) => DeviceInfoView { total_memory: Some(v), ..self },
            DeviceUpdate::FreeDisk(v) => DeviceInfoView { free_disk: Some(v), ..self },
            DeviceUpdate::TotalDisk(v) => DeviceInfoView { total_disk: Some(v), ..self },
            DeviceUpdate::DiskUsage(v) => DeviceInfoView { disk_usage: Some(v), ..self },
            DeviceUpdate::Time(v) => DeviceInfoView { time: v, ..self },
        }
    }
}

/// Of two writes of the same field, the later one is what stays.
pub proof fn lemma_later_update_wins(v: DeviceInfoView, a: DeviceUpdate, b: DeviceUpdate)
    requires
        a.field() == b.field(),
    ensures
        v.apply(a).apply(b) == v.apply(b),
{
}

/// Writes of different fields can be made in either order.
pub proof fn lemma_updates_of_distinct_fields_commute(
    v: DeviceInfoView,
    a: DeviceUpdate,
    b: DeviceUpdate,
)
    requires
        a.field() != b.field(),
    ensures
        v.apply(a).apply(b) == v.apply(b).apply(a),
{
}


/// `v`, or `default` when there is none.
pub open spec fn text_or(v: Option<Seq<char>>, default: Seq<char>) -> Seq<char> {
    match v {
        Some(t) => t,
        None => default,
    }
}

/// The total of a memory reading, if there is one.
pub open spec fn memory_total(m: Option<MemoryStats>) -> Option<u64> {
    match m {
        Some(s) => Some(s.total),
        None => None,
    }
}

/// The free figure of a memory reading, if there is one.
pub open spec fn memory_free(m: Option<MemoryStats>) -> Option<u64> {
    match m {
        Some(s) => Some(s.free),
        None => None,
    }
}

/// The total of a disk reading, if there is one.
pub open spec fn disk_total(d: Option<DiskStats>) -> Option<u64> {
    match d {
        Some(s) => Some(s.total),
        None => None,
    }
}

/// System information that does not change while the process runs.
pub struct StaticSystemInfo {
    pub hardware: HardwareInfo,
    pub hostname: String,
    pub os_name: String,
    pub os_version: String,
    pub total_memory: Option<u64>,
    pub total_disk: Option<u64>,
}

fn string_or(v: Option<String>, default: &str) -> (r: String)
    ensures
        r@ == text_or(opt_view(v), default@),
{
    match v {
        Some(t) => t,
        None => default.to_owned(),
    }
}

fn option_of<T, E>(r: Result<T, E>) -> (o: Option<T>)
    ensures
        o == match r {
            Ok(t) => Some(t),
            Err(_) => None::<T>,
        },
{
    match r {
        Ok(t) => Some(t),
        Err(_) => None,
    }
}

impl StaticSystemInfo {
    /// The system information from what the system reported. The name is
    /// the operating system's type, or "Unknown"; the version is a second
    /// reading of the type (or "Unknown"), a colon and the release (or
    /// "u.k.n.o.w.n"); the host name defaults to "UnknownHost"; the total
    /// memory and total disk are the totals of their readings.
    pub fn assemble(
        hardware: HardwareInfo,
        name_type: Option<String>,
        version_type: Option<String>,
        os_release: Option<String>,
        hostname: Option<String>,
        memory: Option<MemoryStats>,
        disk: Option<DiskStats>,
    ) -> (r: StaticSystemInfo)
        ensures
            r.hardware == hardware,
            r.os_name@ == text_or(opt_view(name_type), "Unknown"@),
            r.os_version@ == text_or(opt_view(version_type), "Unknown"@) + ":"@ + text_or(
                opt_view(os_release),
                "u.k.n.o.w.n"@,
            ),
            r.hostname@ == text_or(opt_view(hostname), "UnknownHost"@),
            r.total_memory == memory_total(memory),
            r.total_disk == disk_total(disk),
    {
        let os_name = string_or(name_type, "Unknown");
        let mut version = string_or(version_type, "Unknown");
        version.append(":");
        let release = string_or(os_release, "u.k.n.o.w.n");
        version.append(release.as_str());
        let total_memory = match memory {
            Some(m) => Some(m.total),
            None => None,
        };
        let total_disk = match disk {
            Some(d) => Some(d.total),
            None => None,
        };
        StaticSystemInfo {
            hardware,
            hostname: string_or(hostname, "UnknownHost"),
            os_name,
            os_version: version,
            total_memory,
            total_disk,
        }
    }

    /// The system information of the running system, with the given hardware
    /// and host name reading: the operating system's type (read once for the
    /// name and once for the version), its release, and the memory and disk
    /// readings go to `assemble`. What the system reports is not known here.
    pub fn collect(hardware: HardwareInfo, hostname: Option<String>) -> (r: StaticSystemInfo)
        ensures
            r.hardware == hardware,
            r.hostname@ == text_or(opt_view(hostname), "UnknownHost"@),
    {
        let version_type = option_of(os_type());
        let release = option_of(os_release());
        let name_type = option_of(os_type());
        let memory = option_of(mem_info());
        let disk = option_of(disk_info());
        StaticSystemInfo::assemble(hardware, name_type, version_type, release, hostname, memory, disk)
    }
}

/// A reading of the clock: seconds after the Unix epoch (negative before
/// it) and the nanoseconds beyond them.
pub struct ClockReading {
    pub secs: i64,
    pub nanos: u32,
}

/// The seconds and nanoseconds of the instant at a distance from the epoch:
/// after it for `Ok`, before it for `Err`, with the nanoseconds kept
/// non-negative.
pub open spec fn offset_instant(offset: Result<EpochOffset, EpochOffset>) -> (int, int) {
    match offset {
        Ok(d) => (d.secs as int, d.nanos as int),
        Err(d) => if d.nanos == 0 {
            (-(d.secs as int), 0)
        } else {
            (-(d.secs as int) - 1, 1_000_000_000 - d.nanos)
        },
    }
}

/// Whether the nanoseconds of a distance from the epoch are below a billion.
pub open spec fn offset_well_formed(offset: Result<EpochOffset, EpochOffset>) -> bool {
    match offset {
        Ok(d) => d.nanos < 1_000_000_000,
        Err(d) => d.nanos < 1_000_000_000,
    }
}

/// The clock reading for a distance from the epoch; `None` when its seconds
/// do not fit an `i64`.
pub fn clock_reading(offset: Result<EpochOffset, EpochOffset>) -> (r: Option<ClockReading>)
    requires
        offset_well_formed(offset),
    ensures
        r is Some <==> i64::MIN <= offset_instant(offset).0 <= i64::MAX,
        r matches Some(c) ==> c.secs == offset_instant(offset).0 && c.nanos == offset_instant(
            offset,
        ).1,
        r matches Some(c) ==> c.nanos < 1_000_000_000,
{
    match offset {
        Ok(d) => {
            if d.secs <= 9223372036854775807u64 {
                Some(ClockReading { secs: d.secs as i64, nanos: d.nanos })
            } else {
                None
            }
        },
        Err(d) => {
            if d.nanos == 0 {
                if d.secs < 9223372036854775808u64 {
                    Some(ClockReading { secs: -(d.secs as i64), nanos: 0 })
                } else if d.secs == 9223372036854775808u64 {
                    Some(ClockReading { secs: i64::MIN, nanos: 0 })
                } else {
                    None
                }
            } else {
                if d.secs <= 9223372036854775807u64 {
                    Some(ClockReading { secs: -(d.secs as i64) - 1, nanos: 1_000_000_000 - d.nanos })
                } else {
                    None
                }
            }
        },
    }
}

/// A reading keeps the instant it was made from: in nanoseconds from the
/// epoch it is the distance after the epoch for `Ok` and the negated
/// distance for `Err`, with the nanoseconds part in `0 .. 1_000_000_000`.
pub proof fn lemma_clock_reading_keeps_instant(offset: Result<EpochOffset, EpochOffset>)
    requires
        offset_well_formed(offset),
    ensures
        0 <= offset_instant(offset).1 < 1_000_000_000,
        offset matches Ok(d) ==> offset_instant(offset).0 * 1_000_000_000 + offset_instant(offset).1
            == d.secs * 1_000_000_000 + d.nanos,
        offset matches Err(d) ==> offset_instant(offset).0 * 1_000_000_000 + offset_instant(offset).1
            == -(d.secs * 1_000_000_000 + d.nanos),
{
}

/// The text of a clock reading: its RFC 3339 UTC text with milliseconds, or
/// the empty text when there is no reading or chrono cannot represent it.
pub open spec fn time_text(reading: Option<ClockReading>) -> Seq<char> {
    match reading {
        Some(c) => match rfc3339_text(c.secs, c.nanos, SubsecondDigits::Millis, true) {
            Some(t) => t,
            None => Seq::<char>::empty(),
        },
        None => Seq::<char>::empty(),
    }
}

/// Whether `t` is the text of the clock reading `c`, with what is known of
/// its shape.
pub open spec fn clock_text(c: Option<ClockReading>, t: Seq<char>) -> bool {
    &&& t == time_text(c)
    &&& c matches Some(k) ==> k.nanos < 1_000_000_000 && (in_four_digit_years(k.secs as int)
        ==> is_utc_millis_timestamp(t))
}

/// Whether `t` is the text of some reading of the clock, or the empty text
/// that stands for a clock that could not be read (`c` is `None`).
pub open spec fn is_clock_text(t: Seq<char>) -> bool {
    exists|c: Option<ClockReading>| #[trigger] clock_text(c, t)
}

/// The RFC 3339 UTC text with milliseconds of a clock reading, such as
/// `2018-01-26T18:30:09.453Z` for the years 0 to 9999; the empty text when
/// there is no reading or chrono cannot represent it.
pub fn format_time(reading: Option<ClockReading>) -> (r: String)
    ensures
        r@ == time_text(reading),
        reading matches Some(c) && c.nanos < 1_000_000_000 && in_four_digit_years(c.secs as int)
            ==> is_utc_millis_timestamp(r@),
{
    match reading {
        Some(c) => match format_rfc3339(c.secs, c.nanos, SubsecondDigits::Millis, true) {
            Some(t) => t,
            None => String::new(),
        },
        None => String::new(),
    }
}

/// The current time as an RFC 3339 UTC timestamp with milliseconds: the text
/// of the clock's reading.
pub fn format_current_time() -> (r: String)
    ensures
        is_clock_text(r@),
{
    let now = system_time_now();
    let offset = since_unix_epoch(&now);
    let reading = clock_reading(offset);
    let r = format_time(reading);
    proof {
        assert(clock_text(reading, r@));
    }
    r
}

/// The key under which machine identifiers are sealed.
pub const HARDWARE_ID_KEY: &'static str = "bugsnag-rs";

/// The builder of this library's machine identifiers: the MD5 digest over
/// the system identifier and the number of CPU cores, in that order.
pub fn hardware_id_builder() -> (b: machineid_rs::IdBuilder)
    ensures
        builder_parts(b) == seq![IdComponent::SystemID, IdComponent::CPUCores],
        builder_hash(b) == IdHash::MD5,
{
    let mut builder = id_builder_new(IdHash::MD5);
    id_builder_add(&mut builder, IdComponent::SystemID);
    id_builder_add(&mut builder, IdComponent::CPUCores);
    proof {
        assert(!Seq::<IdComponent>::empty().contains(IdComponent::SystemID));
        assert(!seq![IdComponent::SystemID].contains(IdComponent::CPUCores)) by {
            assert(seq![IdComponent::SystemID][0] == IdComponent::SystemID);
        }
        assert(Seq::<IdComponent>::empty().push(IdComponent::SystemID).push(IdComponent::CPUCores)
            =~= seq![IdComponent::SystemID, IdComponent::CPUCores]);
    }
    builder
}

/// An identifier of this machine: the MD5 HMAC under `HARDWARE_ID_KEY` of what
/// `hardware_id_builder` gathers, in 32 lower-case hexadecimal digits, or
/// `None` when those facts could not be read.
pub fn generate_hardware_id() -> (r: Option<String>)
    ensures
        r matches Some(s) ==> s@.len() == 32 && forall|i: int|
            0 <= i < s@.len() ==> is_lower_hex(#[trigger] s@[i]),
        r matches Some(s) ==> exists|t: Seq<u8>|
            s@ == #[trigger] keyed_digest(IdHash::MD5, HARDWARE_ID_KEY@, t),
{
    let mut builder = hardware_id_builder();
    id_builder_build(&mut builder, HARDWARE_ID_KEY)
}

/// The device description that system information, a free memory and a
/// time give: the hardware and system facts, with no disk usage and no free
/// disk space.
pub open spec fn system_device_view(
    system: &StaticSystemInfo,
    free_memory: Option<u64>,
    time: Seq<char>,
) -> DeviceInfoView {
    DeviceInfoView {
        id: opt_view(system.hardware.id),
        manufacturer: Some(system.hardware.manufacturer@),
        model: Some(system.hardware.model@),
        model_number: Some(system.hardware.model_number@),
        os_name: system.os_name@,
        os_version: system.os_version@,
        hostname: system.hostname@,
        free_memory: free_memory,
        total_memory: system.total_memory,
        free_disk: None,
        total_disk: system.total_disk,
        disk_usage: None,
        time: time,
    }
}

/// The device description for an application version and a host name at a
/// time: the operating system's name and total memory come from the system
/// information, everything else is absent.
pub open spec fn new_device_view(
    version: Seq<char>,
    name: Seq<char>,
    system: &StaticSystemInfo,
    time: Seq<char>,
) -> DeviceInfoView {
    DeviceInfoView {
        id: None,
        manufacturer: None,
        model: None,
        model_number: None,
        os_name: system.os_name@,
        os_version: version,
        hostname: name,
        free_memory: None,
        total_memory: system.total_memory,
        free_disk: None,
        total_disk: None,
        disk_usage: None,
        time: time,
    }
}

/// Two new device descriptions made from the same version, host name and
/// system information differ at most in their time.
pub proof fn lemma_new_devices_differ_only_in_time(
    version: Seq<char>,
    name: Seq<char>,
    system: &StaticSystemInfo,
    t1: Seq<char>,
    t2: Seq<char>,
)
    ensures
        new_device_view(version, name, system, t1) == new_device_view(
            version,
            name,
            system,
            t2,
        ).apply(DeviceUpdate::Time(t1)),
{
}

/// A new device description and a generated one, made from the same system
/// information, agree on the operating system's name and the total memory.
pub proof fn lemma_new_agrees_with_generated(
    version: Seq<char>,
    name: Seq<char>,
    system: &StaticSystemInfo,
    t1: Seq<char>,
    free_memory: Option<u64>,
    t2: Seq<char>,
)
    ensures
        new_device_view(version, name, system, t1).os_name == system_device_view(
            system,
            free_memory,
            t2,
        ).os_name,
        new_device_view(version, name, system, t1).total_memory == system_device_view(
            system,
            free_memory,
            t2,
        ).total_memory,
{
}

fn clone_opt(o: &Option<String>) -> (r: Option<String>)
    ensures
        opt_view(r) == opt_view(*o),
{
    match o {
        Some(s) => Some(s.clone()),
        None => None,
    }
}

impl DeviceInfo {
    /// A device description for an application version and a host name at
    /// the given time, with the operating system's name and total memory of
    /// the system information; everything else is absent.
    pub fn new_at(version: &str, name: &str, system: &StaticSystemInfo, time: String) -> (r:
        DeviceInfo)
        ensures
            r@ == new_device_view(version@, name@, system, time@),
    {
        DeviceInfo {
            id: None,
            manufacturer: None,
            model: None,
            model_number: None,
            os_name: system.os_name.clone(),
            os_version: version.to_owned(),
            hostname: name.to_owned(),
            free_memory: None,
            total_memory: system.total_memory,
            free_disk: None,
            total_disk: None,
            disk_usage: None,
            time,
        }
    }

    /// A device description for an application version and a host name, with
    /// the operating system's name and total memory of the system
    /// information, at the clock's current time.
    pub fn new(version: &str, name: &str, system: &StaticSystemInfo) -> (r: DeviceInfo)
        ensures
            r@ == new_device_view(version@, name@, system, r@.time),
            is_clock_text(r@.time),
    {
        DeviceInfo::new_at(version, name, system, format_current_time())
    }

    /// A device description from the system information, a memory reading
    /// and a time: the hardware and system facts are copied, the free memory
    /// is the reading's free figure, disk usage and free disk space are
    /// absent.
    pub fn from_system(system: &StaticSystemInfo, memory: Option<MemoryStats>, time: String) -> (r:
        DeviceInfo)
        ensures
            r@ == system_device_view(system, memory_free(memory), time@),
    {
        let free_memory = match memory {
            Some(m) => Some(m.free),
            None => None,
        };
        DeviceInfo {
            id: clone_opt(&system.hardware.id),
            manufacturer: Some(system.hardware.manufacturer.clone()),
            model: Some(system.hardware.model.clone()),
            model_number: Some(system.hardware.model_number.clone()),
            os_name: system.os_name.clone(),
            os_version: system.os_version.clone(),
            hostname: system.hostname.clone(),
            free_memory,
            total_memory: system.total_memory,
            free_disk: None,
            total_disk: system.total_disk,
            disk_usage: None,
            time,
        }
    }

    /// A device description of the running system: its system information,
    /// the memory read now and the clock's current time.
    pub fn generate(system: &StaticSystemInfo) -> (r: DeviceInfo)
        ensures
            r@ == system_device_view(system, r.free_memory, r@.time),
            is_clock_text(r@.time),
    {
        let memory = option_of(mem_info());
        DeviceInfo::from_system(system, memory, format_current_time())
    }

    /// Sets the device identifier.
    pub fn set_id(&mut self, id: &str)
        ensures
            final(self)@ == old(self)@.apply(DeviceUpdate::Id(id@)),
    {
        self.id = Some(id.to_owned());
    }

    /// Sets the manufacturer.
    pub fn set_manufacturer(&mut self, manufacturer: &str)
        ensures
            final(self)@ == old(self)@.apply(DeviceUpdate::Manufacturer(manufacturer@)),
    {
        self.manufacturer = Some(manufacturer.to_owned());
    }

    /// Sets the model.
    pub fn set_model(&mut self, model: &str)
        ensures
            final(self)@ == old(self)@.apply(DeviceUpdate::Model(model@)),
    {
        self.model = Some(model.to_owned());
    }

    /// Sets the model number.
    pub fn set_model_number(&mut self, model_number: &str)
        ensures
            final(self)@ == old(self)@.apply(DeviceUpdate::ModelNumber(model_number@)),
    {
        self.model_number = Some(model_number.to_owned());
    }

    /// Sets the operating system's name.
    pub fn set_os_name(&mut self, os_name: &str)
        ensures
            final(self)@ == old(self)@.apply(DeviceUpdate::OsName(os_name@)),
    {
        self.os_name = os_name.to_owned();
    }

    /// Sets the operating system's version.
    pub fn set_os_version(&mut self, version: &str)
        ensures
            final(self)@ == old(self)@.apply(DeviceUpdate::OsVersion(version@)),
    {
        self.os_version = version.to_owned();
    }

    /// Sets the host name.
    pub fn set_hostname(&mut self, name: &str)
        ensures
            final(self)@ == old(self)@.apply(DeviceUpdate::Hostname(name@)),
    {
        self.hostname = name.to_owned();
    }

    /// Sets the free memory.
    pub fn set_free_memory(&mut self, free_memory: u64)
        ensures
            final(self)@ == old(self)@.apply(DeviceUpdate::FreeMemory(free_memory)),
    {
        self.free_memory = Some(free_memory);
    }

    /// Sets the total memory.
    pub fn set_total_memory(&mut self, total_memory: u64)
        ensures
            final(self)@ == old(self)@.apply(DeviceUpdate::TotalMemory(total_memory)),
    {
        self.total_memory = Some(total_memory);
    }

    /// Sets the free disk space.
    pub fn set_free_disk(&mut self, free_disk: u64)
        ensures
            final(self)@ == old(self)@.apply(DeviceUpdate::FreeDisk(free_disk)),
    {
        self.free_disk = Some(free_disk);
    }

    /// Sets the total disk space.
    pub fn set_total_disk(&mut self, total_disk: u64)
        ensures
            final(self)@ == old(self)@.apply(DeviceUpdate::TotalDisk(total_disk)),
    {
        self.total_disk = Some(total_disk);
    }

    /// Sets the usage of each disk, by mount point.
    pub fn set_disk_usage(&mut self, disk_usage: HashMap<String, DiskInfo>)
        ensures
            final(self)@ == old(self)@.apply(DeviceUpdate::DiskUsage(disk_usage)),
    {
        self.disk_usage = Some(disk_usage);
    }

    /// Sets the time of the description.
    pub fn set_time(&mut self, time: &str)
        ensures
            final(self)@ == old(self)@.apply(DeviceUpdate::Time(time@)),
    {
        self.time = time.to_owned();
    }
}

} // verus!
