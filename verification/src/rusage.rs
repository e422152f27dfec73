//! Report rusage metrics.

use vstd::prelude::*;

verus! {

/// A point in POSIX time, as the operating system reports it.
#[derive(Clone, Copy, Debug, PartialEq, Eq)]
pub struct PosixTime {
    pub tv_sec: i64,
    pub tv_usec: i64,
}

/// A span of time.
#[derive(Clone, Copy, Debug, PartialEq, Eq)]
pub struct CpuTime {
    pub secs: u64,
    /// The part below a second.
    pub nanos: u32,
}

/// Nanoseconds in a second.
pub const NANOS_PER_SEC: u64 = 1_000_000_000;

/// Microseconds in a second.
pub const MICROS_PER_SEC: u64 = 1_000_000;

/// Nanoseconds in a microsecond.
pub const NANOS_PER_MICRO: u64 = 1_000;

impl CpuTime {
    /// The whole span in nanoseconds.
    pub open spec fn total_nanos(self) -> nat {
        (self.secs * NANOS_PER_SEC + self.nanos) as nat
    }

    /// The part below a second is less than a second.
    pub open spec fn well_formed(self) -> bool {
        self.nanos < NANOS_PER_SEC
    }
}

/// The magnitude of an integer.
pub open spec fn magnitude(n: int) -> nat {
    if n < 0 {
        (-n) as nat
    } else {
        n as nat
    }
}

/// The distance of `n` from zero.
fn abs(n: i64) -> (result: u64)
    ensures
        result == magnitude(n as int),
        result <= 0x8000_0000_0000_0000,
{
    if n < 0 {
        (-(n + 1)) as u64 + 1
    } else {
        n as u64
    }
}

/// How a value that POSIX reports becomes a reading of a gauge.
pub trait Unit {
    /// The type of the reported value.
    type Raw;

    /// The type of the reading.
    type Reading;

    /// Whether the reading is the one for the reported value.
    spec fn reads(raw: Self::Raw, reading: Self::Reading) -> bool;

    /// Converts a reported value.
    fn from(value: Self::Raw) -> (reading: Self::Reading)
        ensures
            Self::reads(value, reading),
    ;
}

/// Unit for converting POSIX times.
pub struct Timeval;

impl Unit for Timeval {
    type Raw = PosixTime;

    type Reading = CpuTime;

    /// The reading is as long as the seconds and the microseconds together, each
    /// taken without its sign.
    open spec fn reads(raw: PosixTime, reading: CpuTime) -> bool {
        &&& reading.well_formed()
        &&& reading.total_nanos() == magnitude(raw.tv_sec as int) * NANOS_PER_SEC + magnitude(
            raw.tv_usec as int,
        ) * NANOS_PER_MICRO
    }

    fn from(value: PosixTime) -> (reading: CpuTime) {
        // A POSIX time can be negative; it would be surprising to see one here.
        let secs: u64 = abs(value.tv_sec);
        let micros: u64 = abs(value.tv_usec);
        CpuTime {
            secs: secs + micros / MICROS_PER_SEC,
            nanos: ((micros % MICROS_PER_SEC) * NANOS_PER_MICRO) as u32,
        }
    }
}

/// Unit for values that are taken as they are.
pub struct Unitless;

impl Unit for Unitless {
    type Raw = i64;

    type Reading = i64;

    open spec fn reads(raw: i64, reading: i64) -> bool {
        reading == raw
    }

    fn from(value: i64) -> (reading: i64) {
        value
    }
}

/// What the operating system reports of the resources that a process has used.
#[derive(Clone, Copy, Debug, PartialEq, Eq)]
pub struct Rusage {
    pub ru_utime: PosixTime,
    pub ru_stime: PosixTime,
    pub ru_maxrss: i64,
    pub ru_ixrss: i64,
    pub ru_idrss: i64,
    pub ru_isrss: i64,
    pub ru_minflt: i64,
    pub ru_majflt: i64,
    pub ru_nswap: i64,
    pub ru_inblock: i64,
    pub ru_oublock: i64,
    pub ru_msgsnd: i64,
    pub ru_msgrcv: i64,
    pub ru_nsignals: i64,
    pub ru_nvcsw: i64,
    pub ru_nivcsw: i64,
}

/// One of the reported resources.
#[derive(Clone, Copy, Debug, PartialEq, Eq)]
pub enum Resource {
    Utime,
    Stime,
    Maxrss,
    Ixrss,
    Idrss,
    Isrss,
    Minflt,
    Majflt,
    Nswap,
    Inblock,
    Oublock,
    Msgsnd,
    Msgrcv,
    Nsignals,
    Nvcsw,
    Nivcsw,
}

/// A reading of a gauge.
#[derive(Clone, Copy, Debug, PartialEq, Eq)]
pub enum Reading {
    /// For a gauge that shows seconds.
    Time(CpuTime),
    /// For a gauge that shows a number.
    Count(i64),
}

/// All resources, in the order in which they are reported.
pub open spec fn resources() -> Seq<Resource> {
    seq![
        Resource::Utime,
        Resource::Stime,
        Resource::Maxrss,
        Resource::Ixrss,
        Resource::Idrss,
        Resource::Isrss,
        Resource::Minflt,
        Resource::Majflt,
        Resource::Nswap,
        Resource::Inblock,
        Resource::Oublock,
        Resource::Msgsnd,
        Resource::Msgrcv,
        Resource::Nsignals,
        Resource::Nvcsw,
        Resource::Nivcsw,
    ]
}

impl Resource {
    /// The field of `Rusage` that reports the resource, by name.
    pub open spec fn field(self) -> Seq<char> {
        match self {
            Resource::Utime => "ru_utime"@,
            Resource::Stime => "ru_stime"@,
            Resource::Maxrss => "ru_maxrss"@,
            Resource::Ixrss => "ru_ixrss"@,
            Resource::Idrss => "ru_idrss"@,
            Resource::Isrss => "ru_isrss"@,
            Resource::Minflt => "ru_minflt"@,
            Resource::Majflt => "ru_majflt"@,
            Resource::Nswap => "ru_nswap"@,
            Resource::Inblock => "ru_inblock"@,
            Resource::Oublock => "ru_oublock"@,
            Resource::Msgsnd => "ru_msgsnd"@,
            Resource::Msgrcv => "ru_msgrcv"@,
            Resource::Nsignals => "ru_nsignals"@,
            Resource::Nvcsw => "ru_nvcsw"@,
            Resource::Nivcsw => "ru_nivcsw"@,
        }
    }

    /// What the resource is.
    pub open spec fn description(self) -> Seq<char> {
        match self {
            Resource::Utime => "user CPU time used"@,
            Resource::Stime => "system CPU time used"@,
            Resource::Maxrss => "maximum resident set size"@,
            Resource::Ixrss => "integral shared memory size"@,
            Resource::Idrss => "integral unshared data size"@,
            Resource::Isrss => "integral unshared stack size"@,
            Resource::Minflt => "page reclaims (soft page faults)"@,
            Resource::Majflt => "page faults (hard page faults)"@,
            Resource::Nswap => "swaps"@,
            Resource::Inblock => "block input operations"@,
            Resource::Oublock => "block output operations"@,
            Resource::Msgsnd => "IPC messages sent"@,
            Resource::Msgrcv => "IPC messages received"@,
            Resource::Nsignals => "signals received"@,
            Resource::Nvcsw => "voluntary context switches"@,
            Resource::Nivcsw => "involuntary context switches"@,
        }
    }

    /// Whether the resource is a time, as opposed to a count.
    pub open spec fn is_time(self) -> bool {
        self is Utime || self is Stime
    }

    /// The name of the gauge that shows the resource. Where it is a time, the name
    /// says that the gauge shows seconds.
    pub open spec fn metric(self) -> Seq<char> {
        "mz_metrics_libc"@ + "_"@ + self.field() + (if self.is_time() {
            "_s"@
        } else {
            ""@
        })
    }

    fn field_text(&self) -> (text: &'static str)
        ensures
            text@ == self.field(),
    {
        match self {
            Resource::Utime => "ru_utime",
            Resource::Stime => "ru_stime",
            Resource::Maxrss => "ru_maxrss",
            Resource::Ixrss => "ru_ixrss",
            Resource::Idrss => "ru_idrss",
            Resource::Isrss => "ru_isrss",
            Resource::Minflt => "ru_minflt",
            Resource::Majflt => "ru_majflt",
            Resource::Nswap => "ru_nswap",
            Resource::Inblock => "ru_inblock",
            Resource::Oublock => "ru_oublock",
            Resource::Msgsnd => "ru_msgsnd",
            Resource::Msgrcv => "ru_msgrcv",
            Resource::Nsignals => "ru_nsignals",
            Resource::Nvcsw => "ru_nvcsw",
            Resource::Nivcsw => "ru_nivcsw",
        }
    }

    /// The help text of the gauge that shows the resource.
    pub fn help(&self) -> (text: &'static str)
        ensures
            text@ == self.description(),
    {
        match self {
            Resource::Utime => "user CPU time used",
            Resource::Stime => "system CPU time used",
            Resource::Maxrss => "maximum resident set size",
            Resource::Ixrss => "integral shared memory size",
            Resource::Idrss => "integral unshared data size",
            Resource::Isrss => "integral unshared stack size",
            Resource::Minflt => "page reclaims (soft page faults)",
            Resource::Majflt => "page faults (hard page faults)",
            Resource::Nswap => "swaps",
            Resource::Inblock => "block input operations",
            Resource::Oublock => "block output operations",
            Resource::Msgsnd => "IPC messages sent",
            Resource::Msgrcv => "IPC messages received",
            Resource::Nsignals => "signals received",
            Resource::Nvcsw => "voluntary context switches",
            Resource::Nivcsw => "involuntary context switches",
        }
    }

    /// Whether the gauge that shows the resource shows seconds.
    pub fn shows_time(&self) -> (result: bool)
        ensures
            result == self.is_time(),
    {
        match self {
            Resource::Utime | Resource::Stime => true,
            _ => false,
        }
    }

    /// The name of the gauge that shows the resource.
    pub fn metric_name(&self) -> (name: String)
        ensures
            name@ == self.metric(),
    {
        let suffix = if self.shows_time() {
            "_s"
        } else {
            ""
        };
        "mz_metrics_libc".to_owned().concat("_").concat(self.field_text()).concat(suffix)
    }

    /// All resources, in the order in which they are reported.
    pub fn all() -> (all: Vec<Resource>)
        ensures
            all@ == resources(),
    {
        vec![
            Resource::Utime,
            Resource::Stime,
            Resource::Maxrss,
            Resource::Ixrss,
            Resource::Idrss,
            Resource::Isrss,
            Resource::Minflt,
            Resource::Majflt,
            Resource::Nswap,
            Resource::Inblock,
            Resource::Oublock,
            Resource::Msgsnd,
            Resource::Msgrcv,
            Resource::Nsignals,
            Resource::Nvcsw,
            Resource::Nivcsw,
        ]
    }
}

impl Rusage {
    /// Whether `reading` is what this report says of the resource.
    pub open spec fn reports(self, resource: Resource, reading: Reading) -> bool {
        match resource {
            Resource::Utime => reading is Time && Timeval::reads(self.ru_utime, reading->Time_0),
            Resource::Stime => reading is Time && Timeval::reads(self.ru_stime, reading->Time_0),
            Resource::Maxrss => reading == Reading::Count(self.ru_maxrss),
            Resource::Ixrss => reading == Reading::Count(self.ru_ixrss),
            Resource::Idrss => reading == Reading::Count(self.ru_idrss),
            Resource::Isrss => reading == Reading::Count(self.ru_isrss),
            Resource::Minflt => reading == Reading::Count(self.ru_minflt),
            Resource::Majflt => reading == Reading::Count(self.ru_majflt),
            Resource::Nswap => reading == Reading::Count(self.ru_nswap),
            Resource::Inblock => reading == Reading::Count(self.ru_inblock),
            Resource::Oublock => reading == Reading::Count(self.ru_oublock),
            Resource::Msgsnd => reading == Reading::Count(self.ru_msgsnd),
            Resource::Msgrcv => reading == Reading::Count(self.ru_msgrcv),
            Resource::Nsignals => reading == Reading::Count(self.ru_nsignals),
            Resource::Nvcsw => reading == Reading::Count(self.ru_nvcsw),
            Resource::Nivcsw => reading == Reading::Count(self.ru_nivcsw),
        }
    }

    /// The reading for one resource.
    pub fn reading(&self, resource: Resource) -> (reading: Reading)
        ensures
            self.reports(resource, reading),
    {
        match resource {
            Resource::Utime => Reading::Time(<Timeval as Unit>::from(self.ru_utime)),
            Resource::Stime => Reading::Time(<Timeval as Unit>::from(self.ru_stime)),
            Resource::Maxrss => Reading::Count(<Unitless as Unit>::from(self.ru_maxrss)),
            Resource::Ixrss => Reading::Count(<Unitless as Unit>::from(self.ru_ixrss)),
            Resource::Idrss => Reading::Count(<Unitless as Unit>::from(self.ru_idrss)),
            Resource::Isrss => Reading::Count(<Unitless as Unit>::from(self.ru_isrss)),
            Resource::Minflt => Reading::Count(<Unitless as Unit>::from(self.ru_minflt)),
            Resource::Majflt => Reading::Count(<Unitless as Unit>::from(self.ru_majflt)),
            Resource::Nswap => Reading::Count(<Unitless as Unit>::from(self.ru_nswap)),
            Resource::Inblock => Reading::Count(<Unitless as Unit>::from(self.ru_inblock)),
            Resource::Oublock => Reading::Count(<Unitless as Unit>::from(self.ru_oublock)),
            Resource::Msgsnd => Reading::Count(<Unitless as Unit>::from(self.ru_msgsnd)),
            Resource::Msgrcv => Reading::Count(<Unitless as Unit>::from(self.ru_msgrcv)),
            Resource::Nsignals => Reading::Count(<Unitless as Unit>::from(self.ru_nsignals)),
            Resource::Nvcsw => Reading::Count(<Unitless as Unit>::from(self.ru_nvcsw)),
            Resource::Nivcsw => Reading::Count(<Unitless as Unit>::from(self.ru_nivcsw)),
        }
    }
}

/// The gauges to set, given the status and the report of the operating system. A
/// negative status means that there is no report, and no gauge is set.
pub fn update(status: i32, usage: &Rusage) -> (readings: Option<Vec<(Resource, Reading)>>)
    ensures
        readings is None <==> status < 0,
        readings matches Some(readings) ==> {
            &&& readings@.len() == resources().len()
            &&& forall|i: int|
                0 <= i < readings@.len() ==> {
                    &&& (#[trigger] readings@[i]).0 == resources()[i]
                    &&& usage.reports(readings@[i].0, readings@[i].1)
                }
        },
{
    if status < 0 {
        return None;
    }
    let all = Resource::all();
    let mut readings: Vec<(Resource, Reading)> = Vec::new();
    for i in 0..all.len()
        invariant
            all@ == resources(),
            readings@.len() == i,
            forall|j: int|
                0 <= j < i ==> {
                    &&& (#[trigger] readings@[j]).0 == resources()[j]
                    &&& usage.reports(readings@[j].0, readings@[j].1)
                },
    {
        readings.push((all[i], usage.reading(all[i])));
    }
    Some(readings)
}

/// A reported time has one reading only.
pub proof fn time_reading_is_unique(raw: PosixTime, reading1: CpuTime, reading2: CpuTime)
    requires
        Timeval::reads(raw, reading1),
        Timeval::reads(raw, reading2),
    ensures
        reading1 == reading2,
{
}

/// Every resource is reported, and none is reported twice.
pub proof fn resources_are_complete(resource: Resource)
    ensures
        resources().contains(resource),
        resources().no_duplicates(),
{
    let i: int = match resource {
        Resource::Utime => 0,
        Resource::Stime => 1,
        Resource::Maxrss => 2,
        Resource::Ixrss => 3,
        Resource::Idrss => 4,
        Resource::Isrss => 5,
        Resource::Minflt => 6,
        Resource::Majflt => 7,
        Resource::Nswap => 8,
        Resource::Inblock => 9,
        Resource::Oublock => 10,
        Resource::Msgsnd => 11,
        Resource::Msgrcv => 12,
        Resource::Nsignals => 13,
        Resource::Nvcsw => 14,
        Resource::Nivcsw => 15,
    };
    assert(resources()[i] == resource);
}

/// `true` if Prometheus takes `c` in the name of a metric, at its start or later.
pub open spec fn is_name_char(c: char, first: bool) -> bool {
    ||| 'a' <= c <= 'z'
    ||| 'A' <= c <= 'Z'
    ||| c == '_'
    ||| c == ':'
    ||| !first && '0' <= c <= '9'
}

/// `true` if Prometheus takes `name` as the name of a metric.
pub open spec fn is_metric_name(name: Seq<char>) -> bool {
    &&& name.len() > 0
    &&& forall|i: int| 0 <= i < name.len() ==> is_name_char(#[trigger] name[i], i == 0)
}

proof fn field_is_name(resource: Resource)
    ensures
        resource.field().len() > 6,
        forall|i: int|
            0 <= i < resource.field().len() ==> is_name_char(
                #[trigger] resource.field()[i],
                false,
            ),
{
    reveal_strlit("ru_utime");
    reveal_strlit("ru_stime");
    reveal_strlit("ru_maxrss");
    reveal_strlit("ru_ixrss");
    reveal_strlit("ru_idrss");
    reveal_strlit("ru_isrss");
    reveal_strlit("ru_minflt");
    reveal_strlit("ru_majflt");
    reveal_strlit("ru_nswap");
    reveal_strlit("ru_inblock");
    reveal_strlit("ru_oublock");
    reveal_strlit("ru_msgsnd");
    reveal_strlit("ru_msgrcv");
    reveal_strlit("ru_nsignals");
    reveal_strlit("ru_nvcsw");
    reveal_strlit("ru_nivcsw");
}

/// Prometheus takes the name of every gauge.
pub proof fn metric_names_are_valid(resource: Resource)
    ensures
        is_metric_name(resource.metric()),
{
    reveal_strlit("mz_metrics_libc");
    reveal_strlit("_");
    reveal_strlit("_s");
    reveal_strlit("");
    field_is_name(resource);
}

/// Characters that tell the fields apart, together with the length.
spec fn key(name: Seq<char>) -> (nat, char, char, char, char) {
    (name.len(), name[3], name[4], name[5], name[6])
}

proof fn field_key(resource: Resource)
    ensures
        key(resource.field()) == match resource {
            Resource::Utime => (8nat, 'u', 't', 'i', 'm'),
            Resource::Stime => (8nat, 's', 't', 'i', 'm'),
            Resource::Maxrss => (9nat, 'm', 'a', 'x', 'r'),
            Resource::Ixrss => (8nat, 'i', 'x', 'r', 's'),
            Resource::Idrss => (8nat, 'i', 'd', 'r', 's'),
            Resource::Isrss => (8nat, 'i', 's', 'r', 's'),
            Resource::Minflt => (9nat, 'm', 'i', 'n', 'f'),
            Resource::Majflt => (9nat, 'm', 'a', 'j', 'f'),
            Resource::Nswap => (8nat, 'n', 's', 'w', 'a'),
            Resource::Inblock => (10nat, 'i', 'n', 'b', 'l'),
            Resource::Oublock => (10nat, 'o', 'u', 'b', 'l'),
            Resource::Msgsnd => (9nat, 'm', 's', 'g', 's'),
            Resource::Msgrcv => (9nat, 'm', 's', 'g', 'r'),
            Resource::Nsignals => (11nat, 'n', 's', 'i', 'g'),
            Resource::Nvcsw => (8nat, 'n', 'v', 'c', 's'),
            Resource::Nivcsw => (9nat, 'n', 'i', 'v', 'c'),
        },
{
    reveal_strlit("ru_utime");
    reveal_strlit("ru_stime");
    reveal_strlit("ru_maxrss");
    reveal_strlit("ru_ixrss");
    reveal_strlit("ru_idrss");
    reveal_strlit("ru_isrss");
    reveal_strlit("ru_minflt");
    reveal_strlit("ru_majflt");
    reveal_strlit("ru_nswap");
    reveal_strlit("ru_inblock");
    reveal_strlit("ru_oublock");
    reveal_strlit("ru_msgsnd");
    reveal_strlit("ru_msgrcv");
    reveal_strlit("ru_nsignals");
    reveal_strlit("ru_nvcsw");
    reveal_strlit("ru_nivcsw");
}

/// Different resources are shown by gauges of different names.
pub proof fn metric_names_are_distinct(resource1: Resource, resource2: Resource)
    requires
        resource1.metric() == resource2.metric(),
    ensures
        resource1 == resource2,
{
    reveal_strlit("_s");
    reveal_strlit("");
    field_is_name(resource1);
    field_is_name(resource2);
    field_key(resource1);
    field_key(resource2);
    let prefix = "mz_metrics_libc"@ + "_"@;
    let n = prefix.len() as int;
    let rest1 = resource1.metric().skip(n);
    let rest2 = resource2.metric().skip(n);
    assert(forall|i: int| 0 <= i < resource1.field().len() ==> rest1[i] == resource1.field()[i]);
    assert(forall|i: int| 0 <= i < resource2.field().len() ==> rest2[i] == resource2.field()[i]);
    assert(rest1[3] == resource1.field()[3] && rest2[3] == resource2.field()[3]);
    assert(rest1[4] == resource1.field()[4] && rest2[4] == resource2.field()[4]);
    assert(rest1[5] == resource1.field()[5] && rest2[5] == resource2.field()[5]);
    assert(rest1[6] == resource1.field()[6] && rest2[6] == resource2.field()[6]);
}

/// Whether `reading` is a time as long as the seconds and the microseconds of `time`
/// together, whatever their signs.
pub open spec fn shows_seconds(time: PosixTime, reading: Reading) -> bool {
    let secs: int = if time.tv_sec < 0 { -time.tv_sec } else { time.tv_sec as int };
    let micros: int = if time.tv_usec < 0 { -time.tv_usec } else { time.tv_usec as int };
    &&& reading is Time
    &&& reading->Time_0.nanos < 1_000_000_000
    &&& 1_000_000_000 * reading->Time_0.secs + reading->Time_0.nanos == 1_000_000_000 * secs + 1_000
        * micros
}

/// Every gauge has the name of a field of the report, shows what that field holds, and
/// has the help text for it.
pub proof fn gauges_show_their_fields(usage: Rusage, resource: Resource, reading: Reading)
    requires
        usage.reports(resource, reading),
    ensures
        ({
            let name = resource.metric();
            let help = resource.description();
            ||| name == "mz_metrics_libc_ru_utime_s"@ && help == "user CPU time used"@ && shows_seconds(usage.ru_utime, reading)
            ||| name == "mz_metrics_libc_ru_stime_s"@ && help == "system CPU time used"@ && shows_seconds(usage.ru_stime, reading)
            ||| name == "mz_metrics_libc_ru_maxrss"@ && help == "maximum resident set size"@ && reading == Reading::Count(usage.ru_maxrss)
            ||| name == "mz_metrics_libc_ru_ixrss"@ && help == "integral shared memory size"@ && reading == Reading::Count(usage.ru_ixrss)
            ||| name == "mz_metrics_libc_ru_idrss"@ && help == "integral unshared data size"@ && reading == Reading::Count(usage.ru_idrss)
            ||| name == "mz_metrics_libc_ru_isrss"@ && help == "integral unshared stack size"@ && reading == Reading::Count(usage.ru_isrss)
            ||| name == "mz_metrics_libc_ru_minflt"@ && help == "page reclaims (soft page faults)"@ && reading == Reading::Count(usage.ru_minflt)
            ||| name == "mz_metrics_libc_ru_majflt"@ && help == "page faults (hard page faults)"@ && reading == Reading::Count(usage.ru_majflt)
            ||| name == "mz_metrics_libc_ru_nswap"@ && help == "swaps"@ && reading == Reading::Count(usage.ru_nswap)
            ||| name == "mz_metrics_libc_ru_inblock"@ && help == "block input operations"@ && reading == Reading::Count(usage.ru_inblock)
            ||| name == "mz_metrics_libc_ru_oublock"@ && help == "block output operations"@ && reading == Reading::Count(usage.ru_oublock)
            ||| name == "mz_metrics_libc_ru_msgsnd"@ && help == "IPC messages sent"@ && reading == Reading::Count(usage.ru_msgsnd)
            ||| name == "mz_metrics_libc_ru_msgrcv"@ && help == "IPC messages received"@ && reading == Reading::Count(usage.ru_msgrcv)
            ||| name == "mz_metrics_libc_ru_nsignals"@ && help == "signals received"@ && reading == Reading::Count(usage.ru_nsignals)
            ||| name == "mz_metrics_libc_ru_nvcsw"@ && help == "voluntary context switches"@ && reading == Reading::Count(usage.ru_nvcsw)
            ||| name == "mz_metrics_libc_ru_nivcsw"@ && help == "involuntary context switches"@ && reading == Reading::Count(usage.ru_nivcsw)
        }),
        resource.is_time() <==> reading is Time,
{
    reveal_strlit("mz_metrics_libc");
    reveal_strlit("_");
    reveal_strlit("_s");
    reveal_strlit("");
    match resource {
        Resource::Utime => {
            reveal_strlit("ru_utime");
            reveal_strlit("mz_metrics_libc_ru_utime_s");
            assert(resource.metric() =~= "mz_metrics_libc_ru_utime_s"@);
        },
        Resource::Stime => {
            reveal_strlit("ru_stime");
            reveal_strlit("mz_metrics_libc_ru_stime_s");
            assert(resource.metric() =~= "mz_metrics_libc_ru_stime_s"@);
        },
        Resource::Maxrss => {
            reveal_strlit("ru_maxrss");
            reveal_strlit("mz_metrics_libc_ru_maxrss");
            assert(resource.metric() =~= "mz_metrics_libc_ru_maxrss"@);
        },
        Resource::Ixrss => {
            reveal_strlit("ru_ixrss");
            reveal_strlit("mz_metrics_libc_ru_ixrss");
            assert(resource.metric() =~= "mz_metrics_libc_ru_ixrss"@);
        },
        Resource::Idrss => {
            reveal_strlit("ru_idrss");
            reveal_strlit("mz_metrics_libc_ru_idrss");
            assert(resource.metric() =~= "mz_metrics_libc_ru_idrss"@);
        },
        Resource::Isrss => {
            reveal_strlit("ru_isrss");
            reveal_strlit("mz_metrics_libc_ru_isrss");
            assert(resource.metric() =~= "mz_metrics_libc_ru_isrss"@);
        },
        Resource::Minflt => {
            reveal_strlit("ru_minflt");
            reveal_strlit("mz_metrics_libc_ru_minflt");
            assert(resource.metric() =~= "mz_metrics_libc_ru_minflt"@);
        },
        Resource::Majflt => {
            reveal_strlit("ru_majflt");
            reveal_strlit("mz_metrics_libc_ru_majflt");
            assert(resource.metric() =~= "mz_metrics_libc_ru_majflt"@);
        },
        Resource::Nswap => {
            reveal_strlit("ru_nswap");
            reveal_strlit("mz_metrics_libc_ru_nswap");
            assert(resource.metric() =~= "mz_metrics_libc_ru_nswap"@);
        },
        Resource::Inblock => {
            reveal_strlit("ru_inblock");
            reveal_strlit("mz_metrics_libc_ru_inblock");
            assert(resource.metric() =~= "mz_metrics_libc_ru_inblock"@);
        },
        Resource::Oublock => {
            reveal_strlit("ru_oublock");
            reveal_strlit("mz_metrics_libc_ru_oublock");
            assert(resource.metric() =~= "mz_metrics_libc_ru_oublock"@);
        },
        Resource::Msgsnd => {
            reveal_strlit("ru_msgsnd");
            reveal_strlit("mz_metrics_libc_ru_msgsnd");
            assert(resource.metric() =~= "mz_metrics_libc_ru_msgsnd"@);
        },
        Resource::Msgrcv => {
            reveal_strlit("ru_msgrcv");
            reveal_strlit("mz_metrics_libc_ru_msgrcv");
            assert(resource.metric() =~= "mz_metrics_libc_ru_msgrcv"@);
        },
        Resource::Nsignals => {
            reveal_strlit("ru_nsignals");
            reveal_strlit("mz_metrics_libc_ru_nsignals");
            assert(resource.metric() =~= "mz_metrics_libc_ru_nsignals"@);
        },
        Resource::Nvcsw => {
            reveal_strlit("ru_nvcsw");
            reveal_strlit("mz_metrics_libc_ru_nvcsw");
            assert(resource.metric() =~= "mz_metrics_libc_ru_nvcsw"@);
        },
        Resource::Nivcsw => {
            reveal_strlit("ru_nivcsw");
            reveal_strlit("mz_metrics_libc_ru_nivcsw");
            assert(resource.metric() =~= "mz_metrics_libc_ru_nivcsw"@);
        },
    }
}

} // verus!
