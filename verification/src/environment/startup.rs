//! Starting up: worker threads, versions, metrics and what is printed.

use crate::outside::{logical_cpus, physical_cpus};
use crate::text::{decimal, decimal_len, decimal_text};
use vstd::math::{max, min};
use vstd::prelude::*;

verus! {

/// How many CPUs are of use to worker threads: no more than this process may use,
/// nor more than there are cores, but at least one.
pub fn useful_cpus(logical: usize, physical: usize) -> (count: usize)
    ensures
        count == max(1, min(logical as int, physical as int)),
{
    let least: usize = if logical < physical {
        logical
    } else {
        physical
    };
    if least < 1 {
        1
    } else {
        least
    }
}

/// How many worker threads to run on this machine.
pub fn worker_threads() -> (count: usize)
    ensures
        count >= 1,
{
    useful_cpus(logical_cpus(), physical_cpus())
}

/// The name of the worker thread with the given number.
pub fn thread_name(id: usize) -> (name: String)
    ensures
        name@ == "tokio:work-"@ + decimal(id as nat),
{
    "tokio:work-".to_owned().concat(decimal_text(id as u64).as_str())
}

/// Linux takes names of at most fifteen characters for threads. The names of the
/// first ten thousand worker threads are within that.
pub proof fn thread_names_are_short(id: nat)
    requires
        id < 10_000,
    ensures
        ("tokio:work-"@ + decimal(id)).len() <= 15,
{
    reveal_strlit("tokio:work-");
    reveal_with_fuel(vstd::arithmetic::power::pow, 5);
    decimal_len(id, 4);
}

/// What identifies the libraries that are linked in.
pub fn build_info(openssl_version: String, rdkafka_version: &str) -> (info: Vec<String>)
    ensures
        info.deep_view() == seq![openssl_version@, "librdkafka v"@ + rdkafka_version@],
{
    let info = vec![openssl_version, "librdkafka v".to_owned().concat(rdkafka_version)];
    assert(info.deep_view() == seq![openssl_version@, "librdkafka v"@ + rdkafka_version@]);
    info
}

/// `text` and then each of the lines, on lines of their own.
pub open spec fn with_lines(text: Seq<char>, lines: Seq<Seq<char>>) -> Seq<char>
    decreases lines.len(),
{
    if lines.len() == 0 {
        text
    } else {
        with_lines(text + "\n"@ + lines[0], lines.skip(1))
    }
}

/// The version of this program, in one line, and of what it was built with.
pub fn long_version(human_version: String, build_info: &Vec<String>) -> (version: String)
    ensures
        version@ == with_lines(human_version@, build_info.deep_view()),
{
    let mut version = human_version;
    let ghost lines = build_info.deep_view();
    assert(lines.skip(0) == lines);
    for i in 0..build_info.len()
        invariant
            lines == build_info.deep_view(),
            with_lines(version@, lines.skip(i as int)) == with_lines(human_version@, lines),
    {
        version.append("\n");
        version.append(build_info[i].as_str());
        assert(lines.skip(i as int).skip(1) == lines.skip(i + 1));
    }
    version
}

/// A metric to register.
#[derive(Clone, Copy, Debug, PartialEq, Eq)]
pub struct MetricDefinition {
    pub name: &'static str,
    pub help: &'static str,
}

/// The metrics of this program.
pub struct Metrics;

impl Metrics {
    /// How long it took to start up.
    pub fn start_time_environmentd() -> (metric: MetricDefinition)
        ensures
            metric.name@ == "mz_start_time_environmentd"@,
            metric.help@
                == "Time in milliseconds from environmentd start until the adapter is ready."@,
    {
        MetricDefinition {
            name: "mz_start_time_environmentd",
            help: "Time in milliseconds from environmentd start until the adapter is ready.",
        }
    }

    /// The value of that metric for a number of milliseconds.
    pub fn start_time_value(millis: u128) -> (value: i64)
        requires
            millis <= i64::MAX,
        ensures
            value == millis,
    {
        millis as i64
    }
}

/// Where the servers listen, as text.
pub struct ServerAddresses {
    pub sql: String,
    pub http: String,
    pub internal_sql: String,
    pub internal_http: String,
}

/// What is printed once the servers listen, line by line.
pub open spec fn banner_spec(
    version: Seq<char>,
    addresses: ServerAddresses,
    trace_id: Seq<char>,
) -> Seq<Seq<char>> {
    seq![
        "environmentd "@ + version + " listening..."@,
        " SQL address: "@ + addresses.sql@,
        " HTTP address: "@ + addresses.http@,
        " Internal SQL address: "@ + addresses.internal_sql@,
        " Internal HTTP address: "@ + addresses.internal_http@,
        " Root trace ID: "@ + trace_id,
    ]
}

/// What to print once the servers listen, line by line.
pub fn banner(version: &str, addresses: &ServerAddresses, trace_id: &str) -> (lines: Vec<String>)
    ensures
        lines.deep_view() == banner_spec(version@, *addresses, trace_id@),
{
    let lines = vec![
        "environmentd ".to_owned().concat(version).concat(" listening..."),
        " SQL address: ".to_owned().concat(addresses.sql.as_str()),
        " HTTP address: ".to_owned().concat(addresses.http.as_str()),
        " Internal SQL address: ".to_owned().concat(addresses.internal_sql.as_str()),
        " Internal HTTP address: ".to_owned().concat(addresses.internal_http.as_str()),
        " Root trace ID: ".to_owned().concat(trace_id),
    ];
    assert(lines.deep_view() == banner_spec(version@, *addresses, trace_id@));
    lines
}

} // verus!
