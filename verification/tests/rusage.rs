use environmentd::rusage::{
    update, CpuTime, PosixTime, Reading, Resource, Rusage, Timeval, Unit, Unitless,
};

fn usage() -> Rusage {
    Rusage {
        ru_utime: PosixTime { tv_sec: 3, tv_usec: 500_000 },
        ru_stime: PosixTime { tv_sec: 0, tv_usec: 1 },
        ru_maxrss: 2,
        ru_ixrss: 3,
        ru_idrss: 4,
        ru_isrss: 5,
        ru_minflt: 6,
        ru_majflt: 7,
        ru_nswap: 8,
        ru_inblock: 9,
        ru_oublock: 10,
        ru_msgsnd: 11,
        ru_msgrcv: 12,
        ru_nsignals: 13,
        ru_nvcsw: 14,
        ru_nivcsw: 15,
    }
}

#[test]
fn times_are_added_up() {
    let reading = <Timeval as Unit>::from(PosixTime { tv_sec: 1, tv_usec: 2_000_003 });
    assert_eq!(reading, CpuTime { secs: 3, nanos: 3_000 });
    let duration = std::time::Duration::new(reading.secs, reading.nanos);
    assert_eq!(duration.as_secs_f64(), 3.000003);
}

#[test]
fn times_lose_their_sign() {
    let reading = <Timeval as Unit>::from(PosixTime { tv_sec: -1, tv_usec: -250_000 });
    assert_eq!(reading, CpuTime { secs: 1, nanos: 250_000_000 });
}

#[test]
fn extreme_times_do_not_overflow() {
    let reading = <Timeval as Unit>::from(PosixTime { tv_sec: i64::MIN, tv_usec: i64::MIN });
    assert_eq!(
        reading,
        CpuTime {
            secs: (1u64 << 63) + (1u64 << 63) / 1_000_000,
            nanos: (((1u64 << 63) % 1_000_000) * 1_000) as u32,
        }
    );
}

#[test]
fn counts_are_kept() {
    for value in [i64::MIN, -1, 0, 7, i64::MAX] {
        assert_eq!(<Unitless as Unit>::from(value), value);
    }
}

#[test]
fn failed_report_sets_no_gauge() {
    assert!(update(-1, &usage()).is_none());
}

#[test]
fn report_sets_every_gauge() {
    let readings = update(0, &usage()).unwrap();
    assert_eq!(readings.len(), 16);
    assert_eq!(
        readings[0],
        (
            Resource::Utime,
            Reading::Time(CpuTime { secs: 3, nanos: 500_000_000 })
        )
    );
    assert_eq!(
        readings[1],
        (Resource::Stime, Reading::Time(CpuTime { secs: 0, nanos: 1_000 }))
    );
    for (i, (resource, reading)) in readings.iter().enumerate().skip(2) {
        assert_eq!(*resource, Resource::all()[i]);
        assert_eq!(*reading, Reading::Count(i as i64));
        assert!(!resource.shows_time());
    }
}

#[test]
fn gauges_have_their_names() {
    assert_eq!(Resource::Utime.metric_name(), "mz_metrics_libc_ru_utime_s");
    assert_eq!(Resource::Stime.metric_name(), "mz_metrics_libc_ru_stime_s");
    assert_eq!(Resource::Maxrss.metric_name(), "mz_metrics_libc_ru_maxrss");
    assert_eq!(Resource::Nivcsw.metric_name(), "mz_metrics_libc_ru_nivcsw");
    assert_eq!(Resource::Minflt.help(), "page reclaims (soft page faults)");
    assert!(Resource::Utime.shows_time());
}

#[test]
fn gauge_names_are_distinct_and_accepted() {
    let mut names: Vec<String> = Resource::all().iter().map(|r| r.metric_name()).collect();
    for (resource, name) in Resource::all().iter().zip(names.iter()) {
        assert!(prometheus::IntGauge::new(name.as_str(), resource.help()).is_ok());
    }
    names.sort();
    names.dedup();
    assert_eq!(names.len(), 16);
}
