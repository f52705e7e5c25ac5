//! Tests of the report assembler: one optional field per probe, failures
//! recorded as diagnostics without aborting the rest.

use sysreport::{Error, Os, SystemInformation, filter_successes};

fn text(s: &str) -> serde_json::Value {
    serde_json::Value::String(s.to_string())
}

#[test]
fn all_probes_succeeding_fill_every_field() {
    let (info, warnings) = SystemInformation::assemble(
        Os::Unix,
        Ok(text("app 1.2.3")),
        Ok(true),
        Ok(text("efi")),
        Ok(text("quiet splash")),
        Ok(text("i5-1235U")),
        vec![Ok(text("/dev/sda1")), Ok(text("/dev/sda2"))],
        Ok(text("MemTotal: 8")),
        Ok(false),
        Ok(text("45C")),
        Ok(120u64),
        Ok(text("PASSED")),
    );
    assert_eq!(info.os, Os::Unix);
    assert_eq!(info.application, Some(text("app 1.2.3")));
    assert_eq!(info.baytrail, Some(true));
    assert_eq!(info.efi, Some(text("efi")));
    assert_eq!(info.cmd_line, Some(text("quiet splash")));
    assert_eq!(info.cpu_info, Some(text("i5-1235U")));
    assert_eq!(info.df, vec![text("/dev/sda1"), text("/dev/sda2")]);
    assert_eq!(info.mem_info, Some(text("MemTotal: 8")));
    assert_eq!(info.root_ro, Some(false));
    assert_eq!(info.sensors, Some(text("45C")));
    assert_eq!(info.uptime, Some(120));
    assert_eq!(info.smartctl, Some(text("PASSED")));
    assert!(warnings.is_empty());
}

#[test]
fn failed_probes_leave_fields_absent_and_are_recorded_in_order() {
    let (info, warnings) = SystemInformation::assemble(
        Os::Unix,
        Ok(text("app 1.2.3")),
        Err(Error::NotFound("cpuinfo".to_string())),
        Err(Error::NotFound("efivars".to_string())),
        Ok(text("quiet splash")),
        Err(Error::MalformedStructure("cpuinfo".to_string())),
        vec![
            Ok(text("/dev/sda1")),
            Err(Error::IoFailure("unreadable disk".to_string())),
        ],
        Ok(text("MemTotal: 8")),
        Ok(true),
        Err(Error::IoFailure("sensors".to_string())),
        Ok(9u64),
        Err(Error::NotFound("smartctl".to_string())),
    );
    assert_eq!(info.application, Some(text("app 1.2.3")));
    assert_eq!(info.baytrail, None);
    assert_eq!(info.efi, None);
    assert_eq!(info.cmd_line, Some(text("quiet splash")));
    assert_eq!(info.cpu_info, None);
    assert_eq!(info.df, vec![text("/dev/sda1")]);
    assert_eq!(info.mem_info, Some(text("MemTotal: 8")));
    assert_eq!(info.root_ro, Some(true));
    assert_eq!(info.sensors, None);
    assert_eq!(info.uptime, Some(9));
    assert_eq!(info.smartctl, None);
    assert_eq!(
        warnings,
        vec![
            Error::NotFound("cpuinfo".to_string()),
            Error::NotFound("efivars".to_string()),
            Error::MalformedStructure("cpuinfo".to_string()),
            Error::IoFailure("unreadable disk".to_string()),
            Error::IoFailure("sensors".to_string()),
            Error::NotFound("smartctl".to_string()),
        ]
    );
}

#[test]
fn disk_entries_keep_their_order_and_drop_failures() {
    let (kept, skipped) = filter_successes(vec![
        Err(Error::MalformedStructure("disk0".to_string())),
        Ok(text("/dev/sda1")),
        Err(Error::IoFailure("disk2".to_string())),
        Ok(text("/dev/sdb1")),
    ]);
    assert_eq!(kept, vec![text("/dev/sda1"), text("/dev/sdb1")]);
    assert_eq!(
        skipped,
        vec![
            Error::MalformedStructure("disk0".to_string()),
            Error::IoFailure("disk2".to_string()),
        ]
    );
}

#[test]
fn no_disk_entries_yield_an_empty_list() {
    let (kept, skipped) = filter_successes(Vec::new());
    assert!(kept.is_empty());
    assert!(skipped.is_empty());
}
