//! The report assembler: the aggregate system-information object, one
//! optional field per probe, filled independently of the aggregate verdict —
//! a failed probe leaves its field absent and is recorded as a diagnostic,
//! never aborting the rest.

use vstd::prelude::*;

use crate::error::Error;

verus! {

/// Operating-system family of the reporting host.
#[derive(Clone, Copy, PartialEq, Eq, Structural, Debug)]
pub enum Os {
    Unix,
    Windows,
}

/// Collected information about the local digital-signage system. Each probe
/// fills exactly one field; a field is `None` when its probe failed.
pub struct SystemInformation {
    pub os: Os,
    pub application: Option<serde_json::Value>,
    pub baytrail: Option<bool>,
    pub efi: Option<serde_json::Value>,
    pub cmd_line: Option<serde_json::Value>,
    pub cpu_info: Option<serde_json::Value>,
    pub df: Vec<serde_json::Value>,
    pub mem_info: Option<serde_json::Value>,
    pub root_ro: Option<bool>,
    pub sensors: Option<serde_json::Value>,
    pub uptime: Option<u64>,
    pub smartctl: Option<serde_json::Value>,
}

/// The successful entries of a sequence of per-entry results, in order.
pub open spec fn successes_of(s: Seq<Result<serde_json::Value, Error>>) -> Seq<serde_json::Value>
    decreases s.len(),
{
    if s.len() == 0 {
        Seq::empty()
    } else {
        successes_of(s.drop_last()) + (match s.last() {
            Result::Ok(v) => seq![v],
            Result::Err(_) => Seq::empty(),
        })
    }
}

/// The failed entries of a sequence of per-entry results, in order.
pub open spec fn failures_of(s: Seq<Result<serde_json::Value, Error>>) -> Seq<Error>
    decreases s.len(),
{
    if s.len() == 0 {
        Seq::empty()
    } else {
        failures_of(s.drop_last()) + (match s.last() {
            Result::Ok(_) => Seq::empty(),
            Result::Err(e) => seq![e],
        })
    }
}

/// Keeps the successful entries of a per-entry probe (the disk list), in
/// order, and hands the failures back: an invalid entry is skipped and
/// recorded, never fatal.
pub fn filter_successes(entries: Vec<Result<serde_json::Value, Error>>) -> (r: (
    Vec<serde_json::Value>,
    Vec<Error>,
))
    ensures
        r.0@ == successes_of(entries@),
        r.1@ == failures_of(entries@),
{
    let ghost all = entries@;
    let mut rest = entries;
    let mut kept: Vec<serde_json::Value> = Vec::new();
    let mut skipped: Vec<Error> = Vec::new();
    let ghost k: int = 0;
    while rest.len() > 0
        invariant
            0 <= k <= all.len(),
            rest@.len() == all.len() - k,
            forall|i: int| 0 <= i < rest@.len() ==> rest@[i] == all[k + i],
            kept@ == successes_of(all.take(k)),
            skipped@ == failures_of(all.take(k)),
        decreases rest@.len(),
    {
        let next = rest.remove(0);
        match next {
            Result::Ok(v) => kept.push(v),
            Result::Err(e) => skipped.push(e),
        }
        proof {
            assert(all.take(k + 1).drop_last() =~= all.take(k));
            assert(all.take(k + 1).last() == all[k]);
            assert(kept@ =~= successes_of(all.take(k + 1)));
            assert(skipped@ =~= failures_of(all.take(k + 1)));
            k = k + 1;
        }
    }
    proof {
        assert(all.take(all.len() as int) =~= all);
    }
    (kept, skipped)
}

/// The value of an optional field: the probe's value on success, absent on
/// failure.
pub open spec fn field_of<T>(r: Result<T, Error>) -> Option<T> {
    match r {
        Result::Ok(v) => Some(v),
        Result::Err(_) => None,
    }
}

/// The diagnostic an outcome contributes: its error, if it failed.
pub open spec fn warning_of<T>(r: Result<T, Error>) -> Seq<Error> {
    match r {
        Result::Ok(_) => Seq::empty(),
        Result::Err(e) => seq![e],
    }
}

impl SystemInformation {
    /// Assembles the report from each probe's already-resolved outcome: every
    /// probe fills exactly one field — its value on success, `None` (or, for
    /// the per-entry disk list, a shorter list) on failure — independent of
    /// every other probe. The failures come back alongside, in probe order,
    /// as diagnostics to be logged; they never abort the aggregate.
    pub fn assemble(
        os: Os,
        application: Result<serde_json::Value, Error>,
        baytrail: Result<bool, Error>,
        efi: Result<serde_json::Value, Error>,
        cmd_line: Result<serde_json::Value, Error>,
        cpu_info: Result<serde_json::Value, Error>,
        df: Vec<Result<serde_json::Value, Error>>,
        mem_info: Result<serde_json::Value, Error>,
        root_ro: Result<bool, Error>,
        sensors: Result<serde_json::Value, Error>,
        uptime: Result<u64, Error>,
        smartctl: Result<serde_json::Value, Error>,
    ) -> (r: (SystemInformation, Vec<Error>))
        ensures
            r.0.os == os,
            r.0.application == field_of(application),
            r.0.baytrail == field_of(baytrail),
            r.0.efi == field_of(efi),
            r.0.cmd_line == field_of(cmd_line),
            r.0.cpu_info == field_of(cpu_info),
            r.0.df@ == successes_of(df@),
            r.0.mem_info == field_of(mem_info),
            r.0.root_ro == field_of(root_ro),
            r.0.sensors == field_of(sensors),
            r.0.uptime == field_of(uptime),
            r.0.smartctl == field_of(smartctl),
            r.1@ == warning_of(application) + warning_of(baytrail) + warning_of(efi) + warning_of(
                cmd_line,
            ) + warning_of(cpu_info) + failures_of(df@) + warning_of(mem_info) + warning_of(
                root_ro,
            ) + warning_of(sensors) + warning_of(uptime) + warning_of(smartctl),
    {
        let mut warnings: Vec<Error> = Vec::new();
        let application = record(application, &mut warnings);
        let baytrail = record(baytrail, &mut warnings);
        let efi = record(efi, &mut warnings);
        let cmd_line = record(cmd_line, &mut warnings);
        let cpu_info = record(cpu_info, &mut warnings);
        let (df, mut df_errors) = filter_successes(df);
        warnings.append(&mut df_errors);
        let mem_info = record(mem_info, &mut warnings);
        let root_ro = record(root_ro, &mut warnings);
        let sensors = record(sensors, &mut warnings);
        let uptime = record(uptime, &mut warnings);
        let smartctl = record(smartctl, &mut warnings);
        let info = SystemInformation {
            os,
            application,
            baytrail,
            efi,
            cmd_line,
            cpu_info,
            df,
            mem_info,
            root_ro,
            sensors,
            uptime,
            smartctl,
        };
        (info, warnings)
    }
}

/// Records one probe's outcome: the field value on success; on failure, the
/// error is appended to the diagnostics and the field stays absent.
fn record<T>(outcome: Result<T, Error>, warnings: &mut Vec<Error>) -> (r: Option<T>)
    ensures
        r == field_of(outcome),
        final(warnings)@ == old(warnings)@ + warning_of(outcome),
{
    match outcome {
        Result::Ok(v) => {
            proof {
                assert(old(warnings)@ + warning_of::<T>(outcome) =~= old(warnings)@);
            }
            Some(v)
        },
        Result::Err(e) => {
            warnings.push(e);
            None
        },
    }
}

} // verus!
