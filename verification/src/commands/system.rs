//! System status: how the bot reports the host's uptime.

use crate::util::{
    decimal,
    format_u64,
    push_str,
    string_from_chars,
};
use vstd::prelude::*;

verus! {

/// One part of an uptime, such as ` 3 hours`: empty when `n` is zero; else a
/// space unless it comes first, `n`, the unit, and `s` when `n` is above one.
pub open spec fn uptime_part(n: nat, unit: Seq<char>, first: bool) -> Seq<char> {
    if n == 0 {
        Seq::empty()
    } else {
        (if first {
            Seq::empty()
        } else {
            seq![' ']
        }) + decimal(n) + seq![' '] + unit + if n > 1 {
            seq!['s']
        } else {
            Seq::empty()
        }
    }
}

/// An uptime of `secs` seconds in words: days, hours, minutes and seconds,
/// leaving out the parts that are zero.
pub open spec fn uptime_text(secs: nat) -> Seq<char> {
    let days = secs / 86400;
    let hours = (secs % 86400) / 3600;
    let minutes = (secs % 3600) / 60;
    let seconds = secs % 60;
    uptime_part(days, "day"@, true) + uptime_part(hours, "hour"@, false) + uptime_part(
        minutes,
        "minute"@,
        false,
    ) + uptime_part(seconds, "second"@, false)
}

fn push_part(out: &mut Vec<char>, n: u64, unit: &str, first: bool)
    ensures
        final(out)@ == old(out)@ + uptime_part(n as nat, unit@, first),
{
    if n != 0 {
        let ghost before = out@;
        if !first {
            out.push(' ');
        }
        let digits = format_u64(n);
        push_str(out, digits.as_str());
        out.push(' ');
        push_str(out, unit);
        if n > 1 {
            out.push('s');
        }
        assert(out@ =~= before + uptime_part(n as nat, unit@, first));
    } else {
        assert(out@ =~= old(out)@ + uptime_part(n as nat, unit@, first));
    }
}

/// Describe an uptime of `raw_secs` seconds, such as `1 day 2 hours 5 seconds`.
pub fn format_uptime(raw_secs: u64) -> (res: String)
    ensures
        res@ == uptime_text(raw_secs as nat),
{
    let days = raw_secs / (60 * 60 * 24);
    let hours = (raw_secs % (60 * 60 * 24)) / (60 * 60);
    let minutes = (raw_secs % (60 * 60)) / 60;
    let seconds = raw_secs % 60;
    let mut out: Vec<char> = Vec::new();
    push_part(&mut out, days, "day", true);
    push_part(&mut out, hours, "hour", false);
    push_part(&mut out, minutes, "minute", false);
    push_part(&mut out, seconds, "second", false);
    string_from_chars(&out)
}

/// The CPU frequencies, already written out.
#[derive(Debug, Clone)]
pub struct CpuFrequencyText {
    pub current: String,
    pub min: Option<String>,
    pub max: Option<String>,
}

/// What was learned of the host. Each part is `None` where it could not be
/// read; values with fractions come already written out.
#[derive(Debug, Clone)]
pub struct SystemReport {
    pub hostname: Option<String>,
    pub system_name: Option<String>,
    pub system_version: Option<String>,
    /// `Some(None)` where the architecture was read but is not known.
    pub architecture: Option<Option<String>>,
    pub boot_time: Option<String>,
    pub uptime_secs: Option<u64>,
    pub cpu_frequency: Option<CpuFrequencyText>,
    pub cpu_logical_count: Option<u64>,
    pub cpu_physical_count: Option<u64>,
    pub memory_usage: Option<String>,
    pub swap_usage: Option<String>,
    pub virtualization: Option<String>,
    pub cpu_usage: Option<String>,
    pub cpu_temp: Option<String>,
}

/// A field named `name` whose value is `value`, if there is one.
pub open spec fn opt_field(name: Seq<char>, value: Option<String>) -> Seq<(Seq<char>, Seq<char>)> {
    match value {
        Some(v) => seq![(name, v@)],
        None => Seq::empty(),
    }
}

/// The text of the core count: the logical and the physical count, each
/// where it is known.
pub open spec fn core_count_text(logical: Option<u64>, physical: Option<u64>) -> Option<Seq<char>> {
    match (logical, physical) {
        (Some(l), Some(p)) => Some(decimal(l as nat) + " logical, "@ + decimal(p as nat) + " physical"@),
        (Some(l), None) => Some(decimal(l as nat) + " logical"@),
        (None, Some(p)) => Some(decimal(p as nat) + " physical"@),
        (None, None) => None,
    }
}

/// The fields that name the host: its name, system, version, architecture,
/// boot time and uptime.
pub open spec fn host_fields(r: SystemReport) -> Seq<(Seq<char>, Seq<char>)> {
    opt_field("Hostname"@, r.hostname) + opt_field("OS"@, r.system_name) + opt_field(
        "OS Version"@,
        r.system_version,
    ) + match r.architecture {
        Some(Some(a)) => seq![("Architecture"@, a@)],
        Some(None) => seq![("Architecture"@, "unknown"@)],
        None => Seq::empty(),
    } + opt_field("Boot Time"@, r.boot_time) + match r.uptime_secs {
        Some(secs) => seq![("Uptime"@, uptime_text(secs as nat))],
        None => Seq::empty(),
    }
}

/// The fields on the CPU: its frequencies and its core count.
pub open spec fn cpu_fields(r: SystemReport) -> Seq<(Seq<char>, Seq<char>)> {
    let freq = match r.cpu_frequency {
        Some(f) => seq![("Cpu Freq"@, f.current@)] + opt_field("Min Cpu Freq"@, f.min) + opt_field(
            "Max Cpu Freq"@,
            f.max,
        ),
        None => Seq::empty(),
    };
    let cores = match core_count_text(r.cpu_logical_count, r.cpu_physical_count) {
        Some(t) => seq![("Cpu Core Count"@, t)],
        None => Seq::empty(),
    };
    freq + cores
}

/// The fields on the load: memory, swap, virtualization, CPU usage and
/// temperature.
pub open spec fn load_fields(r: SystemReport) -> Seq<(Seq<char>, Seq<char>)> {
    opt_field("Memory Usage"@, r.memory_usage) + opt_field("Swap Usage"@, r.swap_usage) + seq![
        (
            "Virtualization"@,
            match r.virtualization {
                Some(v) => v@,
                None => "None"@,
            },
        ),
    ] + opt_field("Cpu Usage"@, r.cpu_usage) + opt_field("Cpu Temp"@, r.cpu_temp)
}

/// The fields of the status report, in order, as (name, value).
pub open spec fn report_fields(r: SystemReport) -> Seq<(Seq<char>, Seq<char>)> {
    host_fields(r) + cpu_fields(r) + load_fields(r)
}

/// The architecture field shows the architecture given: `(Architecture, a)`
/// when it is `a`, `(Architecture, unknown)` when it was read but is not
/// known, and no field when it could not be read.
pub proof fn lemma_architecture_field(r: SystemReport)
    ensures
        r.architecture matches Some(Some(a)) ==> report_fields(r).contains(("Architecture"@, a@)),
        r.architecture matches Some(None) ==> report_fields(r).contains(
            ("Architecture"@, "unknown"@),
        ),
{
    let pre = opt_field("Hostname"@, r.hostname) + opt_field("OS"@, r.system_name) + opt_field(
        "OS Version"@,
        r.system_version,
    );
    let k = pre.len() as int;
    match r.architecture {
        Some(Some(a)) => {
            assert(host_fields(r)[k] == ("Architecture"@, a@));
            assert(report_fields(r)[k] == ("Architecture"@, a@));
        },
        Some(None) => {
            assert(host_fields(r)[k] == ("Architecture"@, "unknown"@));
            assert(report_fields(r)[k] == ("Architecture"@, "unknown"@));
        },
        None => {},
    }
}

/// The views of a list of fields.
pub open spec fn field_views(fields: Seq<(String, String)>) -> Seq<(Seq<char>, Seq<char>)> {
    fields.map_values(|f: (String, String)| (f.0@, f.1@))
}

fn push_field(fields: &mut Vec<(String, String)>, name: &str, value: String)
    ensures
        field_views(final(fields)@) == field_views(old(fields)@) + seq![(name@, value@)],
{
    let ghost v = value@;
    fields.push((String::from_str(name), value));
    assert(field_views(fields@) =~= field_views(old(fields)@) + seq![(name@, v)]);
}

fn push_opt_field(fields: &mut Vec<(String, String)>, name: &str, value: &Option<String>)
    ensures
        field_views(final(fields)@) == field_views(old(fields)@) + opt_field(name@, *value),
{
    match value {
        Some(v) => push_field(fields, name, v.clone()),
        None => {
            assert(field_views(fields@) =~= field_views(old(fields)@) + opt_field(name@, *value));
        },
    }
}

/// The core count written out, where any count is known.
pub fn core_count(logical: Option<u64>, physical: Option<u64>) -> (res: Option<String>)
    ensures
        match res {
            Some(t) => core_count_text(logical, physical) == Some(t@),
            None => core_count_text(logical, physical) is None,
        },
{
    let mut out: Vec<char> = Vec::new();
    match (logical, physical) {
        (Some(l), Some(p)) => {
            let ls = format_u64(l);
            let ps = format_u64(p);
            push_str(&mut out, ls.as_str());
            push_str(&mut out, " logical, ");
            push_str(&mut out, ps.as_str());
            push_str(&mut out, " physical");
        },
        (Some(l), None) => {
            let ls = format_u64(l);
            push_str(&mut out, ls.as_str());
            push_str(&mut out, " logical");
        },
        (None, Some(p)) => {
            let ps = format_u64(p);
            push_str(&mut out, ps.as_str());
            push_str(&mut out, " physical");
        },
        (None, None) => {
            return None;
        },
    }
    Some(string_from_chars(&out))
}

fn push_host_fields(fields: &mut Vec<(String, String)>, r: &SystemReport)
    ensures
        field_views(final(fields)@) == field_views(old(fields)@) + host_fields(*r),
{
    push_opt_field(fields, "Hostname", &r.hostname);
    push_opt_field(fields, "OS", &r.system_name);
    push_opt_field(fields, "OS Version", &r.system_version);
    match &r.architecture {
        Some(Some(a)) => push_field(fields, "Architecture", a.clone()),
        Some(None) => push_field(fields, "Architecture", String::from_str("unknown")),
        None => {},
    }
    push_opt_field(fields, "Boot Time", &r.boot_time);
    match r.uptime_secs {
        Some(secs) => push_field(fields, "Uptime", format_uptime(secs)),
        None => {},
    }
    proof {
        reveal_strlit("unknown");
    }
    assert(field_views(fields@) =~= field_views(old(fields)@) + host_fields(*r));
}

fn push_cpu_fields(fields: &mut Vec<(String, String)>, r: &SystemReport)
    ensures
        field_views(final(fields)@) == field_views(old(fields)@) + cpu_fields(*r),
{
    match &r.cpu_frequency {
        Some(f) => {
            push_field(fields, "Cpu Freq", f.current.clone());
            push_opt_field(fields, "Min Cpu Freq", &f.min);
            push_opt_field(fields, "Max Cpu Freq", &f.max);
        },
        None => {},
    }
    match core_count(r.cpu_logical_count, r.cpu_physical_count) {
        Some(t) => push_field(fields, "Cpu Core Count", t),
        None => {},
    }
    assert(field_views(fields@) =~= field_views(old(fields)@) + cpu_fields(*r));
}

fn push_load_fields(fields: &mut Vec<(String, String)>, r: &SystemReport)
    ensures
        field_views(final(fields)@) == field_views(old(fields)@) + load_fields(*r),
{
    push_opt_field(fields, "Memory Usage", &r.memory_usage);
    push_opt_field(fields, "Swap Usage", &r.swap_usage);
    match &r.virtualization {
        Some(v) => push_field(fields, "Virtualization", v.clone()),
        None => push_field(fields, "Virtualization", String::from_str("None")),
    }
    push_opt_field(fields, "Cpu Usage", &r.cpu_usage);
    push_opt_field(fields, "Cpu Temp", &r.cpu_temp);
    assert(field_views(fields@) =~= field_views(old(fields)@) + load_fields(*r));
}

/// The fields of the status report, as (name, value), in the order shown.
pub fn system_fields(r: &SystemReport) -> (res: Vec<(String, String)>)
    ensures
        field_views(res@) == report_fields(*r),
        r.architecture matches Some(Some(a)) ==> field_views(res@).contains(
            ("Architecture"@, a@),
        ),
{
    let mut fields: Vec<(String, String)> = Vec::new();
    assert(field_views(fields@) =~= Seq::<(Seq<char>, Seq<char>)>::empty());
    push_host_fields(&mut fields, r);
    push_cpu_fields(&mut fields, r);
    push_load_fields(&mut fields, r);
    assert(field_views(fields@) =~= report_fields(*r));
    proof {
        lemma_architecture_field(*r);
    }
    fields
}

} // verus!
