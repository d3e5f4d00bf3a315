//! The report: seven labeled lines built from one snapshot of the host.
use crate::bar::{bar_model, bar_shows, memory_usage_bar};
use crate::paint::{paint, shows, Hue};
use crate::text::{
    decimal, disk_text, format_memory, format_uptime, get_disk_usage, memory_text, no_disk_text,
    push_decimal, uptime_text, DiskSpace, BYTES_PER_MB,
};
use vstd::prelude::*;

verus! {

/// Cells in the memory usage bar of the report.
pub const BAR_LENGTH: usize = 30;

/// The host values that the report shows, read at one point in time.
pub struct HostSnapshot {
    pub os_name: Option<String>,
    pub kernel_version: Option<String>,
    pub host_name: Option<String>,
    pub total_memory: u64,
    pub used_memory: u64,
    pub cpu_count: usize,
    pub uptime_secs: u64,
    pub disks: Vec<DiskSpace>,
}

/// A value that the host may not report: its text, or nothing.
pub open spec fn or_empty(o: Option<String>) -> Seq<char> {
    match o {
        Some(s) => s@,
        None => Seq::empty(),
    }
}

/// `t` is the label in its hue, a space, then `value`.
pub open spec fn line_shows(t: Seq<char>, label: Seq<char>, hue: Hue, value: Seq<char>) -> bool {
    exists|p: Seq<char>| #[trigger] shows(p, label, hue) && t == p + seq![' '] + value
}

/// `t` is the memory line: its label in its hue, a space, the amounts, and
/// the usage bar between `" | ["` and `"]"`.
pub open spec fn memory_line_shows(t: Seq<char>, snap: HostSnapshot) -> bool {
    let used_mb = snap.used_memory / BYTES_PER_MB;
    let total_mb = snap.total_memory / BYTES_PER_MB;
    exists|p: Seq<char>, b: Seq<char>|
        #[trigger] shows(p, "Memory \u{eb70}"@, Hue::BrightMagenta) && #[trigger] bar_shows(
            bar_model(used_mb as nat, total_mb as nat, BAR_LENGTH as nat),
            b,
        ) && t == p + seq![' '] + memory_text(snap.used_memory as nat, snap.total_memory as nat)
            + " | ["@ + b + "]"@
}

/// The text of an optional value; nothing where it is absent.
pub fn text_or_empty(o: &Option<String>) -> (r: String)
    ensures
        r@ == or_empty(*o),
{
    match o {
        Some(s) => s.clone(),
        None => String::new(),
    }
}

/// The label painted in its hue, a space, then `value`.
fn labeled(label: &str, hue: Hue, value: &str) -> (r: String)
    requires
        !label@.contains('\x1b'),
    ensures
        line_shows(r@, label@, hue, value@),
{
    let mut s = paint(label, hue);
    let ghost p = s@;
    proof {
        reveal_strlit(" ");
    }
    s.append(" ");
    s.append(value);
    assert(s@ =~= p + seq![' '] + value@);
    s
}

/// The seven lines of the report, in order: system name, kernel version,
/// memory with its usage bar, number of CPUs, uptime, host name, disk usage.
pub fn report_lines(snap: &HostSnapshot) -> (r: Vec<String>)
    ensures
        r@.len() == 7,
        line_shows(r@[0]@, "OS \u{eb70}"@, Hue::BrightGreen, or_empty(snap.os_name)),
        line_shows(
            r@[1]@,
            "Kernel Version \u{eb70}"@,
            Hue::BrightYellow,
            or_empty(snap.kernel_version),
        ),
        memory_line_shows(r@[2]@, *snap),
        line_shows(
            r@[3]@,
            "Number of CPUs \u{eb70}"@,
            Hue::BrightBlue,
            decimal(snap.cpu_count as nat),
        ),
        line_shows(r@[4]@, "Uptime \u{eb70}"@, Hue::BrightCyan, uptime_text(snap.uptime_secs as nat)),
        line_shows(r@[5]@, "Host \u{eb70}"@, Hue::BrightRed, or_empty(snap.host_name)),
        snap.disks@.len() == 0 ==> line_shows(
            r@[6]@,
            "Disk Usage \u{eb70}"@,
            Hue::Yellow,
            no_disk_text(),
        ),
        snap.disks@.len() > 0 ==> line_shows(
            r@[6]@,
            "Disk Usage \u{eb70}"@,
            Hue::Yellow,
            disk_text(snap.disks@[0]),
        ),
{
    proof {
        reveal_strlit("OS \u{eb70}");
        reveal_strlit("Kernel Version \u{eb70}");
        reveal_strlit("Memory \u{eb70}");
        reveal_strlit("Number of CPUs \u{eb70}");
        reveal_strlit("Uptime \u{eb70}");
        reveal_strlit("Host \u{eb70}");
        reveal_strlit("Disk Usage \u{eb70}");
    }
    let mut lines: Vec<String> = Vec::new();

    let os = text_or_empty(&snap.os_name);
    lines.push(labeled("OS \u{eb70}", Hue::BrightGreen, os.as_str()));

    let kernel = text_or_empty(&snap.kernel_version);
    lines.push(labeled("Kernel Version \u{eb70}", Hue::BrightYellow, kernel.as_str()));

    let mut memory = paint("Memory \u{eb70}", Hue::BrightMagenta);
    let ghost p = memory@;
    let amounts = format_memory(snap.used_memory, snap.total_memory);
    let bar = memory_usage_bar(
        snap.used_memory / BYTES_PER_MB,
        snap.total_memory / BYTES_PER_MB,
        BAR_LENGTH,
    );
    memory.append(" ");
    memory.append(amounts.as_str());
    memory.append(" | [");
    memory.append(bar.as_str());
    memory.append("]");
    proof {
        reveal_strlit(" ");
        assert(memory@ =~= p + seq![' '] + amounts@ + " | ["@ + bar@ + "]"@);
    }
    lines.push(memory);

    let mut cpus = String::new();
    push_decimal(&mut cpus, snap.cpu_count as u64);
    assert(cpus@ =~= decimal(snap.cpu_count as nat));
    lines.push(labeled("Number of CPUs \u{eb70}", Hue::BrightBlue, cpus.as_str()));

    let uptime = format_uptime(snap.uptime_secs);
    lines.push(labeled("Uptime \u{eb70}", Hue::BrightCyan, uptime.as_str()));

    let host = text_or_empty(&snap.host_name);
    lines.push(labeled("Host \u{eb70}", Hue::BrightRed, host.as_str()));

    let disk = get_disk_usage(&snap.disks);
    lines.push(labeled("Disk Usage \u{eb70}", Hue::Yellow, disk.as_str()));
    lines
}

} // verus!
