//! Decimal rendering and the formatters for memory, uptime and disk space.
use vstd::prelude::*;

verus! {

/// Bytes in one megabyte (binary).
pub const BYTES_PER_MB: u64 = 1048576;

/// Bytes in one gigabyte (binary).
pub const BYTES_PER_GB: u64 = 1073741824;

/// The character that shows the decimal digit `d` (for `d` in `0..10`).
pub open spec fn digit_char(d: int) -> char {
    seq!['0', '1', '2', '3', '4', '5', '6', '7', '8', '9'][d]
}

/// The decimal digits of `n`, most significant first, without leading zeros.
pub open spec fn decimal(n: nat) -> Seq<char>
    decreases n,
{
    if n < 10 {
        seq![digit_char(n as int)]
    } else {
        decimal(n / 10).push(digit_char((n % 10) as int))
    }
}

fn digit_str(d: u64) -> (r: &'static str)
    requires
        d < 10,
    ensures
        r@ == seq![digit_char(d as int)],
{
    proof {
        reveal_strlit("0");
        reveal_strlit("1");
        reveal_strlit("2");
        reveal_strlit("3");
        reveal_strlit("4");
        reveal_strlit("5");
        reveal_strlit("6");
        reveal_strlit("7");
        reveal_strlit("8");
        reveal_strlit("9");
    }
    match d {
        0 => "0",
        1 => "1",
        2 => "2",
        3 => "3",
        4 => "4",
        5 => "5",
        6 => "6",
        7 => "7",
        8 => "8",
        _ => "9",
    }
}

/// Appends the decimal digits of `n` to `s`.
pub fn push_decimal(s: &mut String, n: u64)
    ensures
        final(s)@ == old(s)@ + decimal(n as nat),
    decreases n,
{
    if n >= 10 {
        push_decimal(s, n / 10);
    }
    s.append(digit_str(n % 10));
    assert(final(s)@ =~= old(s)@ + decimal(n as nat));
}

/// The text `"<d>d <h>h <m>m"` for an uptime of `seconds`; leftover seconds are dropped.
pub open spec fn uptime_text(seconds: nat) -> Seq<char> {
    let minutes = seconds / 60;
    let hours = minutes / 60;
    decimal(hours / 24) + "d "@ + decimal(hours % 24) + "h "@ + decimal(minutes % 60) + "m"@
}

/// Formats an uptime given in seconds as days, hours and minutes.
pub fn format_uptime(seconds: u64) -> (r: String)
    ensures
        r@ == uptime_text(seconds as nat),
{
    let minutes = seconds / 60;
    let hours = minutes / 60;
    let days = hours / 24;
    let mut s = String::new();
    push_decimal(&mut s, days);
    s.append("d ");
    push_decimal(&mut s, hours % 24);
    s.append("h ");
    push_decimal(&mut s, minutes % 60);
    s.append("m");
    s
}

/// The text `"<used>MB / <total>MB"`, each amount in whole megabytes.
pub open spec fn memory_text(used_bytes: nat, total_bytes: nat) -> Seq<char> {
    decimal(used_bytes / BYTES_PER_MB as nat) + "MB / "@ + decimal(total_bytes / BYTES_PER_MB as nat)
        + "MB"@
}

/// Formats used and total memory, given in bytes, as whole megabytes.
pub fn format_memory(used_bytes: u64, total_bytes: u64) -> (r: String)
    ensures
        r@ == memory_text(used_bytes as nat, total_bytes as nat),
{
    let mut s = String::new();
    push_decimal(&mut s, used_bytes / BYTES_PER_MB);
    s.append("MB / ");
    push_decimal(&mut s, total_bytes / BYTES_PER_MB);
    s.append("MB");
    s
}

/// The space of one disk, in bytes.
pub struct DiskSpace {
    pub total_bytes: u64,
    pub available_bytes: u64,
}

/// Whole gigabytes in use on a disk: whole gigabytes in total less whole
/// gigabytes available, and zero where the disk reports more available than total.
pub open spec fn used_gb(d: DiskSpace) -> nat {
    let total = d.total_bytes / BYTES_PER_GB;
    let available = d.available_bytes / BYTES_PER_GB;
    if available <= total {
        (total - available) as nat
    } else {
        0
    }
}

/// The text `"<used>GB / <total>GB"` for one disk.
pub open spec fn disk_text(d: DiskSpace) -> Seq<char> {
    decimal(used_gb(d)) + "GB / "@ + decimal((d.total_bytes / BYTES_PER_GB) as nat) + "GB"@
}

/// The text shown when no disk is known.
pub open spec fn no_disk_text() -> Seq<char> {
    "No disk data available"@
}

/// Formats the usage of the first disk of `disks`, or says that there is none.
pub fn get_disk_usage(disks: &Vec<DiskSpace>) -> (r: String)
    ensures
        disks@.len() == 0 ==> r@ == no_disk_text(),
        disks@.len() > 0 ==> r@ == disk_text(disks@[0]),
{
    if disks.len() == 0 {
        return String::from_str("No disk data available");
    }
    let disk = &disks[0];
    let total = disk.total_bytes / BYTES_PER_GB;
    let available = disk.available_bytes / BYTES_PER_GB;
    let used = if available <= total {
        total - available
    } else {
        0
    };
    let mut s = String::new();
    push_decimal(&mut s, used);
    s.append("GB / ");
    push_decimal(&mut s, total);
    s.append("GB");
    s
}

/// The formatters depend on their arguments alone: two results that meet the
/// contract of `format_uptime`, of `format_memory` or of `get_disk_usage` for
/// the same arguments are the same text.
pub proof fn lemma_formatters_deterministic(
    seconds: u64,
    used_bytes: u64,
    total_bytes: u64,
    disks: Seq<DiskSpace>,
    a: Seq<char>,
    b: Seq<char>,
)
    ensures
        a == uptime_text(seconds as nat) && b == uptime_text(seconds as nat) ==> a == b,
        a == memory_text(used_bytes as nat, total_bytes as nat) && b == memory_text(
            used_bytes as nat,
            total_bytes as nat,
        ) ==> a == b,
        disks.len() == 0 && a == no_disk_text() && b == no_disk_text() ==> a == b,
        disks.len() > 0 && a == disk_text(disks[0]) && b == disk_text(disks[0]) ==> a == b,
{
}

} // verus!
