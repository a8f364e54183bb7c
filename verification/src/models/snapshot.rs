//! Snapshot model types

use vstd::prelude::*;
use crate::text::{decimal, digit_char, i64_to_decimal, int_decimal, owned, u64_to_decimal};

verus! {

/// Snapshot status
#[derive(Debug, Clone, Copy, PartialEq, Eq, Structural)]
pub enum SnapshotStatus {
    Pending,
    Complete,
    Deleted,
    Unknown,
}

/// Snapshot
#[derive(Debug, Clone)]
pub struct Snapshot {
    /// Unique ID for the snapshot
    pub id: String,
    /// Date the snapshot was created
    pub date_created: Option<String>,
    /// User-supplied description
    pub description: Option<String>,
    /// Snapshot size in bytes
    pub size: Option<i64>,
    /// Current status
    pub status: Option<SnapshotStatus>,
    /// Operating system ID
    pub os_id: Option<i32>,
    /// Application ID
    pub app_id: Option<i32>,
}

/// Request to create a snapshot
#[derive(Debug, Clone)]
pub struct CreateSnapshotRequest {
    /// Instance ID to snapshot
    pub instance_id: String,
    /// Optional description
    pub description: Option<String>,
}

/// Request to create a snapshot from URL
#[derive(Debug, Clone)]
pub struct CreateSnapshotFromUrlRequest {
    /// URL of the raw image
    pub url: String,
    /// Optional description
    pub description: Option<String>,
}

/// Request to update a snapshot
#[derive(Debug, Clone, Default)]
pub struct UpdateSnapshotRequest {
    /// New description
    pub description: Option<String>,
}

/// Response wrapper for snapshot operations
#[derive(Debug, Clone)]
pub struct SnapshotResponse {
    pub snapshot: Snapshot,
}

/// Response wrapper for snapshot list
#[derive(Debug, Clone)]
pub struct SnapshotsResponse {
    pub snapshots: Vec<Snapshot>,
}

} // verus!

verus! {

impl SnapshotStatus {
    /// The text that the API and the tables use for this value.
    pub open spec fn label(self) -> Seq<char> {
        match self {
            SnapshotStatus::Pending => "pending"@,
            SnapshotStatus::Complete => "complete"@,
            SnapshotStatus::Deleted => "deleted"@,
            SnapshotStatus::Unknown => "unknown"@,
        }
    }

    /// The text of this value, as its display form shows it.
    pub fn as_str(&self) -> (s: &'static str)
        ensures
            s@ == self.label(),
    {
        match self {
            SnapshotStatus::Pending => "pending",
            SnapshotStatus::Complete => "complete",
            SnapshotStatus::Deleted => "deleted",
            SnapshotStatus::Unknown => "unknown",
        }
    }

    /// The display form of this value as an owned string.
    pub fn to_string(&self) -> (s: String)
        ensures
            s@ == self.label(),
    {
        owned(self.as_str())
    }
}

impl Snapshot {
    /// Check if the snapshot is complete and ready for use.
    pub fn is_ready(&self) -> (r: bool)
        ensures
            r == (self.status == Some(SnapshotStatus::Complete)),
    {
        match self.status {
            Some(SnapshotStatus::Complete) => true,
            _ => false,
        }
    }
}

} // verus!

verus! {

/// Spacing of the doubles near `n`: 1 below 2^53, doubling with each further bit.
pub open spec fn f64_unit(n: nat) -> nat
    decreases n,
{
    if n < 0x20_0000_0000_0000 {
        1
    } else {
        2 * f64_unit(n / 2)
    }
}

/// The integer nearest to `a / d`, ties to the even one.
pub open spec fn round_half_even(a: nat, d: nat) -> nat
    recommends
        d > 0,
{
    let q = a / d;
    let r = a % d;
    if 2 * r > d || (2 * r == d && q % 2 == 1) {
        q + 1
    } else {
        q
    }
}

/// The value of the double nearest to `n` (ties to even), as `n as f64` gives it.
pub open spec fn f64_from_int(n: nat) -> nat {
    round_half_even(n, f64_unit(n)) * f64_unit(n)
}

/// The number of hundredths that `{:.2}` shows for the double nearest to `bytes`, divided
/// by the power of two `scale`: the exact quotient rounded half to even.
pub open spec fn shown_hundredths(bytes: nat, scale: nat) -> nat {
    round_half_even(f64_from_int(bytes) * 100, scale)
}

/// A count of hundredths written with two decimals.
pub open spec fn two_decimals(h: nat) -> Seq<char> {
    decimal(h / 100) + "."@ + seq![digit_char(((h % 100) / 10) as int), digit_char((h % 10) as int)]
}

/// The human-readable size of a snapshot, as `Snapshot::size_human` renders it.
pub open spec fn size_text(size: Option<i64>) -> Seq<char> {
    match size {
        Some(b) => if b >= 1_073_741_824 {
            two_decimals(shown_hundredths(b as nat, 1_073_741_824)) + " GB"@
        } else if b >= 1_048_576 {
            two_decimals(shown_hundredths(b as nat, 1_048_576)) + " MB"@
        } else if b >= 1024 {
            two_decimals(shown_hundredths(b as nat, 1024)) + " KB"@
        } else {
            int_decimal(b as int) + " bytes"@
        },
        None => "Unknown"@,
    }
}

fn round_half_even_exec(a: u128, d: u128) -> (r: u128)
    requires
        d > 0,
        d < 0x1_0000_0000_0000_0000_0000_0000,
        a < 0x1_0000_0000_0000_0000_0000_0000,
    ensures
        r == round_half_even(a as nat, d as nat),
{
    let q = a / d;
    let r = a % d;
    if 2 * r > d || (2 * r == d && q % 2 == 1) {
        q + 1
    } else {
        q
    }
}

/// `n as f64`, kept as the exact integer value of that double.
fn f64_round_int(n: u64) -> (r: u128)
    requires
        n >= 1,
    ensures
        r == f64_from_int(n as nat),
        r <= 2 * (n as nat),
{
    let mut unit: u64 = 1;
    let mut m: u64 = n;
    while m >= 0x20_0000_0000_0000
        invariant
            unit >= 1,
            m == n / unit,
            unit <= n,
            f64_unit(n as nat) == unit * f64_unit(m as nat),
        decreases m,
    {
        assert(f64_unit(m as nat) == 2 * f64_unit((m / 2) as nat));
        assert((n as int / unit as int) / 2 == n as int / (unit as int * 2)) by {
            vstd::arithmetic::div_mod::lemma_div_denominator(n as int, unit as int, 2);
        }
        assert(2 * unit <= n) by (nonlinear_arith)
            requires
                m == n / unit,
                m >= 2,
                unit >= 1,
        {
            vstd::arithmetic::div_mod::lemma_fundamental_div_mod(n as int, unit as int);
        }
        let ghost old_unit = unit;
        let ghost old_m = m;
        m = m / 2;
        unit = unit * 2;
        assert(f64_unit(n as nat) == unit * f64_unit(m as nat)) by (nonlinear_arith)
            requires
                f64_unit(n as nat) == old_unit * f64_unit(old_m as nat),
                f64_unit(old_m as nat) == 2 * f64_unit(m as nat),
                unit == old_unit * 2,
        {
        }
    }
    assert(f64_unit(m as nat) == 1);
    assert(f64_unit(n as nat) == unit) by (nonlinear_arith)
        requires
            f64_unit(n as nat) == unit * f64_unit(m as nat),
            f64_unit(m as nat) == 1,
    {
    }
    let q = round_half_even_exec(n as u128, unit as u128);
    assert(q <= n as u128 / unit as u128 + 1);
    assert(q * (unit as u128) <= 2 * (n as u128)) by (nonlinear_arith)
        requires
            q <= n / unit + 1,
            unit >= 1,
            unit <= n,
    {
        vstd::arithmetic::div_mod::lemma_fundamental_div_mod(n as int, unit as int);
    }
    q * (unit as u128)
}

fn push_two_decimals(s: &mut String, h: u128)
    requires
        h < 0x64_0000_0000_0000_0000,
    ensures
        final(s)@ == old(s)@ + two_decimals(h as nat),
{
    assert(h / 100 < 0x1_0000_0000_0000_0000) by (nonlinear_arith)
        requires
            h < 0x64_0000_0000_0000_0000,
    {
    }
    let whole = u64_to_decimal((h / 100) as u64);
    s.append(whole.as_str());
    s.append(".");
    let frac = (h % 100) as u64;
    let tens = u64_to_decimal(frac / 10);
    let ones = u64_to_decimal(frac % 10);
    s.append(tens.as_str());
    s.append(ones.as_str());
    assert(decimal((frac / 10) as nat) == seq![digit_char((frac / 10) as int)]);
    assert(decimal((frac % 10) as nat) == seq![digit_char((frac % 10) as int)]);
}

fn scaled_text(bytes: i64, scale: u128, unit_label: &str) -> (r: String)
    requires
        bytes >= 1,
        1 <= scale <= 0x4000_0000,
    ensures
        r@ == two_decimals(shown_hundredths(bytes as nat, scale as nat)) + unit_label@,
{
    let v = f64_round_int(bytes as u64);
    let h = round_half_even_exec(v * 100, scale);
    assert(h <= v * 100) by (nonlinear_arith)
        requires
            h == round_half_even((v * 100) as nat, scale as nat),
            scale >= 1,
    {
    }
    let mut r = String::new();
    push_two_decimals(&mut r, h);
    r.append(unit_label);
    r
}

impl Snapshot {
    /// Get the size in human-readable format.
    pub fn size_human(&self) -> (r: String)
        ensures
            r@ == size_text(self.size),
    {
        match self.size {
            Some(bytes) => {
                if bytes >= 1_073_741_824 {
                    scaled_text(bytes, 1_073_741_824, " GB")
                } else if bytes >= 1_048_576 {
                    scaled_text(bytes, 1_048_576, " MB")
                } else if bytes >= 1024 {
                    scaled_text(bytes, 1024, " KB")
                } else {
                    let mut r = i64_to_decimal(bytes);
                    r.append(" bytes");
                    r
                }
            },
            None => owned("Unknown"),
        }
    }
}

} // verus!
