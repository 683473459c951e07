//! Stick centre auto-learning.
//!
//! At startup the bridge collects a handful of idle USB reports and
//! averages their raw 12-bit stick readings to learn where each stick
//! rests. The radial calibrator that maps centred readings to normalised
//! values works in floating point and lives with the caller; the averaging
//! here is exact integer arithmetic.

use vstd::prelude::*;

use crate::input::{parse_hid_report, spec_unpack_12bit};

verus! {

/// The sums of the four raw stick axes over a set of reports:
/// (left x, left y, right x, right y).
pub open spec fn spec_stick_sums(reports: Seq<[u8; 64]>) -> (int, int, int, int)
    decreases reports.len(),
{
    if reports.len() == 0 {
        (0int, 0int, 0int, 0int)
    } else {
        let (a, b, c, d) = spec_stick_sums(reports.drop_last());
        let r = reports.last();
        let (lx, ly) = spec_unpack_12bit(r[6], r[7], r[8]);
        let (rx, ry) = spec_unpack_12bit(r[9], r[10], r[11]);
        (a + lx, b + ly, c + rx, d + ry)
    }
}

/// Unpacked 12-bit stick values stay below 4096.
proof fn lemma_unpack_bounds(b0: u8, b1: u8, b2: u8)
    ensures
        spec_unpack_12bit(b0, b1, b2).0 < 4096,
        spec_unpack_12bit(b0, b1, b2).1 < 4096,
{
    assert(((b0 as u16) | (((b1 & 0x0F) as u16) << 8)) < 4096 && (((b1 >> 4) as u16) | ((b2
        as u16) << 4)) < 4096) by (bit_vector);
}

/// The axis sums are bounded by 4095 per report.
proof fn lemma_stick_sums_bound(reports: Seq<[u8; 64]>)
    ensures
        ({
            let (a, b, c, d) = spec_stick_sums(reports);
            &&& 0 <= a <= 4095 * reports.len()
            &&& 0 <= b <= 4095 * reports.len()
            &&& 0 <= c <= 4095 * reports.len()
            &&& 0 <= d <= 4095 * reports.len()
        }),
    decreases reports.len(),
{
    if reports.len() > 0 {
        lemma_stick_sums_bound(reports.drop_last());
        let r = reports.last();
        lemma_unpack_bounds(r[6], r[7], r[8]);
        lemma_unpack_bounds(r[9], r[10], r[11]);
    }
}

/// Average the raw 12-bit stick readings of a set of idle reports.
/// Returns (left centre, right centre), each as (x, y); with no reports the
/// centres default to the nominal middle of the 12-bit range.
pub fn auto_calibrate_centers(reports: &[[u8; 64]]) -> (r: ((u16, u16), (u16, u16)))
    requires
        reports@.len() <= 0x1000000000000,
    ensures
        reports@.len() == 0 ==> r == ((2048u16, 2048u16), (2048u16, 2048u16)),
        reports@.len() > 0 ==> ({
            let (a, b, c, d) = spec_stick_sums(reports@);
            let n = reports@.len() as int;
            &&& r.0.0 == a / n
            &&& r.0.1 == b / n
            &&& r.1.0 == c / n
            &&& r.1.1 == d / n
        }),
{
    let n = reports.len();
    if n == 0 {
        return ((2048, 2048), (2048, 2048));
    }

    let mut lx_sum: u64 = 0;
    let mut ly_sum: u64 = 0;
    let mut rx_sum: u64 = 0;
    let mut ry_sum: u64 = 0;

    let mut i: usize = 0;
    while i < n
        invariant
            n == reports@.len(),
            n <= 0x1000000000000,
            i <= n,
            ({
                let (a, b, c, d) = spec_stick_sums(reports@.subrange(0, i as int));
                &&& lx_sum == a
                &&& ly_sum == b
                &&& rx_sum == c
                &&& ry_sum == d
            }),
        decreases n - i,
    {
        proof {
            lemma_stick_sums_bound(reports@.subrange(0, i as int));
            let r = reports@[i as int];
            lemma_unpack_bounds(r[6], r[7], r[8]);
            lemma_unpack_bounds(r[9], r[10], r[11]);
        }
        let report = vstd::slice::slice_index_get(reports, i);
        let parsed = parse_hid_report(report);
        lx_sum = lx_sum + parsed.left_stick_raw.0 as u64;
        ly_sum = ly_sum + parsed.left_stick_raw.1 as u64;
        rx_sum = rx_sum + parsed.right_stick_raw.0 as u64;
        ry_sum = ry_sum + parsed.right_stick_raw.1 as u64;
        proof {
            let sub1 = reports@.subrange(0, (i + 1) as int);
            assert(sub1.drop_last() =~= reports@.subrange(0, i as int));
            assert(sub1.last() == reports@[i as int]);
        }
        i = i + 1;
    }
    proof {
        assert(reports@.subrange(0, n as int) =~= reports@);
        lemma_stick_sums_bound(reports@);
    }

    let count = n as u64;
    proof {
        assert(lx_sum as int / (count as int) <= 4095 && ly_sum as int / (count as int) <= 4095
            && rx_sum as int / (count as int) <= 4095 && ry_sum as int / (count as int)
            <= 4095) by (nonlinear_arith)
            requires
                count as int == reports@.len(),
                count as int > 0,
                lx_sum as int <= 4095 * (count as int),
                ly_sum as int <= 4095 * (count as int),
                rx_sum as int <= 4095 * (count as int),
                ry_sum as int <= 4095 * (count as int),
                lx_sum as int >= 0,
                ly_sum as int >= 0,
                rx_sum as int >= 0,
                ry_sum as int >= 0,
        ;
    }
    (
        ((lx_sum / count) as u16, (ly_sum / count) as u16),
        ((rx_sum / count) as u16, (ry_sum / count) as u16),
    )
}

} // verus!
