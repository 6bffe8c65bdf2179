//! The three mount operations and their sentinel error codes.

use vstd::prelude::*;
use crate::hash::combined_hash;
use crate::hash::combined_hash_spec;

verus! {

/// The three ways a mount operation can fail: reading the deploy file,
/// reading the execute file, or writing the output file.
#[derive(Clone, Copy, Debug, PartialEq, Eq, Structural)]
pub enum MountReadFailed {
    Deploy,
    Exec,
    Out,
}

/// The fixed sentinel code that stands for each failure kind.
pub open spec fn sentinel_spec(kind: MountReadFailed) -> i32 {
    match kind {
        MountReadFailed::Deploy => -1337i32,
        MountReadFailed::Exec => -2337i32,
        MountReadFailed::Out => 404i32,
    }
}

/// Returns the sentinel code reported in place of a normal result when the
/// mount operation of `kind` fails.
pub fn sentinel_code(kind: MountReadFailed) -> (r: i32)
    ensures
        r == sentinel_spec(kind),
{
    match kind {
        MountReadFailed::Deploy => -1337,
        MountReadFailed::Exec => -2337,
        MountReadFailed::Out => 404,
    }
}

/// Two's-complement reinterpretation of a 32-bit unsigned value.
pub open spec fn i32_of_u32(x: u32) -> i32 {
    if x >= 0x8000_0000 {
        (x - 0x1_0000_0000) as i32
    } else {
        x as i32
    }
}

/// The low 32 bits of a 64-bit value, reinterpreted as signed.
pub open spec fn i32_of_u64(x: u64) -> i32 {
    i32_of_u32((x % 0x1_0000_0000) as u32)
}

/// The wrapping sum operation `a` forms from its two parameters and the
/// combined hash: `p0` reinterpreted as signed, plus the already-truncated
/// float parameter, plus the low hash bits, both additions wrapping.
pub open spec fn a_sum_spec(p0: u32, p1_trunc: i32, h: u64) -> i32 {
    i32_of_u32(p0).wrapping_add(p1_trunc).wrapping_add(i32_of_u64(h))
}

/// Sign normalization of operation `a`: a sum that is already non-positive is
/// pushed one below itself, saturating at `i32::MIN`; a positive sum is
/// negated.  Either way the result is negative.
pub open spec fn normalize_negative_spec(sum: i32) -> i32 {
    if sum <= 0 {
        if sum == i32::MIN {
            i32::MIN
        } else {
            (sum - 1) as i32
        }
    } else {
        (-sum) as i32
    }
}

/// Operation `a`'s result when both input files were read.
pub open spec fn a_success_spec(p0: u32, p1_trunc: i32, deploy: Seq<u8>, execute: Seq<u8>) -> i32 {
    normalize_negative_spec(a_sum_spec(p0, p1_trunc, combined_hash_spec(deploy, execute)))
}

/// Two's-complement reinterpretation of `x` as a signed 32-bit value.
fn i32_from_u32(x: u32) -> (r: i32)
    ensures
        r == i32_of_u32(x),
{
    if x >= 0x8000_0000u32 {
        ((x - 0x8000_0000u32) as i32) + i32::MIN
    } else {
        x as i32
    }
}

/// The low 32 bits of `x`, reinterpreted as a signed 32-bit value.
fn i32_from_u64(x: u64) -> (r: i32)
    ensures
        r == i32_of_u64(x),
{
    let lo = x % 0x1_0000_0000u64;
    i32_from_u32(lo as u32)
}

/// Operation `a`: combines the contents of the deploy and execute files with
/// the two numeric parameters into a result that is always negative.
///
/// The caller hands in the file contents, or `None` for a file it could not
/// read; `p1_trunc` is the 32-bit float parameter already truncated toward
/// zero to a signed integer.  A missing deploy file yields the deploy
/// sentinel, a missing execute file the execute sentinel; with both present
/// the result is the sign-normalized wrapping sum over both parameters and
/// the combined hash of both files.
pub fn a(p0: u32, p1_trunc: i32, deploy: Option<&Vec<u8>>, execute: Option<&Vec<u8>>) -> (r: i32)
    ensures
        r < 0,
        deploy is None ==> r == sentinel_spec(MountReadFailed::Deploy),
        deploy is Some && execute is None ==> r == sentinel_spec(MountReadFailed::Exec),
        deploy is Some && execute is Some ==> r == a_success_spec(
            p0,
            p1_trunc,
            deploy.unwrap()@,
            execute.unwrap()@,
        ),
{
    let d = match deploy {
        Some(d) => d,
        None => {
            return sentinel_code(MountReadFailed::Deploy);
        },
    };
    let e = match execute {
        Some(e) => e,
        None => {
            return sentinel_code(MountReadFailed::Exec);
        },
    };
    let h = combined_hash(d, e);
    let sum = i32_from_u32(p0).wrapping_add(p1_trunc).wrapping_add(i32_from_u64(h));
    if sum <= 0 {
        if sum == i32::MIN {
            i32::MIN
        } else {
            sum - 1
        }
    } else {
        -sum
    }
}

/// Law: operation `a`'s success result is always negative, and a sum that
/// lands on the minimum representable value saturates there instead of
/// wrapping past it.
pub proof fn lemma_a_success_negative(p0: u32, p1_trunc: i32, deploy: Seq<u8>, execute: Seq<u8>)
    ensures
        a_success_spec(p0, p1_trunc, deploy, execute) < 0,
        a_sum_spec(p0, p1_trunc, combined_hash_spec(deploy, execute)) == i32::MIN
            ==> a_success_spec(p0, p1_trunc, deploy, execute) == i32::MIN,
{
}

/// The payload operation `c` writes to the output file: the two ASCII bytes
/// of the text "42".
pub fn output_payload() -> (r: Vec<u8>)
    ensures
        r@ == seq![52u8, 50u8],
{
    let mut v: Vec<u8> = Vec::new();
    v.push(52);
    v.push(50);
    proof {
        assert(v@ =~= seq![52u8, 50u8]);
    }
    v
}

/// Operation `c`'s reported code: with the output payload written, the
/// largest signed 32-bit value carried in the unsigned channel; with the
/// write failed, the output-write sentinel.
pub fn c(write_ok: bool) -> (r: u32)
    ensures
        write_ok ==> r == 0x7fff_ffffu32,
        !write_ok ==> r == sentinel_spec(MountReadFailed::Out) as u32,
{
    if write_ok {
        0x7fff_ffffu32
    } else {
        404
    }
}

} // verus!
