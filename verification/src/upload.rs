//! Sizes of the parts in which a large file is uploaded.

use vstd::prelude::*;

verus! {

/// One mebibyte.
pub const MB: u64 = 1048576;

/// The smallest part that the storage takes.
pub const MIN_PART: u64 = 5242880;

/// The largest part that is sent in one request.
pub const MAX_PART: u64 = 99614720;

/// The most parts that one upload may have.
pub const MAX_PARTS: u64 = 10000;

/// `n / d` rounded up; zero where `d` is zero.
pub open spec fn ceil_div(n: nat, d: nat) -> nat {
    if d == 0 {
        0
    } else {
        (n + d - 1) as nat / d
    }
}

/// `bytes` brought into the range of part sizes.
pub open spec fn clamped_part_size(bytes: nat) -> nat {
    if bytes < MIN_PART {
        MIN_PART as nat
    } else if bytes > MAX_PART {
        MAX_PART as nat
    } else {
        bytes
    }
}

/// The part size that suits a file of `file_size` bytes by its size alone.
pub open spec fn size_class(file_size: nat) -> nat {
    if file_size >= 8 * 1024 * MB {
        (64 * MB) as nat
    } else if file_size >= 512 * MB {
        (32 * MB) as nat
    } else if file_size >= 64 * MB {
        (16 * MB) as nat
    } else {
        (8 * MB) as nat
    }
}

/// The larger of `a` and `b`.
pub open spec fn max_of(a: nat, b: nat) -> nat {
    if a >= b {
        a
    } else {
        b
    }
}

/// The part size for a file of `file_size` bytes: the size asked for in
/// mebibytes where one is, else the size that suits the file, raised as
/// far as the limit on the number of parts asks; clamped either way.
pub open spec fn chosen_part_size(file_size: nat, part_size_mb: Option<u32>) -> nat {
    match part_size_mb {
        Some(mb) => clamped_part_size(mb as nat * MB as nat),
        None => clamped_part_size(max_of(size_class(file_size), ceil_div(file_size, MAX_PARTS as nat))),
    }
}

/// The part size that an upload of `file_size` bytes is announced with:
/// the chosen one, unless it gives too many parts.
pub open spec fn planned_part_size(file_size: nat, part_size_mb: Option<u32>) -> nat {
    let chosen = chosen_part_size(file_size, part_size_mb);
    if ceil_div(file_size, chosen) > MAX_PARTS {
        clamped_part_size(ceil_div(file_size, MAX_PARTS as nat))
    } else {
        chosen
    }
}

/// Rounding up adds one to the quotient exactly where a remainder is left.
pub proof fn lemma_ceil_div(n: nat, d: nat)
    requires
        d > 0,
    ensures
        ceil_div(n, d) == n / d + if n % d == 0 {
            0nat
        } else {
            1nat
        },
        ceil_div(n, d) * d >= n,
        n > 0 ==> (ceil_div(n, d) - 1) * d < n,
{
    let q = n / d;
    let r = n % d;
    assert(n == q * d + r && 0 <= r < d) by (nonlinear_arith)
        requires
            d > 0,
            q == n / d,
            r == n % d,
    ;
    if r == 0 {
        assert((n + d - 1) as nat / d == q) by (nonlinear_arith)
            requires
                d > 0,
                n == q * d,
        ;
    } else {
        assert((n + d - 1) as nat / d == q + 1) by (nonlinear_arith)
            requires
                d > 0,
                n == q * d + r,
                0 < r < d,
        ;
        assert((q + 1) * d >= n) by (nonlinear_arith)
            requires
                n == q * d + r,
                0 < r < d,
        ;
    }
    if n > 0 {
        assert((ceil_div(n, d) - 1) * d < n) by (nonlinear_arith)
            requires
                d > 0,
                n > 0,
                n == q * d + r,
                0 <= r < d,
                ceil_div(n, d) == q + if r == 0 {
                    0nat
                } else {
                    1nat
                },
        ;
    }
}

/// A file that fits into the most parts of the largest size is planned
/// with no more parts than are allowed, each within the range of part
/// sizes.
pub proof fn lemma_plan_respects_limits(file_size: nat, part_size_mb: Option<u32>)
    ensures
        MIN_PART <= planned_part_size(file_size, part_size_mb) <= MAX_PART,
        file_size <= MAX_PARTS * MAX_PART ==> ceil_div(
            file_size,
            planned_part_size(file_size, part_size_mb),
        ) <= MAX_PARTS,
{
    let chosen = chosen_part_size(file_size, part_size_mb);
    let planned = planned_part_size(file_size, part_size_mb);
    if file_size <= MAX_PARTS * MAX_PART && ceil_div(file_size, chosen) > MAX_PARTS {
        let need = ceil_div(file_size, MAX_PARTS as nat);
        lemma_ceil_div(file_size, MAX_PARTS as nat);
        lemma_ceil_div(file_size, planned);
        assert(need * MAX_PARTS >= file_size);
        assert(need <= MAX_PART) by (nonlinear_arith)
            requires
                file_size <= MAX_PARTS * MAX_PART,
                file_size > 0 ==> (need - 1) * MAX_PARTS < file_size,
                file_size == 0 ==> need == 0,
        ;
        assert(planned >= need);
        assert(planned * MAX_PARTS >= file_size) by (nonlinear_arith)
            requires
                planned >= need,
                need * MAX_PARTS >= file_size,
        ;
        if file_size > 0 {
            let parts = ceil_div(file_size, planned);
            assert(parts <= MAX_PARTS) by (nonlinear_arith)
                requires
                    planned > 0,
                    (parts - 1) * planned < file_size,
                    planned * MAX_PARTS >= file_size,
            ;
        }
    }
}

/// `n / d` rounded up; zero where `d` is zero.
pub fn div_ceil(n: u64, d: u64) -> (q: u64)
    ensures
        q == ceil_div(n as nat, d as nat),
{
    if d == 0 {
        return 0;
    }
    proof {
        lemma_ceil_div(n as nat, d as nat);
        assert(n % d != 0 ==> n / d < u64::MAX) by (nonlinear_arith)
            requires
                d > 0,
                n <= u64::MAX,
        ;
    }
    if n % d == 0 {
        n / d
    } else {
        n / d + 1
    }
}

/// Brings `bytes` into the range of part sizes.
pub fn clamp_part_size(bytes: u64) -> (size: u64)
    ensures
        size == clamped_part_size(bytes as nat),
{
    if bytes < MIN_PART {
        MIN_PART
    } else if bytes > MAX_PART {
        MAX_PART
    } else {
        bytes
    }
}

/// Chooses the part size for a file of `file_size` bytes; `part_size_mb`
/// is the size that the user asked for, in mebibytes.
pub fn choose_part_size(file_size: u64, part_size_mb: Option<u32>) -> (size: u64)
    ensures
        size == chosen_part_size(file_size as nat, part_size_mb),
{
    if let Some(mb) = part_size_mb {
        assert(mb as nat * MB as nat <= u64::MAX) by (nonlinear_arith)
            requires
                mb <= u32::MAX,
                MB == 1048576,
        ;
        return clamp_part_size(mb as u64 * MB);
    }
    let mut part: u64 = if file_size >= 8 * 1024 * MB {
        64 * MB
    } else if file_size >= 512 * MB {
        32 * MB
    } else if file_size >= 64 * MB {
        16 * MB
    } else {
        8 * MB
    };
    let min_required: u64 = div_ceil(file_size, MAX_PARTS);
    if part < min_required {
        part = min_required;
    }
    clamp_part_size(part)
}

/// Plans the part size that an upload of `file_size` bytes is announced
/// with.
pub fn plan_part_size(file_size: u64, part_size_mb: Option<u32>) -> (size: u64)
    ensures
        size == planned_part_size(file_size as nat, part_size_mb),
        MIN_PART <= size <= MAX_PART,
{
    proof {
        lemma_plan_respects_limits(file_size as nat, part_size_mb);
    }
    let chosen: u64 = choose_part_size(file_size, part_size_mb);
    if div_ceil(file_size, chosen) > MAX_PARTS {
        clamp_part_size(div_ceil(file_size, MAX_PARTS))
    } else {
        chosen
    }
}

/// The length of the next part of an upload of which `remaining` bytes are
/// still to be sent in parts of `part_size` bytes.
pub fn next_part_len(part_size: u64, remaining: u64) -> (len: u64)
    ensures
        len == if part_size <= remaining {
            part_size
        } else {
            remaining
        },
{
    if part_size <= remaining {
        part_size
    } else {
        remaining
    }
}

} // verus!
