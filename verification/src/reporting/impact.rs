//! Storage-impact tiers: is a candidate ordinary housekeeping, or one of
//! the few things on this machine worth looking at?
//!
//! Two scales. Absolute bytes, because a large build directory is worth
//! surfacing whatever the disk size; and a fraction of the space that is
//! still free, because on a nearly full disk a modest cache can be a
//! quarter of what is left. The relative scale only ever escalates a tier,
//! never lowers one. A tier is not a safety signal: nothing here reads or
//! produces a policy label.

use vstd::prelude::*;

verus! {

/// How much a candidate's reclaimable size is worth the user's attention,
/// least to most notable. `Unknown` is an unmeasured size: not small, but
/// not something to draw the eye to either.
#[derive(Debug, Clone, Copy, PartialEq, Eq, PartialOrd, Ord, Structural)]
pub enum StorageImpactTier {
    Unknown,
    Normal,
    Notable,
    Large,
}

impl StorageImpactTier {
    /// Position in the least-to-most-notable order.
    pub open spec fn rank(self) -> int {
        match self {
            StorageImpactTier::Unknown => 0,
            StorageImpactTier::Normal => 1,
            StorageImpactTier::Notable => 2,
            StorageImpactTier::Large => 3,
        }
    }

    pub open spec fn spec_as_str(self) -> Seq<char> {
        match self {
            StorageImpactTier::Unknown => "unknown"@,
            StorageImpactTier::Normal => "normal"@,
            StorageImpactTier::Notable => "notable"@,
            StorageImpactTier::Large => "large"@,
        }
    }

    /// The stable token emitted in reports.
    pub fn as_str(&self) -> (s: &'static str)
        ensures
            s@ == self.spec_as_str(),
    {
        match self {
            StorageImpactTier::Unknown => "unknown",
            StorageImpactTier::Normal => "normal",
            StorageImpactTier::Notable => "notable",
            StorageImpactTier::Large => "large",
        }
    }

    fn rank_exec(&self) -> (r: u8)
        ensures
            r as int == self.rank(),
    {
        match self {
            StorageImpactTier::Unknown => 0,
            StorageImpactTier::Normal => 1,
            StorageImpactTier::Notable => 2,
            StorageImpactTier::Large => 3,
        }
    }
}

/// The threshold model, in one place.
#[derive(Debug, Clone, Copy, PartialEq, Eq, Structural)]
pub struct ImpactThresholds {
    /// At or above this many bytes: at least `Notable`.
    pub notable_bytes: u64,
    /// At or above this many bytes: `Large`.
    pub large_bytes: u64,
    /// At or above this percentage of free space: at least `Notable`.
    pub notable_free_percent: u32,
    /// At or above this percentage of free space: `Large`.
    pub large_free_percent: u32,
}

/// 1 GiB / 10 GiB absolute, 5% / 20% of the remaining free space.
pub open spec fn default_thresholds() -> ImpactThresholds {
    ImpactThresholds {
        notable_bytes: 1_073_741_824u64,
        large_bytes: 10_737_418_240u64,
        notable_free_percent: 5u32,
        large_free_percent: 20u32,
    }
}

impl Default for ImpactThresholds {
    /// See [`default_thresholds`].
    fn default() -> (t: Self)
        ensures
            t == default_thresholds(),
    {
        ImpactThresholds {
            notable_bytes: 1024 * 1024 * 1024,
            large_bytes: 10 * 1024 * 1024 * 1024,
            notable_free_percent: 5,
            large_free_percent: 20,
        }
    }
}

/// What is known about the filesystem the candidates live on. `free_bytes`
/// is `None` wherever it could not be obtained; the absolute scale alone
/// then decides.
#[derive(Debug, Clone, Copy, PartialEq, Eq)]
pub struct ImpactContext {
    pub free_bytes: Option<u64>,
}

impl Default for ImpactContext {
    fn default() -> (c: Self)
        ensures
            c.free_bytes is None,
    {
        ImpactContext { free_bytes: None }
    }
}

impl ImpactContext {
    pub fn with_free_bytes(free_bytes: u64) -> (c: Self)
        ensures
            c.free_bytes == Some(free_bytes),
    {
        ImpactContext { free_bytes: Some(free_bytes) }
    }
}

/// The absolute half of the model.
pub open spec fn absolute_tier(bytes: u64, t: ImpactThresholds) -> StorageImpactTier {
    if bytes >= t.large_bytes {
        StorageImpactTier::Large
    } else if bytes >= t.notable_bytes {
        StorageImpactTier::Notable
    } else {
        StorageImpactTier::Normal
    }
}

/// The relative half: `Normal` ("nothing to add") when free space is
/// unknown or zero; otherwise by the whole percentage
/// `floor(bytes * 100 / free)`.
pub open spec fn spec_relative_tier(
    bytes: u64,
    free: Option<u64>,
    t: ImpactThresholds,
) -> StorageImpactTier {
    match free {
        Some(f) if f > 0 => {
            let percent = (bytes * 100) / (f as int);
            if percent >= t.large_free_percent {
                StorageImpactTier::Large
            } else if percent >= t.notable_free_percent {
                StorageImpactTier::Notable
            } else {
                StorageImpactTier::Normal
            }
        },
        _ => StorageImpactTier::Normal,
    }
}

/// The more notable of two tiers.
pub open spec fn tier_max(a: StorageImpactTier, b: StorageImpactTier) -> StorageImpactTier {
    if a.rank() >= b.rank() {
        a
    } else {
        b
    }
}

/// `Unknown` for an unmeasured size; otherwise the more notable of the
/// absolute and the relative tier.
pub open spec fn spec_classify_impact(
    reclaimable_bytes: Option<u64>,
    free: Option<u64>,
    t: ImpactThresholds,
) -> StorageImpactTier {
    match reclaimable_bytes {
        None => StorageImpactTier::Unknown,
        Some(b) => tier_max(absolute_tier(b, t), spec_relative_tier(b, free, t)),
    }
}

/// Classify one candidate's reclaimable size into a tier.
pub fn classify_impact(
    reclaimable_bytes: Option<u64>,
    context: ImpactContext,
    thresholds: &ImpactThresholds,
) -> (tier: StorageImpactTier)
    ensures
        tier == spec_classify_impact(reclaimable_bytes, context.free_bytes, *thresholds),
        reclaimable_bytes is Some ==> tier.rank() >= absolute_tier(
            reclaimable_bytes->0,
            *thresholds,
        ).rank(),
{
    let bytes = match reclaimable_bytes {
        None => return StorageImpactTier::Unknown,
        Some(b) => b,
    };
    let absolute = if bytes >= thresholds.large_bytes {
        StorageImpactTier::Large
    } else if bytes >= thresholds.notable_bytes {
        StorageImpactTier::Notable
    } else {
        StorageImpactTier::Normal
    };
    let relative = relative_tier(bytes, context, thresholds);
    if absolute.rank_exec() >= relative.rank_exec() {
        absolute
    } else {
        relative
    }
}

fn relative_tier(bytes: u64, context: ImpactContext, thresholds: &ImpactThresholds) -> (tier:
    StorageImpactTier)
    ensures
        tier == spec_relative_tier(bytes, context.free_bytes, *thresholds),
{
    let free = match context.free_bytes {
        Some(f) if f > 0 => f,
        _ => return StorageImpactTier::Normal,
    };
    let percent_of_free: u128 = ((bytes as u128) * 100) / (free as u128);
    if percent_of_free >= thresholds.large_free_percent as u128 {
        StorageImpactTier::Large
    } else if percent_of_free >= thresholds.notable_free_percent as u128 {
        StorageImpactTier::Notable
    } else {
        StorageImpactTier::Normal
    }
}

/// The relative scale never lowers a tier: knowing the free space can only
/// keep or raise the tier the absolute thresholds give.
pub proof fn lemma_free_space_only_escalates(bytes: u64, free: Option<u64>, t: ImpactThresholds)
    ensures
        spec_classify_impact(Some(bytes), free, t).rank() >= spec_classify_impact(
            Some(bytes),
            None,
            t,
        ).rank(),
{
}

/// More bytes never give a less notable tier, for the same free space and
/// thresholds.
pub proof fn lemma_tier_monotone_in_bytes(a: u64, b: u64, free: Option<u64>, t: ImpactThresholds)
    requires
        a <= b,
    ensures
        spec_classify_impact(Some(a), free, t).rank() <= spec_classify_impact(
            Some(b),
            free,
            t,
        ).rank(),
{
    if let Some(f) = free {
        if f > 0 {
            vstd::arithmetic::div_mod::lemma_div_is_ordered(a * 100, b * 100, f as int);
        }
    }
}

} // verus!
