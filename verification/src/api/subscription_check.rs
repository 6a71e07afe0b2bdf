//! Subscription tiers and what each of them unlocks.

use vstd::prelude::*;
use vstd::string::*;
use crate::error::AppError;
use crate::text::str_eq;

verus! {

/// A subscription tier. Premium is above Basic, Basic above Free.
#[derive(Debug, Clone, Copy, PartialEq, Eq, Structural)]
pub enum SubscriptionTier {
    Free,
    Basic,
    Premium,
}

impl SubscriptionTier {
    /// The place of the tier in the order of tiers.
    pub open spec fn rank(self) -> nat {
        match self {
            SubscriptionTier::Free => 0,
            SubscriptionTier::Basic => 1,
            SubscriptionTier::Premium => 2,
        }
    }

    /// The name under which the tier is stored.
    pub open spec fn name(self) -> Seq<char> {
        match self {
            SubscriptionTier::Free => "free"@,
            SubscriptionTier::Basic => "basic"@,
            SubscriptionTier::Premium => "premium"@,
        }
    }

    /// The tier of a stored name; every unknown name is Free.
    pub open spec fn named(name: Seq<char>) -> SubscriptionTier {
        if name == "basic"@ {
            SubscriptionTier::Basic
        } else if name == "premium"@ {
            SubscriptionTier::Premium
        } else {
            SubscriptionTier::Free
        }
    }

    /// The name under which the tier is stored.
    pub fn as_str(&self) -> (s: &'static str)
        ensures
            s@ == self.name(),
    {
        match self {
            SubscriptionTier::Free => "free",
            SubscriptionTier::Basic => "basic",
            SubscriptionTier::Premium => "premium",
        }
    }

    /// The tier of a stored name; every unknown name is Free.
    pub fn from_str(s: &str) -> (tier: SubscriptionTier)
        ensures
            tier == SubscriptionTier::named(s@),
    {
        if str_eq(s, "basic") {
            SubscriptionTier::Basic
        } else if str_eq(s, "premium") {
            SubscriptionTier::Premium
        } else {
            SubscriptionTier::Free
        }
    }

    /// Whether this tier is at least the required one.
    pub fn meets_requirement(&self, required: SubscriptionTier) -> (ok: bool)
        ensures
            ok == (self.rank() >= required.rank()),
    {
        match required {
            SubscriptionTier::Free => true,
            SubscriptionTier::Basic => match self {
                SubscriptionTier::Basic | SubscriptionTier::Premium => true,
                SubscriptionTier::Free => false,
            },
            SubscriptionTier::Premium => match self {
                SubscriptionTier::Premium => true,
                _ => false,
            },
        }
    }
}

/// An instant: whole seconds since the epoch, and the nanoseconds of the
/// second that has begun.
#[derive(Debug, Clone, Copy, PartialEq, Eq, Structural)]
pub struct Instant {
    pub seconds: i64,
    pub nanos: u32,
}

impl Instant {
    /// Whether this instant lies after the other.
    pub open spec fn is_after(self, other: Instant) -> bool {
        self.seconds > other.seconds || (self.seconds == other.seconds && self.nanos > other.nanos)
    }

    /// Whether this instant lies after the other.
    pub fn after(&self, other: &Instant) -> (r: bool)
        ensures
            r == self.is_after(*other),
    {
        self.seconds > other.seconds || (self.seconds == other.seconds && self.nanos > other.nanos)
    }
}

/// The instant that `chrono::DateTime::parse_from_rfc3339` reads from a
/// text, or `None` where it reports an error.
pub uninterp spec fn rfc3339_instant(text: Seq<char>) -> Option<Instant>;

/// Calls `chrono::DateTime::parse_from_rfc3339`, and `timestamp` and
/// `timestamp_subsec_nanos` on what it gives. The contract claims only that
/// the result is a function of the text.
#[verifier::external_body]
fn parse_rfc3339(text: &str) -> (r: Option<Instant>)
    ensures
        r == rfc3339_instant(text@),
{
    let t = chrono::DateTime::parse_from_rfc3339(text).ok()?;
    Some(Instant { seconds: t.timestamp(), nanos: t.timestamp_subsec_nanos() })
}

/// The tier that a stored subscription gives at `now`: its own tier while
/// its status is "active" and its expiry, a readable instant, lies after
/// `now`; Free in every other case.
pub open spec fn tier_at(
    tier: Seq<char>,
    status: Seq<char>,
    expires_at: Seq<char>,
    now: Instant,
) -> SubscriptionTier {
    if status == "active"@ && rfc3339_instant(expires_at) is Some && rfc3339_instant(
        expires_at,
    ).unwrap().is_after(now) {
        SubscriptionTier::named(tier)
    } else {
        SubscriptionTier::Free
    }
}

/// The tier that a stored subscription gives at `now`. Both the status and
/// the expiry are checked: neither alone keeps a paid tier.
pub fn active_tier(tier: &str, status: &str, expires_at: &str, now: Instant) -> (r:
    SubscriptionTier)
    ensures
        r == tier_at(tier@, status@, expires_at@, now),
{
    if !str_eq(status, "active") {
        return SubscriptionTier::Free;
    }
    match parse_rfc3339(expires_at) {
        Some(expiry) => if expiry.after(&now) {
            SubscriptionTier::from_str(tier)
        } else {
            SubscriptionTier::Free
        },
        None => SubscriptionTier::Free,
    }
}

/// The tier of a user without a stored subscription, or with one that
/// lacks a field: a missing tier counts as "free", a missing status as
/// "expired", a missing expiry as unreadable.
pub fn get_user_tier(
    tier: Option<&str>,
    status: Option<&str>,
    expires_at: Option<&str>,
    now: Instant,
) -> (r: SubscriptionTier)
    ensures
        r == tier_at(
            match tier {
                Some(t) => t@,
                None => "free"@,
            },
            match status {
                Some(s) => s@,
                None => "expired"@,
            },
            match expires_at {
                Some(e) => e@,
                None => ""@,
            },
            now,
        ),
{
    let tier = match tier {
        Some(t) => t,
        None => "free",
    };
    let status = match status {
        Some(s) => s,
        None => "expired",
    };
    let expires_at = match expires_at {
        Some(e) => e,
        None => "",
    };
    active_tier(tier, status, expires_at, now)
}

/// The plan that a requirement is worded with.
pub open spec fn plan_name(required: SubscriptionTier) -> Seq<char> {
    match required {
        SubscriptionTier::Basic => "ベーシックプラン"@,
        SubscriptionTier::Premium => "プレミアムプラン"@,
        SubscriptionTier::Free => ""@,
    }
}

/// Lets a feature be used by a user whose tier is at least the required
/// one, and forbids it to every other, naming the feature and the plan.
pub fn require_subscription(
    current: SubscriptionTier,
    required: SubscriptionTier,
    feature_name: &str,
) -> (r: Result<(), AppError>)
    ensures
        r is Ok <==> current.rank() >= required.rank(),
        r matches Err(e) ==> e matches AppError::Forbidden(m) && m@ == feature_name@
            + " を使用するには"@ + plan_name(required) + " 以上が必要です"@,
{
    if current.meets_requirement(required) {
        return Ok(());
    }
    let plan = match required {
        SubscriptionTier::Basic => "ベーシックプラン",
        SubscriptionTier::Premium => "プレミアムプラン",
        SubscriptionTier::Free => { return Ok(()); },
    };
    let message = feature_name.to_owned().concat(" を使用するには").concat(plan).concat(
        " 以上が必要です",
    );
    Err(AppError::Forbidden(message))
}

/// A tier is read back from its own name.
pub proof fn lemma_name_round_trip(tier: SubscriptionTier)
    ensures
        SubscriptionTier::named(tier.name()) == tier,
{
    reveal_strlit("free");
    reveal_strlit("basic");
    reveal_strlit("premium");
    assert("free"@.len() == 4 && "basic"@.len() == 5 && "premium"@.len() == 7);
}

} // verus!
