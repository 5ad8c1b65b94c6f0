//! Per-layer execution and mutable-state policy.

use crate::text::{decimal, decimal_text};
use vstd::prelude::*;

verus! {

/// Full or exact-window sliding attention.
#[derive(Debug, Clone, Copy, PartialEq, Eq, Hash, Structural)]
pub enum AttentionPolicy {
    /// Attention over the whole prefix.
    Full,
    /// Attention over the last `window` positions.
    Sliding {
        /// Positions visible to one query; never zero in a normalized schedule.
        window: u32,
    },
}

/// How a state-owning layer obtains its attention values.
#[derive(Debug, Clone, Copy, PartialEq, Eq, Hash, Structural)]
pub enum AttentionValueSource {
    /// A separate value projection.
    Projected,
    /// The key projection is reused.
    ReuseKey,
}

/// Ownership, publication, and value topology of one layer's attention state.
#[derive(Debug, Clone, Copy, PartialEq, Eq, Hash, Structural)]
pub enum AttentionStateSource {
    /// State used by this layer alone.
    Local {
        /// Value projection topology.
        value: AttentionValueSource,
    },
    /// State also consumed by later shared layers.
    Publish {
        /// Value projection topology.
        value: AttentionValueSource,
    },
    /// State borrowed from an earlier publisher.
    Shared,
}

impl AttentionStateSource {
    /// Whether the layer owns its attention state.
    pub fn owns_state(self) -> (r: bool)
        ensures
            r == (self !is Shared),
    {
        match self {
            AttentionStateSource::Shared => false,
            _ => true,
        }
    }

    /// Value topology of an owned state.
    pub open spec fn value_spec(self) -> Option<AttentionValueSource> {
        match self {
            AttentionStateSource::Local { value } => Some(value),
            AttentionStateSource::Publish { value } => Some(value),
            AttentionStateSource::Shared => None,
        }
    }

    /// Value topology of an owned state.
    pub fn value(self) -> (r: Option<AttentionValueSource>)
        ensures
            r == self.value_spec(),
    {
        match self {
            AttentionStateSource::Local { value } => Some(value),
            AttentionStateSource::Publish { value } => Some(value),
            AttentionStateSource::Shared => None,
        }
    }
}

/// Feed-forward topology selected for one decoder layer.
#[derive(Debug, Clone, Copy, Eq, Hash, PartialEq, Structural)]
pub enum FeedForwardPolicy {
    /// Dense gated MLP only.
    Dense,
    /// Dense gated MLP plus routed sparse experts.
    DenseWithSparseMoe,
}

/// Complete execution and mutable-state policy for one decoder layer.
#[derive(Debug, Clone, Copy, Eq, Hash, PartialEq, Structural)]
pub struct LayerPolicy {
    /// Full or exact-window sliding attention.
    pub attention: AttentionPolicy,
    /// Query/key/value head width.
    pub head_dim: u32,
    /// Key/value head count.
    pub num_key_value_heads: u32,
    /// State ownership, publication, and value projection topology.
    pub key_value: AttentionStateSource,
    /// Dense MLP intermediate width.
    pub intermediate_size: u32,
    /// Dense-only or dense-plus-sparse topology.
    pub feed_forward: FeedForwardPolicy,
}

/// Component naming an attention policy: `f`, or `s` and the window.
pub open spec fn attention_component(attention: AttentionPolicy) -> Seq<char> {
    match attention {
        AttentionPolicy::Full => "f"@,
        AttentionPolicy::Sliding { window } => "s"@ + decimal(window as nat),
    }
}

/// Component naming a state source.
pub open spec fn state_component(state: AttentionStateSource) -> Seq<char> {
    match state {
        AttentionStateSource::Local { value: AttentionValueSource::Projected } => "lp"@,
        AttentionStateSource::Local { value: AttentionValueSource::ReuseKey } => "lr"@,
        AttentionStateSource::Publish { value: AttentionValueSource::Projected } => "pp"@,
        AttentionStateSource::Publish { value: AttentionValueSource::ReuseKey } => "pr"@,
        AttentionStateSource::Shared => "s"@,
    }
}

/// Component naming a feed-forward topology.
pub open spec fn feed_forward_component(policy: FeedForwardPolicy) -> Seq<char> {
    match policy {
        FeedForwardPolicy::Dense => "d"@,
        FeedForwardPolicy::DenseWithSparseMoe => "m"@,
    }
}

impl LayerPolicy {
    /// Every width is positive and a head holds at least one rotary pair.
    pub open spec fn well_formed(self) -> bool {
        &&& self.head_dim >= 2
        &&& self.num_key_value_heads > 0
        &&& self.intermediate_size > 0
        &&& self.attention matches AttentionPolicy::Sliding { window } ==> window > 0
    }

    /// Text of `fingerprint_component`.
    pub open spec fn component(self) -> Seq<char> {
        attention_component(self.attention) + ":h"@ + decimal(self.head_dim as nat) + ":k"@
            + decimal(self.num_key_value_heads as nat) + ":"@ + state_component(self.key_value)
            + ":i"@ + decimal(self.intermediate_size as nat) + ":"@ + feed_forward_component(
            self.feed_forward,
        )
    }

    /// Stable schedule component used by prompt/cache identity.
    pub fn fingerprint_component(self) -> (r: String)
        ensures
            r@ == self.component(),
    {
        let attention: String = match self.attention {
            AttentionPolicy::Full => "f".to_owned(),
            AttentionPolicy::Sliding { window } => "s".to_owned().concat(
                decimal_text(window as u64).as_str(),
            ),
        };
        let state: &str = match self.key_value {
            AttentionStateSource::Local { value: AttentionValueSource::Projected } => "lp",
            AttentionStateSource::Local { value: AttentionValueSource::ReuseKey } => "lr",
            AttentionStateSource::Publish { value: AttentionValueSource::Projected } => "pp",
            AttentionStateSource::Publish { value: AttentionValueSource::ReuseKey } => "pr",
            AttentionStateSource::Shared => "s",
        };
        let feed_forward: &str = match self.feed_forward {
            FeedForwardPolicy::Dense => "d",
            FeedForwardPolicy::DenseWithSparseMoe => "m",
        };
        attention.concat(":h").concat(decimal_text(self.head_dim as u64).as_str()).concat(
            ":k",
        ).concat(decimal_text(self.num_key_value_heads as u64).as_str()).concat(":").concat(
            state,
        ).concat(":i").concat(decimal_text(self.intermediate_size as u64).as_str()).concat(
            ":",
        ).concat(feed_forward)
    }
}

} // verus!
