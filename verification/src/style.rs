//! The classifier's view of a computed style snapshot, and the registered
//! table of property-group predicates that drives classification.
//!
//! The cascade engine that produces full computed styles is an outside
//! collaborator. The classifier reads only three things from a snapshot: the
//! box style's `display` and `original_display` values, a canonical encoding
//! of the custom-property set (compared for equality only), and one opaque
//! fingerprint per registered property group (compared for inequality only).
//! The catalog that says which property group feeds which damage category is
//! supplied by the caller as an explicit, immutable configuration value.

use vstd::prelude::*;

verus! {

/// The computed value of the CSS `display` property, as far as the
/// classifier reads it. Only `Inline` is treated specially; the others are
/// distinguished solely by equality.
#[derive(Clone, Copy, Debug, PartialEq, Eq, Structural)]
pub enum Display {
    /// `display: inline`, the one value with its own rebuild rule.
    Inline,
    /// `display: block`.
    Block,
    /// `display: inline-block`.
    InlineBlock,
    /// `display: flex`.
    Flex,
    /// `display: table`.
    Table,
    /// `display: none`: the element generates no boxes.
    NoBox,
}

/// The box-style group of a computed style, reduced to the two display
/// values the classifier reads.
#[derive(Clone, Copy, Debug, PartialEq, Eq, Structural)]
pub struct BoxStyle {
    /// The used `display` value.
    pub display: Display,
    /// The specified `display` value before overrides were applied.
    pub original_display: Display,
}

/// A computed style snapshot, reduced to what the classifier reads.
#[derive(Clone, Debug, PartialEq, Eq)]
pub struct ComputedStyle {
    /// The box-style group.
    pub box_style: BoxStyle,
    /// One opaque fingerprint per registered property group, in the order
    /// of `ClassifierConfig::categories`. Two snapshots agree on a group
    /// exactly when the fingerprints at its index are equal.
    pub property_groups: Vec<u64>,
    /// A canonical encoding of the snapshot's custom-property set. Two
    /// snapshots have equal custom-property sets exactly when these
    /// sequences are equal.
    pub custom_properties: Vec<u64>,
}

/// One of the damage categories that registered property-group predicates
/// can feed. Only the two display reads and the custom-property equality
/// check are structural; every other comparison of the chain is an entry
/// of this table.
#[derive(Clone, Copy, Debug, PartialEq, Eq, Structural)]
pub enum DamageCategory {
    /// Comparisons over groups whose change always rebuilds the box (the
    /// table layout strategy, for one); a difference rebuilds no matter
    /// what the `display` values are. These entries are evaluated with the
    /// `original_display` comparison, in the first category of the chain.
    Rebuild,
    /// Comparisons over inline-layout-relevant groups; a difference rebuilds
    /// the box, but only when the new used `display` is `Inline`.
    RebuildInline,
    /// Comparisons over geometry-affecting groups; a difference reflows.
    Reflow,
    /// Comparisons relevant only to absolutely positioned or floated boxes;
    /// a difference reflows.
    ReflowOutOfFlow,
    /// Comparisons over paint-only groups; a difference repaints.
    Repaint,
}

/// The registered, categorized table of property-group predicates: entry
/// `i` compares the two snapshots' group-`i` fingerprints for inequality
/// and, when they differ, votes for `categories[i]`. The table is built
/// once from the outside property catalog and passed into the classifier.
#[derive(Clone, Debug, PartialEq, Eq)]
pub struct ClassifierConfig {
    /// The damage category of each registered property group.
    pub categories: Vec<DamageCategory>,
}

impl ComputedStyle {
    /// Whether the two snapshots have equal custom-property sets.
    pub open spec fn spec_custom_properties_equal(self, other: ComputedStyle) -> bool {
        self.custom_properties@ == other.custom_properties@
    }

    /// Whether this snapshot's property-group schema matches the registered
    /// table. Both snapshots handed to the classifier must match the same
    /// table; that is a caller invariant of the outside cascade engine.
    pub open spec fn matches_schema(self, config: ClassifierConfig) -> bool {
        self.property_groups@.len() == config.categories@.len()
    }

    /// Compares the two snapshots' custom-property sets for equality.
    pub fn custom_properties_equal(&self, other: &ComputedStyle) -> (r: bool)
        ensures
            r == self.spec_custom_properties_equal(*other),
    {
        if self.custom_properties.len() != other.custom_properties.len() {
            return false;
        }
        let n = self.custom_properties.len();
        let mut i: usize = 0;
        while i < n
            invariant
                n == self.custom_properties@.len(),
                n == other.custom_properties@.len(),
                i <= n,
                forall|j: int| 0 <= j < i ==> self.custom_properties@[j] == other.custom_properties@[j],
            decreases n - i,
        {
            if self.custom_properties[i] != other.custom_properties[i] {
                return false;
            }
            i += 1;
        }
        proof {
            assert(self.custom_properties@ =~= other.custom_properties@);
        }
        true
    }
}

} // verus!
