//! The classification engine: an ordered, short-circuiting chain of rule
//! categories that turns the difference between two computed style
//! snapshots into a damage value, plus the wrapper pairing that value with
//! a binary changed/unchanged verdict.

use vstd::prelude::*;

use crate::damage::DamageFlag;
use crate::damage::ServoRestyleDamage;
use crate::style::ClassifierConfig;
use crate::style::ComputedStyle;
use crate::style::DamageCategory;
use crate::style::Display;

verus! {

/// The binary change classification consumed by the cascade engine to
/// decide whether further work can be skipped.
#[derive(Clone, Copy, Debug, PartialEq, Eq, Structural)]
pub enum StyleChange {
    /// The two snapshots produced no damage at all.
    Unchanged,
    /// Something changed.
    Changed {
        /// Reserved for a future optimization that would mark changes
        /// confined to non-inherited "reset" style groups; currently
        /// always `false`.
        reset_only: bool,
    },
}

/// The result of classifying one node's restyle: the damage to apply and
/// the binary change verdict.
#[derive(Clone, Copy, Debug, PartialEq, Eq, Structural)]
pub struct StyleDifference {
    /// The set of layout actions the change requires.
    pub damage: ServoRestyleDamage,
    /// Whether anything changed at all.
    pub change: StyleChange,
}

/// Whether some registered property group of category `cat` differs
/// between the two snapshots.
pub open spec fn any_group_differs(
    config: ClassifierConfig,
    old_style: ComputedStyle,
    new_style: ComputedStyle,
    cat: DamageCategory,
) -> bool {
    exists|i: int|
        0 <= i < config.categories@.len() && config.categories@[i] == cat
            && old_style.property_groups@[i] != new_style.property_groups@[i]
}

/// Whether the first or second category of the chain fires: the
/// `original_display` values differ, a registered rebuild group differs,
/// or the new used `display` is `Inline` and an inline-rebuild group
/// differs.
pub open spec fn rebuild_fires(
    config: ClassifierConfig,
    old_style: ComputedStyle,
    new_style: ComputedStyle,
) -> bool {
    ||| old_style.box_style.original_display != new_style.box_style.original_display
    ||| any_group_differs(config, old_style, new_style, DamageCategory::Rebuild)
    ||| (new_style.box_style.display == Display::Inline && any_group_differs(
        config,
        old_style,
        new_style,
        DamageCategory::RebuildInline,
    ))
}

/// Whether the third or fourth category of the chain fires: no rebuild
/// category fired, and a geometry-affecting or out-of-flow group differs.
pub open spec fn reflow_fires(
    config: ClassifierConfig,
    old_style: ComputedStyle,
    new_style: ComputedStyle,
) -> bool {
    &&& !rebuild_fires(config, old_style, new_style)
    &&& {
        ||| any_group_differs(config, old_style, new_style, DamageCategory::Reflow)
        ||| any_group_differs(config, old_style, new_style, DamageCategory::ReflowOutOfFlow)
    }
}

/// Whether the last category of the chain fires: no earlier category
/// fired, and a paint-only group differs. The unconditional
/// custom-property repaint is separate and never short-circuited.
pub open spec fn chain_repaint_fires(
    config: ClassifierConfig,
    old_style: ComputedStyle,
    new_style: ComputedStyle,
) -> bool {
    &&& !rebuild_fires(config, old_style, new_style)
    &&& !reflow_fires(config, old_style, new_style)
    &&& any_group_differs(config, old_style, new_style, DamageCategory::Repaint)
}

/// The damage produced by classifying `old_style` against `new_style`
/// under the registered table `config`: the most severe firing category of
/// the chain, plus an unconditional `Repaint` when the custom-property
/// sets differ. Classification itself never produces `Repair`.
pub open spec fn spec_damage(
    config: ClassifierConfig,
    old_style: ComputedStyle,
    new_style: ComputedStyle,
) -> ServoRestyleDamage {
    ServoRestyleDamage {
        repaint: chain_repaint_fires(config, old_style, new_style) || !old_style.spec_custom_properties_equal(new_style),
        reflow: reflow_fires(config, old_style, new_style),
        repair: false,
        rebuild: rebuild_fires(config, old_style, new_style),
    }
}

/// The change verdict paired with the damage: `Unchanged` exactly when the
/// damage is empty.
pub open spec fn spec_style_change(
    config: ClassifierConfig,
    old_style: ComputedStyle,
    new_style: ComputedStyle,
) -> StyleChange {
    if spec_damage(config, old_style, new_style).spec_is_empty() {
        StyleChange::Unchanged
    } else {
        StyleChange::Changed { reset_only: false }
    }
}

/// Scans the registered table for a group of category `category` whose
/// fingerprints differ between the two snapshots.
fn any_registered_differs(
    config: &ClassifierConfig,
    old_style: &ComputedStyle,
    new_style: &ComputedStyle,
    category: DamageCategory,
) -> (r: bool)
    requires
        old_style.matches_schema(*config),
        new_style.matches_schema(*config),
    ensures
        r == any_group_differs(*config, *old_style, *new_style, category),
{
    let n = config.categories.len();
    let mut i: usize = 0;
    while i < n
        invariant
            n == config.categories@.len(),
            old_style.matches_schema(*config),
            new_style.matches_schema(*config),
            i <= n,
            forall|j: int|
                0 <= j < i ==> !(config.categories@[j] == category
                    && old_style.property_groups@[j] != new_style.property_groups@[j]),
        decreases n - i,
    {
        if config.categories[i] == category && old_style.property_groups[i]
            != new_style.property_groups[i] {
            return true;
        }
        i += 1;
    }
    false
}

/// Classifies the change from `old_style` to `new_style`: evaluates the
/// rule categories in order of severity with short-circuit semantics, then
/// unconditionally adds `Repaint` when the custom-property sets differ,
/// since custom properties can affect paint-time computations that no
/// registered group captures.
pub fn compute_damage(
    config: &ClassifierConfig,
    old_style: &ComputedStyle,
    new_style: &ComputedStyle,
) -> (damage: ServoRestyleDamage)
    requires
        old_style.matches_schema(*config),
        new_style.matches_schema(*config),
    ensures
        damage == spec_damage(*config, *old_style, *new_style),
{
    let mut damage = ServoRestyleDamage::empty();

    if old_style.box_style.original_display != new_style.box_style.original_display
        || any_registered_differs(config, old_style, new_style, DamageCategory::Rebuild) {
        damage.insert(DamageFlag::Rebuild);
    } else if new_style.box_style.display == Display::Inline && any_registered_differs(
        config,
        old_style,
        new_style,
        DamageCategory::RebuildInline,
    ) {
        damage.insert(DamageFlag::Rebuild);
    } else if any_registered_differs(config, old_style, new_style, DamageCategory::Reflow) {
        damage.insert(DamageFlag::Reflow);
    } else if any_registered_differs(config, old_style, new_style, DamageCategory::ReflowOutOfFlow) {
        damage.insert(DamageFlag::Reflow);
    } else if any_registered_differs(config, old_style, new_style, DamageCategory::Repaint) {
        damage.insert(DamageFlag::Repaint);
    }

    if !old_style.custom_properties_equal(new_style) {
        damage.insert(DamageFlag::Repaint);
    }
    damage
}

impl ServoRestyleDamage {
    /// Computes the `StyleDifference` (damage and change verdict) for the
    /// style change from `old_style` to `new_style`.
    pub fn compute_style_difference(
        config: &ClassifierConfig,
        old_style: &ComputedStyle,
        new_style: &ComputedStyle,
    ) -> (diff: StyleDifference)
        requires
            old_style.matches_schema(*config),
            new_style.matches_schema(*config),
        ensures
            diff.damage == spec_damage(*config, *old_style, *new_style),
            diff.change == spec_style_change(*config, *old_style, *new_style),
    {
        let damage = compute_damage(config, old_style, new_style);
        let change = if damage.is_empty() {
            StyleChange::Unchanged
        } else {
            StyleChange::Changed { reset_only: false }
        };
        StyleDifference { damage, change }
    }
}

/// Classifying a snapshot against itself yields no damage and an
/// `Unchanged` verdict.
pub proof fn lemma_same_style_no_damage(config: ClassifierConfig, x: ComputedStyle)
    ensures
        spec_damage(config, x, x).spec_is_empty(),
        spec_style_change(config, x, x) == StyleChange::Unchanged,
{
    assert(!any_group_differs(config, x, x, DamageCategory::Rebuild));
    assert(!any_group_differs(config, x, x, DamageCategory::RebuildInline));
    assert(!any_group_differs(config, x, x, DamageCategory::Reflow));
    assert(!any_group_differs(config, x, x, DamageCategory::ReflowOutOfFlow));
    assert(!any_group_differs(config, x, x, DamageCategory::Repaint));
}

/// The change verdict is `Unchanged` exactly when the damage is empty.
pub proof fn lemma_unchanged_iff_no_damage(
    config: ClassifierConfig,
    old_style: ComputedStyle,
    new_style: ComputedStyle,
)
    ensures
        (spec_style_change(config, old_style, new_style) == StyleChange::Unchanged)
            <==> spec_damage(config, old_style, new_style).spec_is_empty(),
{
}

/// When classification produces `Rebuild`, the classified node's box
/// subtree will be changed.
pub proof fn lemma_rebuild_changes_box_subtree(
    config: ClassifierConfig,
    old_style: ComputedStyle,
    new_style: ComputedStyle,
)
    ensures
        spec_damage(config, old_style, new_style).spec_contains(DamageFlag::Rebuild)
            ==> spec_damage(config, old_style, new_style).spec_will_change_box_subtree(),
{
}

/// A custom-property difference forces `Repaint` into the result, no
/// matter which category of the chain fired.
pub proof fn lemma_custom_property_change_repaints(
    config: ClassifierConfig,
    old_style: ComputedStyle,
    new_style: ComputedStyle,
)
    requires
        !old_style.spec_custom_properties_equal(new_style),
    ensures
        spec_damage(config, old_style, new_style).spec_contains(DamageFlag::Repaint),
{
}

/// The short-circuit discipline keeps `Rebuild` and `Reflow` mutually
/// exclusive: no classification produces both, and none produces
/// `Repair` at all.
pub proof fn lemma_rebuild_reflow_exclusive(
    config: ClassifierConfig,
    old_style: ComputedStyle,
    new_style: ComputedStyle,
)
    ensures
        !(spec_damage(config, old_style, new_style).spec_contains(DamageFlag::Rebuild)
            && spec_damage(config, old_style, new_style).spec_contains(DamageFlag::Reflow)),
        !spec_damage(config, old_style, new_style).spec_contains(DamageFlag::Repair),
{
}

} // verus!
