//! The restyle damage value: a small fixed-cardinality set of layout
//! actions, with the propagation rules applied while walking the layout
//! tree.

use vstd::prelude::*;

verus! {

/// One individual layout action that may be necessary after restyling.
#[derive(Clone, Copy, Debug, PartialEq, Eq, Structural)]
pub enum DamageFlag {
    /// Repaint the node's pixels. Propagates both up and down the tree.
    Repaint,
    /// Recompute the node's geometry. Propagates both up and down the tree.
    Reflow,
    /// Repair the node's layout-object subtree, because a descendant was
    /// rebuilt or removed. Propagates up the tree only.
    Repair,
    /// Rebuild the node's layout objects from scratch. Propagates up the
    /// tree only, turning into `Repair` at each ancestor.
    Rebuild,
}

/// A value-semantics set of `DamageFlag`s. The empty value means "no work
/// needed". Every combination of flags is a valid damage value, so the four
/// memberships are plain public fields.
#[derive(Clone, Copy, Debug, PartialEq, Eq, Structural)]
pub struct ServoRestyleDamage {
    /// Whether `Repaint` is in the set.
    pub repaint: bool,
    /// Whether `Reflow` is in the set.
    pub reflow: bool,
    /// Whether `Repair` is in the set.
    pub repair: bool,
    /// Whether `Rebuild` is in the set.
    pub rebuild: bool,
}

impl ServoRestyleDamage {
    /// Whether `f` is a member of this damage set.
    pub open spec fn spec_contains(self, f: DamageFlag) -> bool {
        match f {
            DamageFlag::Repaint => self.repaint,
            DamageFlag::Reflow => self.reflow,
            DamageFlag::Repair => self.repair,
            DamageFlag::Rebuild => self.rebuild,
        }
    }

    /// The damage set with no members.
    pub open spec fn spec_empty() -> ServoRestyleDamage {
        ServoRestyleDamage { repaint: false, reflow: false, repair: false, rebuild: false }
    }

    /// Whether the set has no members.
    pub open spec fn spec_is_empty(self) -> bool {
        self == ServoRestyleDamage::spec_empty()
    }

    /// `self` with `f` added.
    pub open spec fn spec_insert(self, f: DamageFlag) -> ServoRestyleDamage {
        match f {
            DamageFlag::Repaint => ServoRestyleDamage { repaint: true, ..self },
            DamageFlag::Reflow => ServoRestyleDamage { reflow: true, ..self },
            DamageFlag::Repair => ServoRestyleDamage { repair: true, ..self },
            DamageFlag::Rebuild => ServoRestyleDamage { rebuild: true, ..self },
        }
    }

    /// `self` with `f` taken out.
    pub open spec fn spec_remove(self, f: DamageFlag) -> ServoRestyleDamage {
        match f {
            DamageFlag::Repaint => ServoRestyleDamage { repaint: false, ..self },
            DamageFlag::Reflow => ServoRestyleDamage { reflow: false, ..self },
            DamageFlag::Repair => ServoRestyleDamage { repair: false, ..self },
            DamageFlag::Rebuild => ServoRestyleDamage { rebuild: false, ..self },
        }
    }

    /// Whether `self` and `other` share a member.
    pub open spec fn spec_intersects(self, other: ServoRestyleDamage) -> bool {
        exists|f: DamageFlag| self.spec_contains(f) && other.spec_contains(f)
    }

    /// Returns the empty damage value: no work needed.
    pub fn empty() -> (r: ServoRestyleDamage)
        ensures
            r == ServoRestyleDamage::spec_empty(),
    {
        ServoRestyleDamage { repaint: false, reflow: false, repair: false, rebuild: false }
    }

    /// Adds `flag` to the set; all other memberships are unchanged.
    pub fn insert(&mut self, flag: DamageFlag)
        ensures
            *final(self) == old(self).spec_insert(flag),
            forall|g: DamageFlag|
                final(self).spec_contains(g) == (old(self).spec_contains(g) || g == flag),
    {
        match flag {
            DamageFlag::Repaint => self.repaint = true,
            DamageFlag::Reflow => self.reflow = true,
            DamageFlag::Repair => self.repair = true,
            DamageFlag::Rebuild => self.rebuild = true,
        }
    }

    /// Takes `flag` out of the set; all other memberships are unchanged.
    pub fn remove(&mut self, flag: DamageFlag)
        ensures
            *final(self) == old(self).spec_remove(flag),
            forall|g: DamageFlag|
                final(self).spec_contains(g) == (old(self).spec_contains(g) && g != flag),
    {
        match flag {
            DamageFlag::Repaint => self.repaint = false,
            DamageFlag::Reflow => self.reflow = false,
            DamageFlag::Repair => self.repair = false,
            DamageFlag::Rebuild => self.rebuild = false,
        }
    }

    /// Whether `flag` is a member of the set.
    pub fn contains(&self, flag: DamageFlag) -> (r: bool)
        ensures
            r == self.spec_contains(flag),
    {
        match flag {
            DamageFlag::Repaint => self.repaint,
            DamageFlag::Reflow => self.reflow,
            DamageFlag::Repair => self.repair,
            DamageFlag::Rebuild => self.rebuild,
        }
    }

    /// Whether `self` and `other` share a member.
    pub fn intersects(&self, other: ServoRestyleDamage) -> (r: bool)
        ensures
            r == self.spec_intersects(other),
    {
        let r = (self.repaint && other.repaint) || (self.reflow && other.reflow) || (self.repair
            && other.repair) || (self.rebuild && other.rebuild);
        proof {
            if r {
                if self.repaint && other.repaint {
                    assert(self.spec_contains(DamageFlag::Repaint));
                } else if self.reflow && other.reflow {
                    assert(self.spec_contains(DamageFlag::Reflow));
                } else if self.repair && other.repair {
                    assert(self.spec_contains(DamageFlag::Repair));
                } else {
                    assert(self.spec_contains(DamageFlag::Rebuild));
                }
            }
            if self.spec_intersects(other) {
                let f = choose|f: DamageFlag| self.spec_contains(f) && other.spec_contains(f);
                assert(r) by {
                    match f {
                        DamageFlag::Repaint => {},
                        DamageFlag::Reflow => {},
                        DamageFlag::Repair => {},
                        DamageFlag::Rebuild => {},
                    }
                }
            }
        }
        r
    }

    /// Whether the set has no members.
    pub fn is_empty(&self) -> (r: bool)
        ensures
            r == self.spec_is_empty(),
    {
        !self.repaint && !self.reflow && !self.repair && !self.rebuild
    }

    /// Whether the node's box subtree will be changed: the set shares a
    /// member with `{Repair, Rebuild}`.
    pub open spec fn spec_will_change_box_subtree(self) -> bool {
        self.repair || self.rebuild
    }

    /// The damage a parent should additionally carry for this node's
    /// damage: `Rebuild` turns into `Repair`, everything else passes
    /// through. An ancestor of a rebuilt node needs only a local repair of
    /// its reference to the changed subtree, not a reconstruction of its
    /// own.
    pub open spec fn spec_propagate_up(self) -> ServoRestyleDamage {
        ServoRestyleDamage {
            repaint: self.repaint,
            reflow: self.reflow,
            repair: self.repair || self.rebuild,
            rebuild: false,
        }
    }

    /// The damage a child should additionally carry for this node's
    /// damage: `Repair` and `Rebuild` are dropped, `Repaint` and `Reflow`
    /// pass through. Structural damage is local to the node where the
    /// structural change happened; geometry and paint damage must reach
    /// descendants.
    pub open spec fn spec_propagate_down(self) -> ServoRestyleDamage {
        ServoRestyleDamage {
            repaint: self.repaint,
            reflow: self.reflow,
            repair: false,
            rebuild: false,
        }
    }

    /// The mask of the two flags that change the node's box subtree.
    fn change_box_subtree() -> (r: ServoRestyleDamage)
        ensures
            r == (ServoRestyleDamage {
                repaint: false,
                reflow: false,
                repair: true,
                rebuild: true,
            }),
    {
        ServoRestyleDamage { repaint: false, reflow: false, repair: true, rebuild: true }
    }

    /// Returns whether the node's box subtree will be changed.
    pub fn will_change_box_subtree(&self) -> (r: bool)
        ensures
            r == self.spec_will_change_box_subtree(),
    {
        let mask = ServoRestyleDamage::change_box_subtree();
        let r = self.intersects(mask);
        proof {
            if self.repair {
                assert(self.spec_contains(DamageFlag::Repair) && mask.spec_contains(
                    DamageFlag::Repair,
                ));
            }
            if self.rebuild {
                assert(self.spec_contains(DamageFlag::Rebuild) && mask.spec_contains(
                    DamageFlag::Rebuild,
                ));
            }
            if self.spec_intersects(mask) {
                let f = choose|f: DamageFlag| self.spec_contains(f) && mask.spec_contains(f);
                assert(self.repair || self.rebuild) by {
                    match f {
                        DamageFlag::Repaint => {},
                        DamageFlag::Reflow => {},
                        DamageFlag::Repair => {},
                        DamageFlag::Rebuild => {},
                    }
                }
            }
        }
        r
    }

    /// Returns the damage appropriate for the parent of the current
    /// element. The result never contains `Rebuild`, and it never holds a
    /// flag the input did not justify: `Repaint` and `Reflow` are neither
    /// introduced nor dropped.
    pub fn propagate_up_damage(&self) -> (r: ServoRestyleDamage)
        ensures
            r == self.spec_propagate_up(),
            !r.spec_contains(DamageFlag::Rebuild),
            r.spec_contains(DamageFlag::Repaint) == self.spec_contains(DamageFlag::Repaint),
            r.spec_contains(DamageFlag::Reflow) == self.spec_contains(DamageFlag::Reflow),
            r.spec_contains(DamageFlag::Repair) == (self.spec_contains(DamageFlag::Repair)
                || self.spec_contains(DamageFlag::Rebuild)),
    {
        let mut propagated_damage = *self;
        if self.contains(DamageFlag::Rebuild) {
            propagated_damage.remove(DamageFlag::Rebuild);
            propagated_damage.insert(DamageFlag::Repair);
        }
        propagated_damage
    }

    /// Returns the damage appropriate for the children of the current
    /// element. The result never contains `Repair` or `Rebuild`; `Repaint`
    /// and `Reflow` pass through unchanged.
    pub fn propagate_down_damage(&self) -> (r: ServoRestyleDamage)
        ensures
            r == self.spec_propagate_down(),
            !r.spec_contains(DamageFlag::Repair),
            !r.spec_contains(DamageFlag::Rebuild),
            r.spec_contains(DamageFlag::Repaint) == self.spec_contains(DamageFlag::Repaint),
            r.spec_contains(DamageFlag::Reflow) == self.spec_contains(DamageFlag::Reflow),
    {
        let mut propagated_damage = *self;
        propagated_damage.remove(DamageFlag::Repair);
        propagated_damage.remove(DamageFlag::Rebuild);
        propagated_damage
    }

    /// Returns the damage value saying that the node's box subtree needs
    /// to be repaired.
    pub fn repair() -> (r: ServoRestyleDamage)
        ensures
            r == ServoRestyleDamage::spec_empty().spec_insert(DamageFlag::Repair),
    {
        ServoRestyleDamage { repaint: false, reflow: false, repair: true, rebuild: false }
    }

    /// Returns the damage value saying that the node's layout objects need
    /// to be reconstructed.
    pub fn reconstruct() -> (r: ServoRestyleDamage)
        ensures
            r == ServoRestyleDamage::spec_empty().spec_insert(DamageFlag::Rebuild),
    {
        ServoRestyleDamage { repaint: false, reflow: false, repair: false, rebuild: true }
    }
}

/// The given name parts joined by `" | "`, in order; empty when there are
/// no parts.
pub open spec fn spec_join(parts: Seq<Seq<char>>) -> Seq<char>
    decreases parts.len(),
{
    if parts.len() == 0 {
        Seq::<char>::empty()
    } else if parts.len() == 1 {
        parts[0]
    } else {
        parts[0] + " | "@ + spec_join(parts.drop_first())
    }
}

/// Joining one more name onto a part list appends a separator exactly when
/// the list was not empty.
proof fn lemma_join_push(parts: Seq<Seq<char>>, name: Seq<char>)
    ensures
        parts.len() == 0 ==> spec_join(parts.push(name)) == name,
        parts.len() > 0 ==> spec_join(parts.push(name)) == spec_join(parts) + " | "@ + name,
    decreases parts.len(),
{
    if parts.len() == 0 {
        assert(parts.push(name)[0] == name);
    } else if parts.len() == 1 {
        assert(parts.push(name).drop_first() =~= seq![name]);
        assert(spec_join(seq![name]) == name);
    } else {
        lemma_join_push(parts.drop_first(), name);
        assert(parts.push(name).drop_first() =~= parts.drop_first().push(name));
        assert(parts.push(name)[0] == parts[0]);
    }
}

impl ServoRestyleDamage {
    /// The names of the present flags, in the fixed rendering order
    /// `[Repaint, Reflow, Repair, Rebuild]`.
    pub open spec fn spec_text_parts(self) -> Seq<Seq<char>> {
        (if self.repaint {
            seq!["Repaint"@]
        } else {
            Seq::<Seq<char>>::empty()
        }) + (if self.reflow {
            seq!["Reflow"@]
        } else {
            Seq::<Seq<char>>::empty()
        }) + (if self.repair {
            seq!["Repair"@]
        } else {
            Seq::<Seq<char>>::empty()
        }) + (if self.rebuild {
            seq!["Rebuild"@]
        } else {
            Seq::<Seq<char>>::empty()
        })
    }

    /// The stable textual rendering: the present flag names in fixed order
    /// joined by `" | "`, or the literal `"NoDamage"` for the empty set.
    pub open spec fn spec_text(self) -> Seq<char> {
        if self.spec_is_empty() {
            "NoDamage"@
        } else {
            spec_join(self.spec_text_parts())
        }
    }

    /// Renders the damage value in its stable textual form, used for
    /// diagnostics and snapshot comparisons. The flag order is a contract
    /// and must not change.
    pub fn to_text(&self) -> (r: String)
        ensures
            r@ == self.spec_text(),
    {
        let mut rendered = String::new();
        let mut first = true;
        let ghost mut parts: Seq<Seq<char>> = Seq::<Seq<char>>::empty();

        if self.contains(DamageFlag::Repaint) {
            rendered.append("Repaint");
            first = false;
            proof {
                lemma_join_push(parts, "Repaint"@);
                parts = parts.push("Repaint"@);
            }
        }
        if self.contains(DamageFlag::Reflow) {
            if !first {
                rendered.append(" | ");
            }
            rendered.append("Reflow");
            first = false;
            proof {
                lemma_join_push(parts, "Reflow"@);
                parts = parts.push("Reflow"@);
            }
        }
        if self.contains(DamageFlag::Repair) {
            if !first {
                rendered.append(" | ");
            }
            rendered.append("Repair");
            first = false;
            proof {
                lemma_join_push(parts, "Repair"@);
                parts = parts.push("Repair"@);
            }
        }
        if self.contains(DamageFlag::Rebuild) {
            if !first {
                rendered.append(" | ");
            }
            rendered.append("Rebuild");
            first = false;
            proof {
                lemma_join_push(parts, "Rebuild"@);
                parts = parts.push("Rebuild"@);
            }
        }

        if first {
            rendered.append("NoDamage");
        }
        proof {
            assert(parts =~= self.spec_text_parts());
        }
        rendered
    }
}

/// Upward propagation is idempotent: folding a node's damage into its
/// grandparent through two `propagate_up` steps adds nothing beyond one
/// step.
pub proof fn lemma_propagate_up_idempotent(d: ServoRestyleDamage)
    ensures
        d.spec_propagate_up().spec_propagate_up() == d.spec_propagate_up(),
{
}

/// Downward propagation is idempotent: handing a parent's damage down two
/// levels adds nothing beyond one step.
pub proof fn lemma_propagate_down_idempotent(d: ServoRestyleDamage)
    ensures
        d.spec_propagate_down().spec_propagate_down() == d.spec_propagate_down(),
{
}

impl Default for ServoRestyleDamage {
    /// The default damage value is the empty set.
    fn default() -> (r: ServoRestyleDamage)
        ensures
            r == ServoRestyleDamage::spec_empty(),
    {
        ServoRestyleDamage::empty()
    }
}

} // verus!
