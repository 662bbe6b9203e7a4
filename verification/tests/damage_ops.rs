use restyle_damage::damage::DamageFlag;
use restyle_damage::damage::ServoRestyleDamage;

fn damage(repaint: bool, reflow: bool, repair: bool, rebuild: bool) -> ServoRestyleDamage {
    ServoRestyleDamage { repaint, reflow, repair, rebuild }
}

fn all_values() -> Vec<ServoRestyleDamage> {
    let mut values = Vec::new();
    for bits in 0u8..16 {
        values.push(damage(bits & 1 != 0, bits & 2 != 0, bits & 4 != 0, bits & 8 != 0));
    }
    values
}

#[test]
fn test_empty_is_empty() {
    let d = ServoRestyleDamage::empty();
    assert!(d.is_empty());
    assert!(!d.contains(DamageFlag::Repaint));
    assert!(!d.contains(DamageFlag::Reflow));
    assert!(!d.contains(DamageFlag::Repair));
    assert!(!d.contains(DamageFlag::Rebuild));
    assert_eq!(ServoRestyleDamage::default(), d);
}

#[test]
fn test_insert_and_contains() {
    let mut d = ServoRestyleDamage::empty();
    d.insert(DamageFlag::Reflow);
    assert!(d.contains(DamageFlag::Reflow));
    assert!(!d.contains(DamageFlag::Repaint));
    assert!(!d.is_empty());
    d.insert(DamageFlag::Repaint);
    assert!(d.contains(DamageFlag::Repaint));
    assert!(d.contains(DamageFlag::Reflow));
    assert_eq!(d, damage(true, true, false, false));
}

#[test]
fn test_remove() {
    let mut d = damage(true, true, false, true);
    d.remove(DamageFlag::Rebuild);
    assert_eq!(d, damage(true, true, false, false));
    d.remove(DamageFlag::Repair);
    assert_eq!(d, damage(true, true, false, false));
}

#[test]
fn test_intersects() {
    let paint = damage(true, false, false, false);
    let structural = damage(false, false, true, true);
    assert!(!paint.intersects(structural));
    assert!(structural.intersects(ServoRestyleDamage::repair()));
    assert!(structural.intersects(ServoRestyleDamage::reconstruct()));
    assert!(!ServoRestyleDamage::empty().intersects(paint));
}

#[test]
fn test_will_change_box_subtree() {
    assert!(ServoRestyleDamage::repair().will_change_box_subtree());
    assert!(ServoRestyleDamage::reconstruct().will_change_box_subtree());
    assert!(!damage(true, true, false, false).will_change_box_subtree());
    assert!(!ServoRestyleDamage::empty().will_change_box_subtree());
}

#[test]
fn test_propagate_up_rebuild_becomes_repair() {
    let up = ServoRestyleDamage::reconstruct().propagate_up_damage();
    assert_eq!(up, ServoRestyleDamage::repair());
}

#[test]
fn test_propagate_up_passes_other_flags_through() {
    let d = damage(true, true, true, false);
    assert_eq!(d.propagate_up_damage(), d);
    let d = damage(true, false, false, true);
    assert_eq!(d.propagate_up_damage(), damage(true, false, true, false));
}

#[test]
fn test_propagate_up_never_rebuilds() {
    for d in all_values() {
        assert!(!d.propagate_up_damage().contains(DamageFlag::Rebuild));
    }
}

#[test]
fn test_propagate_down_drops_structural_damage() {
    let d = damage(false, true, true, false);
    assert_eq!(d.propagate_down_damage(), damage(false, true, false, false));
    for d in all_values() {
        let down = d.propagate_down_damage();
        assert!(!down.contains(DamageFlag::Repair));
        assert!(!down.contains(DamageFlag::Rebuild));
        assert_eq!(down.contains(DamageFlag::Repaint), d.contains(DamageFlag::Repaint));
        assert_eq!(down.contains(DamageFlag::Reflow), d.contains(DamageFlag::Reflow));
    }
}

#[test]
fn test_propagation_is_idempotent() {
    for d in all_values() {
        let up = d.propagate_up_damage();
        assert_eq!(up.propagate_up_damage(), up);
        let down = d.propagate_down_damage();
        assert_eq!(down.propagate_down_damage(), down);
    }
}

#[test]
fn test_text_rendering() {
    assert_eq!(ServoRestyleDamage::empty().to_text(), "NoDamage");
    assert_eq!(damage(true, false, false, true).to_text(), "Repaint | Rebuild");
    assert_eq!(damage(true, true, true, true).to_text(), "Repaint | Reflow | Repair | Rebuild");
    assert_eq!(damage(false, true, false, false).to_text(), "Reflow");
    assert_eq!(ServoRestyleDamage::repair().to_text(), "Repair");
    assert_eq!(damage(false, true, true, false).to_text(), "Reflow | Repair");
}
