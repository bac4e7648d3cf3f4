use render_levels::settings::Levels;

#[test]
fn level_order_is_total_and_increasing() {
    let all = [Levels::ONE, Levels::TWO, Levels::THREE, Levels::FOUR, Levels::FIVE];
    for i in 0..all.len() {
        for j in 0..all.len() {
            assert_eq!(all[i].at_least(&all[j]), i >= j);
            // the derived ordering agrees with the gating comparison
            assert_eq!(all[i] >= all[j], all[i].at_least(&all[j]));
        }
    }
}

#[test]
fn level_index_round_trips() {
    for n in 1u8..=5 {
        let l = Levels::from_index(n).unwrap();
        assert_eq!(l.index(), n);
    }
    assert!(Levels::from_index(0).is_none());
    assert!(Levels::from_index(6).is_none());
    assert!(Levels::from_index(255).is_none());
}

#[test]
fn capabilities_accumulate_monotonically() {
    let all = [Levels::ONE, Levels::TWO, Levels::THREE, Levels::FOUR, Levels::FIVE];
    for i in 0..all.len() {
        for j in i..all.len() {
            let (lo, hi) = (all[i], all[j]);
            assert!(!lo.projection_enabled() || hi.projection_enabled());
            assert!(!lo.depth_test_enabled() || hi.depth_test_enabled());
            assert!(!lo.multisample_enabled() || hi.multisample_enabled());
            assert!(!lo.lighting_enabled() || hi.lighting_enabled());
        }
    }
}

#[test]
fn capability_thresholds() {
    assert!(!Levels::ONE.projection_enabled());
    assert!(Levels::TWO.projection_enabled());
    assert!(!Levels::TWO.depth_test_enabled());
    assert!(Levels::THREE.depth_test_enabled());
    assert!(!Levels::THREE.multisample_enabled());
    assert!(Levels::FOUR.multisample_enabled());
    assert!(!Levels::FOUR.lighting_enabled());
    assert!(Levels::FIVE.lighting_enabled());
}
