use arnis_battle::{Block, Change, Effect, Multiplier, Stat, Strike, Target, INTERNAL_SERVER_ERROR};

fn strike_stats(s: &Strike) -> (String, u32, u32, Effect) {
    match s {
        Strike::LegStrike(st)
        | Strike::TempleStrike(st)
        | Strike::ShoulderStrike(st)
        | Strike::ShoulderThrust(st)
        | Strike::EyePoke(st)
        | Strike::StomachThrust(st)
        | Strike::HeadStrike(st) => (st.name.clone(), st.damage, st.accuracy, st.effect),
        Strike::Unknown => panic!("unknown strike"),
    }
}

fn effect(action: Change, amount: u32, stat: Stat, target: Target) -> Effect {
    Effect { action, amount, stat, target }
}

#[test]
fn strike_catalog_values() {
    let expected = [
        ("leg_strike", 500, 90, effect(Change::Increase, 50, Stat::Accuracy, Target::Owner)),
        ("temple_strike", 1000, 75, effect(Change::Decrease, 50, Stat::Accuracy, Target::Opponent)),
        ("shoulder_strike", 1000, 80, effect(Change::Decrease, 10, Stat::Accuracy, Target::Opponent)),
        ("shoulder_thrust", 800, 85, effect(Change::Decrease, 10, Stat::Accuracy, Target::Opponent)),
        ("eye_poke", 1200, 60, effect(Change::Decrease, 15, Stat::Accuracy, Target::Opponent)),
        ("stomach_thrust", 1000, 85, effect(Change::Increase, 50, Stat::Damage, Target::Owner)),
        ("head_strike", 1800, 50, effect(Change::Decrease, 15, Stat::Accuracy, Target::Opponent)),
    ];
    for (name, damage, accuracy, eff) in expected {
        let s = Strike::new(name);
        assert_eq!(strike_stats(&s), (name.to_string(), damage, accuracy, eff));
    }
    assert!(matches!(Strike::new("leg_strike"), Strike::LegStrike(_)));
    assert!(matches!(Strike::new("head_strike"), Strike::HeadStrike(_)));
    assert!(matches!(Strike::new("eye_poke"), Strike::EyePoke(_)));
}

#[test]
fn unknown_strike_name() {
    assert!(matches!(Strike::new("roundhouse_kick"), Strike::Unknown));
    assert!(matches!(Strike::new(""), Strike::Unknown));
    assert!(matches!(Strike::new("Leg_Strike"), Strike::Unknown));
}

#[test]
fn lookup_is_deterministic() {
    for name in ["leg_strike", "temple_strike", "eye_poke", "head_strike"] {
        assert_eq!(strike_stats(&Strike::new(name)), strike_stats(&Strike::new(name)));
        let a = Block::new(name).get_stat().unwrap();
        let b = Block::new(name).get_stat().unwrap();
        assert_eq!(a.name, b.name);
        assert_eq!(a.damage_reduction, b.damage_reduction);
        assert_eq!(a.effect, b.effect);
        assert_eq!(strike_stats(&a.strike_to_cancel), strike_stats(&b.strike_to_cancel));
    }
}

#[test]
fn block_catalog_values() {
    let expected = [
        ("leg_strike", "leg_strike_block", 10, effect(Change::Increase, 10, Stat::Accuracy, Target::Owner)),
        ("temple_strike", "temple_strike_block", 15, effect(Change::Decrease, 10, Stat::Accuracy, Target::Opponent)),
        ("shoulder_strike", "shoulder_strike_block", 15, effect(Change::Increase, 50, Stat::Damage, Target::Owner)),
        ("shoulder_thrust", "shoulder_thrust_block", 15, effect(Change::Decrease, 10, Stat::Accuracy, Target::Opponent)),
        ("eye_poke", "eye_poke_block", 15, effect(Change::Decrease, 10, Stat::Damage, Target::Opponent)),
        ("stomach_thrust", "stomach_thrust_block", 15, effect(Change::Increase, 50, Stat::Damage, Target::Owner)),
        ("head_strike", "head_strike_block", 15, effect(Change::Decrease, 20, Stat::Damage, Target::Opponent)),
    ];
    for (name, block_name, reduction, eff) in expected {
        let stat = Block::new(name).get_stat().unwrap();
        assert_eq!(stat.name, block_name);
        assert_eq!(stat.damage_reduction, reduction);
        assert_eq!(stat.effect, eff);
        assert_eq!(strike_stats(&stat.strike_to_cancel).0, name);
    }
    assert!(matches!(Block::new("temple_strike"), Block::TempleStrike(_)));
}

#[test]
fn unknown_block_has_no_stat() {
    let b = Block::new("spinning_block");
    assert!(matches!(b, Block::Unknown));
    let err = b.get_stat().unwrap_err();
    assert_eq!(err.code, INTERNAL_SERVER_ERROR);
    assert_eq!(err.message, "Unknown block battle card.");
}

#[test]
fn strike_cancelled_only_by_same_move() {
    let leg = Strike::new("leg_strike");
    assert!(leg.is_cancelled(Strike::new("leg_strike")));
    assert!(!leg.is_cancelled(Strike::new("head_strike")));
    assert!(!leg.is_cancelled(Strike::Unknown));
    assert!(!Strike::Unknown.is_cancelled(Strike::Unknown));
}

#[test]
fn effect_summaries() {
    assert_eq!(
        effect(Change::Increase, 50, Stat::Accuracy, Target::Owner).summarize(),
        "Increase user accuracy by 0.50%"
    );
    assert_eq!(
        effect(Change::Decrease, 20, Stat::Damage, Target::Opponent).summarize(),
        "Decrease opponent damage by 0.20%"
    );
    assert_eq!(
        effect(Change::Decrease, 1234, Stat::Accuracy, Target::Opponent).summarize(),
        "Decrease opponent accuracy by 12.34%"
    );
    assert_eq!(
        effect(Change::Increase, 5, Stat::Damage, Target::Owner).summarize(),
        "Increase user damage by 0.05%"
    );
    assert_eq!(
        effect(Change::Increase, 0, Stat::Damage, Target::Owner).summarize(),
        "Increase user damage by 0.00%"
    );
}

#[test]
fn change_stat_adds_signed_amount() {
    let mut m = Multiplier::default();
    assert_eq!(m, Multiplier { damage: 100, accuracy: 100 });
    effect(Change::Increase, 50, Stat::Accuracy, Target::Owner).change_stat(&mut m);
    assert_eq!(m, Multiplier { damage: 100, accuracy: 150 });
    effect(Change::Decrease, 20, Stat::Damage, Target::Opponent).change_stat(&mut m);
    assert_eq!(m, Multiplier { damage: 80, accuracy: 150 });
    effect(Change::Decrease, 200, Stat::Accuracy, Target::Owner).change_stat(&mut m);
    assert_eq!(m, Multiplier { damage: 80, accuracy: -50 });
    effect(Change::Increase, 5, Stat::Damage, Target::Owner).change_stat(&mut m);
    assert_eq!(m, Multiplier { damage: 85, accuracy: -50 });
}
