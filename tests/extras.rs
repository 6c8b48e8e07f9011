use arnis_battle::{
    generate_pairs, pair_off, AppError, BadgeInfo, BadgeType, PowerCard, SkillBadge, NOT_FOUND,
};
use std::collections::HashSet;

fn id(n: u128) -> uuid::Uuid {
    uuid::Uuid::from_u128(n)
}

#[test]
fn skill_badges() {
    match SkillBadge::new("strikes") {
        SkillBadge::Strikes(info) => {
            assert_eq!(info.name, "Offensive Prodigy");
            assert_eq!(info.description, "Best in Strikes.");
        }
        _ => panic!("expected the strikes badge"),
    }
    match SkillBadge::new("blocks") {
        SkillBadge::Blocks(info) => {
            assert_eq!(info.name, "Defense Juggernaut");
            assert_eq!(info.description, "Best in Blocks.");
        }
        _ => panic!("expected the blocks badge"),
    }
    for skill in ["forward_sinawali", "sinawali_variation"] {
        match SkillBadge::new(skill) {
            SkillBadge::Sinawali(info) => {
                assert_eq!(info.name, "Weaving Master");
                assert_eq!(info.description, "Best in Sinawali.");
            }
            _ => panic!("expected the sinawali badge"),
        }
    }
    assert!(matches!(SkillBadge::new("footwork"), SkillBadge::Unknown));
}

#[test]
fn badge_types_by_name() {
    assert!(matches!(BadgeType::new("Invincible Under the Sun"), BadgeType::NumberOne));
    assert!(matches!(BadgeType::new("Uncrowned Kings/Queens"), BadgeType::TopPlayer));
    assert!(matches!(
        BadgeType::new("Offensive Prodigy"),
        BadgeType::BestInSkill(SkillBadge::Strikes(_))
    ));
    assert!(matches!(
        BadgeType::new("Defense Juggernaut"),
        BadgeType::BestInSkill(SkillBadge::Blocks(_))
    ));
    assert!(matches!(
        BadgeType::new("Weaving Master"),
        BadgeType::BestInSkill(SkillBadge::Sinawali(_))
    ));
    assert!(matches!(BadgeType::new("Champion"), BadgeType::Unknown));
}

#[test]
fn badge_info() {
    let info = BadgeInfo::new(BadgeType::NumberOne).unwrap();
    assert_eq!(info.name, "Invincible Under the Sun");
    assert_eq!(info.description, "Top 1 Player.");
    let info = BadgeType::info(BadgeType::TopPlayer).unwrap();
    assert_eq!(info.name, "Uncrowned Kings/Queens");
    assert_eq!(info.description, "Top 2-10 Players.");
    let info = BadgeType::info(BadgeType::new("Weaving Master")).unwrap();
    assert_eq!(info.description, "Best in Sinawali.");
    let err = BadgeInfo::new(BadgeType::BestInSkill(SkillBadge::Unknown)).unwrap_err();
    assert_eq!(err.code, NOT_FOUND);
    assert_eq!(err.message, "Invalid skill badge.");
    let err = BadgeType::info(BadgeType::Unknown).unwrap_err();
    assert_eq!(err.code, 404);
    assert_eq!(err.message, "Invalid badge type.");
}

#[test]
fn app_error_fields() {
    let e = AppError::new(418, "teapot");
    assert_eq!(e.code, 418);
    assert_eq!(e.message, "teapot");
}

#[test]
fn power_card_names() {
    assert_eq!(
        PowerCard::get(),
        vec![
            "Ancient's Protection",
            "Double-edged Sword",
            "Extra Wind",
            "Twist of Fate",
            "Viral x Rival",
        ]
    );
}

#[test]
fn random_power_cards_are_distinct() {
    let all: HashSet<String> = PowerCard::get().into_iter().collect();
    for _ in 0..20 {
        let cards = PowerCard::get_random_cards(3);
        assert_eq!(cards.len(), 3);
        let distinct: HashSet<&String> = cards.iter().collect();
        assert_eq!(distinct.len(), 3);
        assert!(cards.iter().all(|c| all.contains(c)));
    }
    assert_eq!(PowerCard::get_random_cards(10).len(), 5);
    assert!(PowerCard::get_random_cards(0).is_empty());
}

#[test]
fn pair_off_from_the_end() {
    let users = vec![id(1), id(2), id(3), id(4), id(5)];
    assert_eq!(pair_off(users), vec![vec![id(5), id(4)], vec![id(3), id(2)]]);
    assert_eq!(pair_off(vec![id(1), id(2)]), vec![vec![id(2), id(1)]]);
    assert!(pair_off(vec![id(1)]).is_empty());
    assert!(pair_off(vec![]).is_empty());
}

#[test]
fn generated_pairs_cover_users() {
    let users: Vec<uuid::Uuid> = (1..=7).map(id).collect();
    for _ in 0..20 {
        let pairs = generate_pairs(users.clone());
        assert_eq!(pairs.len(), 3);
        let mut seen = HashSet::new();
        for p in &pairs {
            assert_eq!(p.len(), 2);
            for u in p {
                assert!(users.contains(u));
                assert!(seen.insert(*u));
            }
        }
        assert_eq!(seen.len(), 6);
    }
}

#[test]
fn pairing_order_varies() {
    let users: Vec<uuid::Uuid> = (1..=7).map(id).collect();
    let mut first_pairs = HashSet::new();
    for _ in 0..50 {
        let pairs = generate_pairs(users.clone());
        first_pairs.insert(pairs[0].clone());
    }
    assert!(first_pairs.len() > 1);
}
