use std::convert::TryFrom;

use commons::data::arena::ClashRoyaleArena;
use commons::data::validators::clash_royale_tag_validator;

#[test]
fn arena_from_id() {
    assert_eq!(ClashRoyaleArena::try_from(54000001), Ok(ClashRoyaleArena::Arena1));
    assert_eq!(ClashRoyaleArena::try_from(54000007), Ok(ClashRoyaleArena::Arena10));
    assert_eq!(ClashRoyaleArena::try_from(54000031), Ok(ClashRoyaleArena::UltimateChampion));
    assert_eq!(ClashRoyaleArena::try_from(54000012), Err(()));
    assert_eq!(ClashRoyaleArena::try_from(0), Err(()));
    assert_eq!(ClashRoyaleArena::Arena7.id(), 54000008);
    assert_eq!(ClashRoyaleArena::try_from(ClashRoyaleArena::MasterII.id()), Ok(ClashRoyaleArena::MasterII));
}

#[test]
fn arena_texts() {
    assert_eq!(ClashRoyaleArena::Arena4.title(), "Arena 4");
    assert_eq!(ClashRoyaleArena::Arena4.subtitle(), "P.E.K.K.A's Playhouse");
    assert_eq!(
        ClashRoyaleArena::LegendaryArena.icon_url(),
        "https://raw.githubusercontent.com/RoyaleAPI/cr-api-assets/master/arenas/arena15.png"
    );
    assert_eq!(ClashRoyaleArena::GrandChampion.title(), "Grand Champion");
}

#[test]
fn arena_order() {
    assert_eq!(ClashRoyaleArena::Arena1.order(), 1);
    assert_eq!(ClashRoyaleArena::UltimateChampion.order(), 24);
    assert!(ClashRoyaleArena::Arena10 > ClashRoyaleArena::Arena9);
    assert!(ClashRoyaleArena::Arena11 < ClashRoyaleArena::LegendaryArena);
    assert_eq!(
        ClashRoyaleArena::Champion.partial_cmp(&ClashRoyaleArena::Champion),
        Some(std::cmp::Ordering::Equal)
    );
    assert_eq!(
        ClashRoyaleArena::Arena2.cmp(&ClashRoyaleArena::Arena3),
        std::cmp::Ordering::Less
    );
}

#[test]
fn tag_validation() {
    assert!(clash_royale_tag_validator("ABC123"));
    assert!(clash_royale_tag_validator("0123456789ABCDE"));
    assert!(!clash_royale_tag_validator("ABC12"));
    assert!(!clash_royale_tag_validator("0123456789ABCDEF"));
    assert!(!clash_royale_tag_validator("abc123"));
    assert!(!clash_royale_tag_validator("ABC-123"));
    assert!(!clash_royale_tag_validator("ABCÉ12"));
    assert!(!clash_royale_tag_validator(""));
}

#[test]
fn every_arena_is_listed_and_found_by_id() {
    let all = ClashRoyaleArena::enum_list();
    assert_eq!(all.len(), 24);
    assert_eq!(all[0], ClashRoyaleArena::Arena1);
    assert_eq!(all[23], ClashRoyaleArena::UltimateChampion);
    for arena in all {
        assert_eq!(ClashRoyaleArena::try_from(arena.id()), Ok(*arena));
    }
    for pair in all.windows(2) {
        assert!(pair[0].order() < pair[1].order());
        assert!(pair[0] < pair[1]);
    }
}

#[test]
fn arena_icon_url_follows_order() {
    assert_eq!(
        ClashRoyaleArena::Arena10.icon_url(),
        "https://raw.githubusercontent.com/RoyaleAPI/cr-api-assets/master/arenas/arena10.png"
    );
    for arena in [
        ClashRoyaleArena::Arena1,
        ClashRoyaleArena::Arena7,
        ClashRoyaleArena::LegendaryArena,
        ClashRoyaleArena::MasterII,
        ClashRoyaleArena::UltimateChampion,
    ] {
        assert_eq!(
            arena.icon_url(),
            format!("https://raw.githubusercontent.com/RoyaleAPI/cr-api-assets/master/arenas/arena{}.png", arena.order())
        );
    }
}
