use nezuko_bot::chance::pick_index;
use nezuko_bot::config::{port_or_default, text_or_default, Config, ConfigError, Variables};
use nezuko_bot::economy::{
    check_stake, check_transfer, daily_reward, gamble, job_title, next_quantity, plan_purchase,
    settle_gamble, settle_transfer, work_shift, DailyReward, Gamble, GambleError, Purchase,
    PurchaseError, ShopItem, TransferError,
};
use nezuko_bot::inventory::{item_label, lines_for, Inventory, InventoryLine};
use nezuko_bot::leveling::{
    add_xp, draw_xp_gain, gain_for, hours_and_minutes, level_progress, xp_gain, Progress,
};
use nezuko_bot::models::{Owner, VoiceChannel};
use nezuko_bot::moderation::{
    mute_deadline, mute_until, plan_slowmode, purge_allowed, time_after, timeout_deadline,
    timeout_until, Slowmode,
};
use nezuko_bot::utility::{
    grade_latency, medal_of, page_number, page_offset, rank_on_page, total_pages, LatencyGrade,
    Medal,
};

#[test]
fn shop_catalogue() {
    assert_eq!(ShopItem::from_id("vip"), Some(ShopItem::Vip));
    assert_eq!(ShopItem::from_id("color"), Some(ShopItem::Color));
    assert_eq!(ShopItem::from_id("boost"), Some(ShopItem::Boost));
    assert_eq!(ShopItem::from_id("coins"), Some(ShopItem::Coins));
    assert_eq!(ShopItem::from_id("VIP"), None);
    assert_eq!(ShopItem::from_id(""), None);
    assert_eq!(ShopItem::Vip.price(), 10000);
    assert_eq!(ShopItem::Color.price(), 5000);
    assert_eq!(ShopItem::Boost.price(), 3000);
    assert_eq!(ShopItem::Coins.price(), 1000);
    assert_eq!(ShopItem::Vip.name(), "VIP Pass");
    assert_eq!(ShopItem::Color.name(), "Custom Color");
    assert_eq!(ShopItem::Boost.name(), "XP Boost x2");
    assert_eq!(ShopItem::Coins.name(), "Coin Pack");
}

#[test]
fn purchase_decisions() {
    assert_eq!(plan_purchase(100000, "sword"), Err(PurchaseError::UnknownItem));
    assert_eq!(plan_purchase(2999, "boost"), Err(PurchaseError::NotEnoughCoins { price: 3000 }));
    assert_eq!(
        plan_purchase(3000, "boost"),
        Ok(Purchase { item: ShopItem::Boost, price: 3000, remaining: 0 })
    );
    assert_eq!(
        plan_purchase(i64::MAX, "vip"),
        Ok(Purchase { item: ShopItem::Vip, price: 10000, remaining: i64::MAX - 10000 })
    );
    assert_eq!(plan_purchase(-5, "coins"), Err(PurchaseError::NotEnoughCoins { price: 1000 }));
    assert_eq!(plan_purchase(i64::MIN, "coins"), Err(PurchaseError::NotEnoughCoins { price: 1000 }));
}

#[test]
fn next_quantity_counts_from_zero() {
    assert_eq!(next_quantity(None), Some(1));
    assert_eq!(next_quantity(Some(0)), Some(1));
    assert_eq!(next_quantity(Some(41)), Some(42));
    assert_eq!(next_quantity(Some(-1)), Some(0));
    assert_eq!(next_quantity(Some(i64::MAX)), None);
}

#[test]
fn daily_reward_grows_with_the_streak() {
    assert_eq!(daily_reward(None), Some(DailyReward { total: 500, streak_bonus: 0 }));
    assert_eq!(daily_reward(Some(0)), Some(DailyReward { total: 500, streak_bonus: 0 }));
    assert_eq!(daily_reward(Some(1)), Some(DailyReward { total: 550, streak_bonus: 50 }));
    assert_eq!(daily_reward(Some(9)), Some(DailyReward { total: 950, streak_bonus: 450 }));
    assert_eq!(daily_reward(Some(10)), Some(DailyReward { total: 1000, streak_bonus: 500 }));
    assert_eq!(daily_reward(Some(i64::MAX)), Some(DailyReward { total: 1000, streak_bonus: 500 }));
    assert_eq!(daily_reward(Some(-3)), Some(DailyReward { total: 350, streak_bonus: -150 }));
    let least = i64::MIN / 50;
    assert_eq!(
        daily_reward(Some(least)),
        Some(DailyReward { total: 500 + least * 50, streak_bonus: least * 50 })
    );
    assert_eq!(daily_reward(Some(least - 1)), None);
    assert_eq!(daily_reward(Some(i64::MIN)), None);
}

#[test]
fn transfer_rules_in_order() {
    assert_eq!(check_transfer(true, 1, 1, 0), Err(TransferError::ReceiverIsBot));
    assert_eq!(check_transfer(false, 1, 1, 0), Err(TransferError::SameUser));
    assert_eq!(check_transfer(false, 1, 2, 0), Err(TransferError::NonPositiveAmount));
    assert_eq!(check_transfer(false, 1, 2, -7), Err(TransferError::NonPositiveAmount));
    assert_eq!(check_transfer(false, 1, 2, 1), Ok(()));
    assert_eq!(settle_transfer(10, 11), Err(TransferError::NotEnoughCoins { balance: 10 }));
    assert_eq!(settle_transfer(10, 10), Ok(0));
    assert_eq!(settle_transfer(10, 3), Ok(7));
    assert_eq!(settle_transfer(10, 0), Err(TransferError::NonPositiveAmount));
    assert_eq!(settle_transfer(i64::MAX, -1), Err(TransferError::NonPositiveAmount));
    assert_eq!(settle_transfer(-4, 1), Err(TransferError::NotEnoughCoins { balance: -4 }));
}

#[test]
fn gamble_settles_by_the_draw() {
    assert_eq!(check_stake(0), Err(GambleError::NonPositiveAmount));
    assert_eq!(check_stake(1), Ok(()));
    assert_eq!(settle_gamble(100, 0, true), Err(GambleError::NonPositiveAmount));
    assert_eq!(settle_gamble(100, 101, true), Err(GambleError::NotEnoughCoins { balance: 100 }));
    assert_eq!(settle_gamble(100, 40, true), Ok(Gamble { won: true, new_balance: 140 }));
    assert_eq!(settle_gamble(100, 40, false), Ok(Gamble { won: false, new_balance: 60 }));
    assert_eq!(settle_gamble(100, 100, false), Ok(Gamble { won: false, new_balance: 0 }));
    assert_eq!(settle_gamble(i64::MAX, 1, true), Err(GambleError::BalanceTooLarge));
    assert_eq!(
        settle_gamble(i64::MAX, 1, false),
        Ok(Gamble { won: false, new_balance: i64::MAX - 1 })
    );
}

#[test]
fn gamble_draws_both_ways() {
    let mut wins = 0;
    let mut losses = 0;
    for _ in 0..400 {
        match gamble(100, 30) {
            Ok(Gamble { won: true, new_balance }) => {
                assert_eq!(new_balance, 130);
                wins += 1;
            }
            Ok(Gamble { won: false, new_balance }) => {
                assert_eq!(new_balance, 70);
                losses += 1;
            }
            Err(e) => panic!("refused: {:?}", e),
        }
    }
    assert!(wins > 0 && losses > 0);
    assert_eq!(gamble(10, 11), Err(GambleError::NotEnoughCoins { balance: 10 }));
    assert_eq!(gamble(10, -1), Err(GambleError::NonPositiveAmount));
}

#[test]
fn work_shift_stays_in_bounds() {
    let mut jobs = std::collections::BTreeSet::new();
    let mut pays = std::collections::BTreeSet::new();
    for _ in 0..2000 {
        let shift = work_shift();
        assert!(shift.job < 10);
        assert!((100..=500).contains(&shift.earned));
        assert!(job_title(shift.job).is_some());
        jobs.insert(shift.job);
        pays.insert(shift.earned);
    }
    assert_eq!(jobs.len(), 10);
    assert!(pays.len() > 100);
    assert_eq!(job_title(0), Some("developer"));
    assert_eq!(job_title(4), Some("engineer"));
    assert_eq!(job_title(9), Some("scientist"));
    assert_eq!(job_title(10), None);
}

#[test]
fn pick_index_stays_in_the_list() {
    assert_eq!(pick_index(0), None);
    assert_eq!(pick_index(1), Some(0));
    let mut seen = std::collections::BTreeSet::new();
    for _ in 0..1000 {
        let i = pick_index(19).unwrap();
        assert!(i < 19);
        seen.insert(i);
    }
    assert_eq!(seen.len(), 19);
}

#[test]
fn xp_gain_formula() {
    assert_eq!(xp_gain(0), 10);
    assert_eq!(xp_gain(14), 24);
    assert_eq!(xp_gain(15), 10);
    assert_eq!(xp_gain(-1), 11);
    assert_eq!(xp_gain(-14), 24);
    assert_eq!(xp_gain(i32::MAX), (i32::MAX % 15 + 10) as i64);
    assert_eq!(xp_gain(i32::MIN + 1), (i32::MAX % 15 + 10) as i64);
    let mut seen = std::collections::BTreeSet::new();
    for _ in 0..2000 {
        if let Some(g) = draw_xp_gain() {
            assert!((10..=24).contains(&g));
            seen.insert(g);
        }
    }
    assert_eq!(seen.len(), 15);
}

#[test]
fn add_xp_checks_the_sum() {
    assert_eq!(add_xp(100, 24), Some(124));
    assert_eq!(add_xp(i64::MAX - 24, 24), Some(i64::MAX));
    assert_eq!(add_xp(i64::MAX - 23, 24), None);
    assert_eq!(add_xp(i64::MIN, -1), None);
}

#[test]
fn level_progress_formula() {
    assert_eq!(
        level_progress(0, 0),
        Some(Progress { xp_for_next: 100, xp_progress: 0, xp_needed: 100 })
    );
    assert_eq!(
        level_progress(450, 2),
        Some(Progress { xp_for_next: 900, xp_progress: 50, xp_needed: 500 })
    );
    assert_eq!(
        level_progress(10, 3),
        Some(Progress { xp_for_next: 1600, xp_progress: -890, xp_needed: 700 })
    );
    assert_eq!(
        level_progress(5, -1),
        Some(Progress { xp_for_next: 0, xp_progress: -95, xp_needed: -100 })
    );
    let top = 303_700_048i64;
    assert_eq!(
        level_progress(0, top),
        Some(Progress {
            xp_for_next: (top + 1) * (top + 1) * 100,
            xp_progress: -(top * top * 100),
            xp_needed: (2 * top + 1) * 100,
        })
    );
    assert_eq!(level_progress(0, top + 1), None);
    assert_eq!(level_progress(0, i64::MAX), None);
    assert_eq!(level_progress(0, i64::MIN), None);
    assert_eq!(level_progress(i64::MIN, 1), None);
}

#[test]
fn hours_and_minutes_split() {
    assert_eq!(hours_and_minutes(0), (0, 0));
    assert_eq!(hours_and_minutes(59), (0, 59));
    assert_eq!(hours_and_minutes(60), (1, 0));
    assert_eq!(hours_and_minutes(135), (2, 15));
    assert_eq!(hours_and_minutes(-61), (-1, -1));
    assert_eq!(hours_and_minutes(i64::MIN), (i64::MIN / 60, i64::MIN % 60));
}

#[test]
fn latency_grades() {
    assert_eq!(grade_latency(0), LatencyGrade::Excellent);
    assert_eq!(grade_latency(99), LatencyGrade::Excellent);
    assert_eq!(grade_latency(100), LatencyGrade::Good);
    assert_eq!(grade_latency(199), LatencyGrade::Good);
    assert_eq!(grade_latency(200), LatencyGrade::Slow);
    assert_eq!(grade_latency(u128::MAX), LatencyGrade::Slow);
    assert_eq!(LatencyGrade::Excellent.word(), "Excellent");
    assert_eq!(LatencyGrade::Good.word(), "Good");
    assert_eq!(LatencyGrade::Slow.word(), "Slow");
}

#[test]
fn leaderboard_paging() {
    assert_eq!(page_number(None), 1);
    assert_eq!(page_number(Some(0)), 1);
    assert_eq!(page_number(Some(-9)), 1);
    assert_eq!(page_number(Some(7)), 7);
    assert_eq!(page_offset(1), Some(0));
    assert_eq!(page_offset(3), Some(20));
    assert_eq!(page_offset(214_748_365), Some(2_147_483_640));
    assert_eq!(page_offset(214_748_366), None);
    assert_eq!(page_offset(i32::MIN), None);
    assert_eq!(page_offset(0), Some(-10));
    assert_eq!(rank_on_page(0, 0), Some(1));
    assert_eq!(rank_on_page(20, 9), Some(30));
    assert_eq!(rank_on_page(i32::MAX - 1, 0), Some(i32::MAX));
    assert_eq!(rank_on_page(i32::MAX, 0), None);
    assert_eq!(rank_on_page(-10, usize::MAX), None);
    assert_eq!(rank_on_page(i32::MIN, (1usize << 32) - 2), Some(i32::MAX));
    assert_eq!(medal_of(1), Medal::Gold);
    assert_eq!(medal_of(2), Medal::Silver);
    assert_eq!(medal_of(3), Medal::Bronze);
    assert_eq!(medal_of(4), Medal::Plain);
    assert_eq!(medal_of(0), Medal::Plain);
    assert_eq!(total_pages(0), Some(0));
    assert_eq!(total_pages(1), Some(1));
    assert_eq!(total_pages(10), Some(1));
    assert_eq!(total_pages(11), Some(2));
    assert_eq!(total_pages(-1), None);
    assert_eq!(total_pages(21_474_836_470), Some(i32::MAX));
    assert_eq!(total_pages(21_474_836_471), None);
}

#[test]
fn slowmode_and_purge_bounds() {
    assert_eq!(plan_slowmode(0), Slowmode::Disabled);
    assert_eq!(plan_slowmode(1), Slowmode::Limited { seconds: 1 });
    assert_eq!(plan_slowmode(21600), Slowmode::Limited { seconds: 21600 });
    assert_eq!(plan_slowmode(21601), Slowmode::Refused);
    assert!(!purge_allowed(0));
    assert!(purge_allowed(1));
    assert!(purge_allowed(100));
    assert!(!purge_allowed(101));
}

#[test]
fn mute_and_timeout_deadlines() {
    assert_eq!(mute_until(1_700_000_000, 10), Some(1_700_000_600));
    assert_eq!(mute_until(100, -1), Some(40));
    assert_eq!(mute_until(0, i64::MAX), None);
    assert_eq!(mute_until(i64::MAX, 1), None);
    assert_eq!(timeout_until(1_700_000_000, 2), Some(1_700_007_200));
    assert_eq!(timeout_until(0, i64::MAX / 3600 + 1), None);
    assert_eq!(time_after(5, 3, 7), Some(26));
    assert_eq!(time_after(5, i64::MIN, -1), None);
    let started = mute_deadline(0).unwrap();
    assert!(started > 1_600_000_000);
    let muted = mute_deadline(5).unwrap();
    assert!((300..=302).contains(&(muted - started)));
    let timed_out = timeout_deadline(1).unwrap();
    assert!((3600..=3602).contains(&(timed_out - started)));
    assert_eq!(mute_deadline(i64::MAX), None);
    assert_eq!(timeout_deadline(i64::MIN), None);
}

#[test]
fn config_defaults_and_errors() {
    let none = Variables {
        bot_token: None,
        database_url: None,
        web_host: None,
        web_port: None,
        kawaii_api_key: None,
        default_prefix: None,
    };
    assert_eq!(Config::from_vars(none.clone()), Err(ConfigError::MissingBotToken));
    let only_token = Variables { bot_token: Some("SECRET-REDACTED".to_string()), ..none.clone() };
    assert_eq!(
        Config::from_vars(only_token.clone()),
        Ok(Config {
            bot_token: "SECRET-REDACTED".to_string(),
            database_url: "sqlite:./nezuko.db".to_string(),
            web_host: "0.0.0.0".to_string(),
            web_port: 8000,
            kawaii_api_key: None,
            default_prefix: "/".to_string(),
        })
    );
    let full = Variables {
        bot_token: Some("t".to_string()),
        database_url: Some("sqlite::memory:".to_string()),
        web_host: Some("127.0.0.1".to_string()),
        web_port: Some("8080".to_string()),
        kawaii_api_key: Some("k".to_string()),
        default_prefix: Some("!".to_string()),
    };
    assert_eq!(
        Config::from_vars(full),
        Ok(Config {
            bot_token: "t".to_string(),
            database_url: "sqlite::memory:".to_string(),
            web_host: "127.0.0.1".to_string(),
            web_port: 8080,
            kawaii_api_key: Some("k".to_string()),
            default_prefix: "!".to_string(),
        })
    );
    for bad in ["", "port", "65536", "-1", " 80", "80 "] {
        let vars = Variables { web_port: Some(bad.to_string()), ..only_token.clone() };
        assert_eq!(Config::from_vars(vars).unwrap().web_port, 8000);
    }
    let vars = Variables { web_port: Some("65535".to_string()), ..only_token.clone() };
    assert_eq!(Config::from_vars(vars).unwrap().web_port, 65535);
    assert_eq!(port_or_default(None), 8000);
    assert_eq!(port_or_default(Some(1)), 1);
    assert_eq!(text_or_default(None, "x"), "x");
    assert_eq!(text_or_default(Some("y".to_string()), "x"), "y");
}

#[test]
fn inventory_counts_purchases() {
    let mut inventory = Inventory::load(None);
    assert_eq!(inventory.write(), "{}");
    assert_eq!(inventory.quantity("vip"), None);
    assert_eq!(inventory.add_one("vip"), Some(1));
    assert_eq!(inventory.add_one("vip"), Some(2));
    assert_eq!(inventory.add_one("coins"), Some(1));
    assert_eq!(inventory.quantity("vip"), Some(2));
    assert_eq!(inventory.quantity("coins"), Some(1));
    assert_eq!(inventory.quantity("boost"), None);
    assert_eq!(inventory.write(), "{\"coins\":1,\"vip\":2}");
    assert_eq!(Inventory::load(Some(&inventory.write())).write(), inventory.write());
}

#[test]
fn inventory_keeps_what_it_does_not_count() {
    let stored = "{\"boost\":\"many\",\"note\":[1,2],\"vip\":7}";
    let mut inventory = Inventory::load(Some(stored));
    assert_eq!(inventory.quantity("vip"), Some(7));
    assert_eq!(inventory.quantity("boost"), None);
    assert_eq!(inventory.add_one("boost"), Some(1));
    assert_eq!(inventory.add_one("vip"), Some(8));
    assert_eq!(inventory.write(), "{\"boost\":1,\"note\":[1,2],\"vip\":8}");
    let mut full = Inventory::load(Some("{\"vip\":9223372036854775807}"));
    assert_eq!(full.add_one("vip"), None);
    assert_eq!(full.write(), "{\"vip\":9223372036854775807}");
}

#[test]
fn inventory_that_is_no_object_or_no_json() {
    let mut list = Inventory::load(Some("[1,2]"));
    assert_eq!(list.quantity("vip"), None);
    assert_eq!(list.add_one("vip"), None);
    assert_eq!(list.write(), "[1,2]");
    assert!(Inventory::parse("{broken").is_none());
    assert_eq!(Inventory::load(Some("{broken")).write(), "{}");
    assert_eq!(Inventory::or_empty(None).write(), "{}");
    let parsed = Inventory::parse("{\"a\":1}");
    assert_eq!(Inventory::or_empty(parsed).quantity("a"), Some(1));
    assert_eq!(Inventory::empty().write(), "{}");
}

#[test]
fn registry_row_owner() {
    let mut row = VoiceChannel {
        id: 1,
        guild_id: 2,
        channel_id: 3,
        owner_id: 0,
        name: "lobby".to_string(),
        created_at: String::new(),
    };
    assert!(row.is_lobby());
    assert!(!row.is_active());
    assert_eq!(row.owner(), Owner::LobbyMarker);
    row.owner_id = -9;
    assert!(!row.is_lobby());
    assert!(row.is_active());
    assert_eq!(row.owner(), Owner::OwnedBy(-9));
    assert_eq!(row.duplicate(), row);
}

fn line(label: &str, quantity: &str) -> InventoryLine {
    InventoryLine { label: label.to_string(), quantity: quantity.to_string() }
}

#[test]
fn inventory_listing_names_the_items() {
    let inventory = Inventory::load(Some("{\"vip\":2,\"sword\":\"rusty\",\"boost\":1}"));
    assert_eq!(
        inventory.listing(),
        vec![
            line("⚡ XP Boost x2", "Quantity: 1"),
            line("sword", "Quantity: \"rusty\""),
            line("⭐ VIP Pass", "Quantity: 2"),
        ]
    );
    assert!(Inventory::load(None).listing().is_empty());
    assert!(Inventory::load(Some("{}")).listing().is_empty());
    assert!(Inventory::load(Some("[1,2]")).listing().is_empty());
    assert!(Inventory::load(Some("not json")).listing().is_empty());
    assert_eq!(item_label("color"), "🎨 Custom Color");
    assert_eq!(item_label("coins"), "💰 Coin Pack");
    assert_eq!(item_label("Coins"), "Coins");
    let entries = vec![("vip".to_string(), "3".to_string()), ("x".to_string(), "null".to_string())];
    assert_eq!(
        lines_for(&entries),
        vec![line("⭐ VIP Pass", "Quantity: 3"), line("x", "Quantity: null")]
    );
    assert!(lines_for(&Vec::new()).is_empty());
}

#[test]
fn gain_for_every_draw() {
    assert_eq!(gain_for(i32::MIN), None);
    assert_eq!(gain_for(i32::MIN + 1), Some((i32::MAX % 15 + 10) as i64));
    assert_eq!(gain_for(0), Some(10));
    assert_eq!(gain_for(-29), Some(24));
    assert_eq!(gain_for(44), Some(24));
    assert_eq!(gain_for(45), Some(10));
    assert_eq!(gain_for(i32::MAX), Some(xp_gain(i32::MAX)));
}

#[test]
fn parsing_goes_by_the_text_alone() {
    let text = "{\"vip\":3,\"note\":null}";
    let first = Inventory::parse(text).unwrap();
    let second = Inventory::parse(text).unwrap();
    assert_eq!(first.write(), second.write());
    assert_eq!(first.write(), "{\"note\":null,\"vip\":3}");
    assert_eq!(first.quantity("vip"), Some(3));
    assert_eq!(Inventory::load(Some(text)).write(), first.write());
    assert!(Inventory::parse("").is_none());
    assert!(Inventory::parse("{\"vip\":}").is_none());
    assert_eq!(Inventory::parse("7").unwrap().write(), "7");
}
