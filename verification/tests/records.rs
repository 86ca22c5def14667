use aeterna::authority::{AuthorityRegistry, Operation};
use aeterna::error::AeternaError;
use aeterna::keys::Pubkey;
use aeterna::mirror::{
    build_completion_update, build_evolution_update, build_initial_update, decimal_string,
    is_reserved, keep_unreserved, Trait,
};
use aeterna::stage::Stage;
use aeterna::state::{CompletionRecord, Event, PulseLink, Quest, SoulStats};
use aeterna::store::{CompletionStore, InsertOutcome};

fn key(n: u8) -> Pubkey {
    Pubkey::new([n; 32])
}

fn attribute(k: &str, v: &str) -> Trait {
    Trait { key: k.to_string(), value: v.to_string() }
}

#[test]
fn keys_compare_by_all_bytes() {
    let a = key(1);
    let mut bytes = [1u8; 32];
    assert!(a.same(&Pubkey::new(bytes)));
    bytes[31] = 2;
    assert!(!a.same(&Pubkey::new(bytes)));
    bytes[31] = 1;
    bytes[0] = 0;
    assert!(!a.same(&Pubkey::new(bytes)));
    assert_eq!(a.to_bytes(), [1u8; 32]);
}

#[test]
fn fresh_ledger_is_dormant_and_empty() {
    let stats = SoulStats::new(key(9), 254);
    assert_eq!(stats.asset, key(9));
    assert_eq!(stats.xp, 0);
    assert_eq!(stats.quests_completed, 0);
    assert_eq!(stats.trading_volume, 0);
    assert_eq!(stats.current_stage, Stage::Dormant);
    assert_eq!(stats.bump, 254);
}

#[test]
fn record_sizes() {
    assert_eq!(SoulStats::SIZE, 62);
    assert_eq!(Event::SIZE, 110);
    assert_eq!(Quest::SIZE, 117);
    assert_eq!(CompletionRecord::SIZE, 81);
    assert_eq!(PulseLink::SIZE, 73);
}

#[test]
fn new_event_is_active() {
    let event = Event::new(key(1), "summit".to_string(), 3);
    assert_eq!(event.authority, key(1));
    assert_eq!(event.name, "summit");
    assert!(event.active);
    assert_eq!(event.bump, 3);
}

#[test]
fn quest_knows_its_event() {
    let quest = Quest::new(key(5), "check-in".to_string(), 50, 7);
    assert_eq!(quest.xp_reward, 50);
    assert_eq!(quest.name, "check-in");
    assert!(quest.belongs_to(&key(5)));
    assert!(!quest.belongs_to(&key(6)));
}

#[test]
fn registry_rules_are_flat_equality() {
    let registry = AuthorityRegistry::new(key(42));
    assert_eq!(registry.authorize(&key(42), &Operation::DirectGrant), Ok(()));
    assert_eq!(
        registry.authorize(&key(1), &Operation::DirectGrant),
        Err(AeternaError::Unauthorized)
    );
    let organizer = Operation::EventScoped { authority: key(1) };
    assert_eq!(registry.authorize(&key(1), &organizer), Ok(()));
    assert_eq!(registry.authorize(&key(42), &organizer), Err(AeternaError::Unauthorized));
    let scanner = Operation::QuestCompletion { authority: key(1) };
    assert_eq!(registry.authorize(&key(1), &scanner), Ok(()));
    assert_eq!(registry.authorize(&key(42), &scanner), Err(AeternaError::Unauthorized));
}

#[test]
fn store_creates_each_pair_once() {
    let mut store = CompletionStore::new();
    assert_eq!(store.len(), 0);
    assert!(!store.contains(&key(1), &key(2)));
    let first = CompletionRecord { quest: key(1), asset: key(2), completed_at: 10, bump: 1 };
    assert_eq!(store.insert_if_absent(first), InsertOutcome::Created);
    assert_eq!(store.len(), 1);
    assert!(store.contains(&key(1), &key(2)));
    let again = CompletionRecord { quest: key(1), asset: key(2), completed_at: 99, bump: 5 };
    assert_eq!(store.insert_if_absent(again), InsertOutcome::AlreadyExists);
    assert_eq!(store.len(), 1);
    assert_eq!(store.get(&key(1), &key(2)), Some(first));
}

#[test]
fn store_keeps_pairs_apart() {
    let mut store = CompletionStore::new();
    let a = CompletionRecord { quest: key(1), asset: key(2), completed_at: 10, bump: 1 };
    let b = CompletionRecord { quest: key(2), asset: key(1), completed_at: 11, bump: 1 };
    let c = CompletionRecord { quest: key(1), asset: key(3), completed_at: 12, bump: 1 };
    assert_eq!(store.insert_if_absent(a), InsertOutcome::Created);
    assert_eq!(store.insert_if_absent(b), InsertOutcome::Created);
    assert_eq!(store.insert_if_absent(c), InsertOutcome::Created);
    assert_eq!(store.len(), 3);
    assert_eq!(store.get(&key(2), &key(1)), Some(b));
    assert_eq!(store.get(&key(1), &key(3)), Some(c));
    assert_eq!(store.get(&key(3), &key(1)), None);
    assert_eq!(store.insert_if_absent(b), InsertOutcome::AlreadyExists);
    assert_eq!(store.len(), 3);
}

#[test]
fn decimal_numerals() {
    assert_eq!(decimal_string(0), "0");
    assert_eq!(decimal_string(7), "7");
    assert_eq!(decimal_string(10), "10");
    assert_eq!(decimal_string(1050), "1050");
    assert_eq!(decimal_string(1234567890), "1234567890");
    assert_eq!(decimal_string(u64::MAX), "18446744073709551615");
}

#[test]
fn reserved_keys_are_the_five_the_ledger_writes() {
    for k in ["xp", "stage", "status", "last_quest", "quests_completed"] {
        assert!(is_reserved(&k.to_string()));
    }
    for k in ["", "XP", "xp ", "color", "stage2"] {
        assert!(!is_reserved(&k.to_string()));
    }
}

#[test]
fn overlay_loses_reserved_keys_and_keeps_its_order() {
    let overlay = vec![
        attribute("color", "red"),
        attribute("xp", "999999"),
        attribute("aura", "gold"),
        attribute("stage", "2"),
        attribute("status", "Ascended"),
        attribute("last_quest", "fake"),
        attribute("quests_completed", "77"),
        attribute("color", "blue"),
    ];
    assert_eq!(
        keep_unreserved(&overlay),
        vec![attribute("color", "red"), attribute("aura", "gold"), attribute("color", "blue")]
    );
    assert_eq!(keep_unreserved(&Vec::new()), Vec::new());
}

#[test]
fn evolution_update_ends_with_the_ledger_values() {
    let overlay = vec![attribute("xp", "1"), attribute("color", "red")];
    assert_eq!(
        build_evolution_update(&overlay, Stage::Active, 150),
        vec![
            attribute("color", "red"),
            attribute("stage", "1"),
            attribute("xp", "150"),
            attribute("status", "Active"),
        ]
    );
    assert_eq!(
        build_evolution_update(&Vec::new(), Stage::Ascended, 1000),
        vec![
            attribute("stage", "2"),
            attribute("xp", "1000"),
            attribute("status", "Ascended"),
        ]
    );
}

#[test]
fn completion_update_carries_xp_stage_quest_and_count() {
    assert_eq!(
        build_completion_update(1050, Stage::Active, &"check-in".to_string(), 3),
        vec![
            attribute("xp", "1050"),
            attribute("stage", "1"),
            attribute("last_quest", "check-in"),
            attribute("quests_completed", "3"),
        ]
    );
}

#[test]
fn initial_update_is_dormant_zero_zero() {
    assert_eq!(
        build_initial_update(),
        vec![attribute("status", "Dormant"), attribute("stage", "0"), attribute("xp", "0")]
    );
}
