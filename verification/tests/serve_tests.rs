use vanity_seeds::producer::{Offer, Producer};
use vanity_seeds::rules::SeedRules;
use vanity_seeds::search::{check_seed, SearchError};
use vanity_seeds::serve::{
    kind_of, poll_of, poll_seed, read_stats, route, same_text, stats_of, Poll, Route,
    StatsResponse, MAX_SEEDS, WAIT_MILLIS,
};
use vanity_seeds::store::{Db, DbError};

const SEED_A: &str = "000102030405060708090a0b0c0d0e0f101112131415161718191a1b1c1d1e1f";
const SEED_B: &str = "692b0b999a8c56b98f039a7a0e0bc7d76cfc89b41183bff34ee2d64886989261";

fn memory_store() -> Db {
    Db::new(":memory:").expect("an in-memory database opens")
}

/// A store whose database is full: it has both tables and no page left to grow.
fn full_store(game: &[&str]) -> Db {
    let conn = rusqlite::Connection::open_in_memory().unwrap();
    conn.execute("CREATE TABLE game_seeds (seed TEXT PRIMARY KEY)", ()).unwrap();
    conn.execute("CREATE TABLE sync_seeds (seed TEXT PRIMARY KEY)", ()).unwrap();
    for seed in game {
        conn.execute("INSERT INTO game_seeds VALUES (?)", [seed]).unwrap();
    }
    let pages: i64 = conn.query_row("PRAGMA page_count", (), |row| row.get(0)).unwrap();
    let limit: i64 = conn
        .query_row(&format!("PRAGMA max_page_count = {}", pages), (), |row| row.get(0))
        .unwrap();
    assert_eq!(limit, pages);
    let mut filled = 0;
    while conn.execute("INSERT INTO sync_seeds VALUES (?)", [format!("{:064x}", filled)]).is_ok() {
        filled += 1;
        assert!(filled < 100_000);
    }
    while conn.execute("INSERT INTO game_seeds VALUES (?)", [format!("{:064x}", filled)]).is_ok() {
        filled += 1;
        assert!(filled < 100_000);
    }
    Db::from_connection(conn).expect("the tables are there already")
}

fn easy_rules(is_sync: bool, suffix: &str) -> SeedRules {
    let mut rules = if is_sync { SeedRules::sync() } else { SeedRules::game() };
    rules.suffix = suffix.to_string();
    rules
}

fn seed_of(text: &str) -> [u8; 32] {
    let bytes = hex::decode(text).expect("hexadecimal text");
    let mut seed = [0u8; 32];
    seed.copy_from_slice(&bytes);
    seed
}

#[test]
fn defaults_are_as_documented() {
    assert_eq!(MAX_SEEDS, 250_000);
    assert_eq!(WAIT_MILLIS, 1_000);
}

#[test]
fn served_requests_are_routed() {
    assert_eq!(route("POST", "/seed/game"), Route::GameSeed);
    assert_eq!(route("POST", "/seed/sync"), Route::SyncSeed);
    assert_eq!(route("GET", "/stats"), Route::Stats);
}

#[test]
fn other_requests_are_not_found() {
    assert_eq!(route("GET", "/seed/game"), Route::NotFound);
    assert_eq!(route("GET", "/seed/sync"), Route::NotFound);
    assert_eq!(route("POST", "/stats"), Route::NotFound);
    assert_eq!(route("POST", "/seed"), Route::NotFound);
    assert_eq!(route("POST", "/seed/"), Route::NotFound);
    assert_eq!(route("POST", "/seed/game/"), Route::NotFound);
    assert_eq!(route("POST", "/seed/other"), Route::NotFound);
    assert_eq!(route("post", "/seed/game"), Route::NotFound);
    assert_eq!(route("PUT", "/seed/game"), Route::NotFound);
    assert_eq!(route("GET", "/"), Route::NotFound);
    assert_eq!(route("GET", ""), Route::NotFound);
    assert_eq!(route("", "/stats"), Route::NotFound);
    assert_eq!(route("GET", "/STATS"), Route::NotFound);
}

#[test]
fn same_text_compares_whole_texts() {
    assert!(same_text("", ""));
    assert!(same_text("game", "game"));
    assert!(!same_text("game", "gam"));
    assert!(!same_text("gam", "game"));
    assert!(!same_text("game", "gamf"));
    assert!(!same_text("game", "Game"));
    assert!(same_text("caf\u{e9}", "caf\u{e9}"));
    assert!(!same_text("caf\u{e9}", "cafe"));
}

#[test]
fn kinds_are_named_after_the_category() {
    assert_eq!(kind_of(false), "game");
    assert_eq!(kind_of(true), "sync");
}

#[test]
fn poll_waits_on_an_empty_category_and_serves_when_a_seed_arrives() {
    let mut db = memory_store();
    assert!(db.insert_seed_with_limit(SEED_A, 10, false).unwrap());
    assert_eq!(db.get_seed_count(false).unwrap(), 1);
    match poll_seed(&mut db, false) {
        Poll::Serve(response) => {
            assert_eq!(response.seed, SEED_A);
            assert_eq!(response.kind, "game");
        }
        other => panic!("expected a seed, got {:?}", other),
    }
    assert_eq!(db.get_seed_count(false).unwrap(), 0);
    // Nothing is stored: the consumer goes on waiting, however often it looks.
    for _ in 0..5 {
        assert!(matches!(poll_seed(&mut db, false), Poll::Wait));
    }
    // A seed that is stored meanwhile ends the wait.
    assert!(db.insert_seed_with_limit(SEED_B, 10, false).unwrap());
    match poll_seed(&mut db, false) {
        Poll::Serve(response) => {
            assert_eq!(response.seed, SEED_B);
            assert_eq!(response.kind, "game");
        }
        other => panic!("expected a seed, got {:?}", other),
    }
    assert!(matches!(poll_seed(&mut db, false), Poll::Wait));
}

#[test]
fn poll_serves_the_category_that_was_asked_for() {
    let mut db = memory_store();
    db.insert_seed(SEED_A, true).unwrap();
    assert!(matches!(poll_seed(&mut db, false), Poll::Wait));
    match poll_seed(&mut db, true) {
        Poll::Serve(response) => {
            assert_eq!(response.seed, SEED_A);
            assert_eq!(response.kind, "sync");
        }
        other => panic!("expected a seed, got {:?}", other),
    }
}

#[test]
fn poll_serves_from_a_store_that_is_full() {
    let mut db = full_store(&[SEED_A]);
    let stored = db.get_seed_count(false).unwrap();
    assert!(matches!(poll_seed(&mut db, false), Poll::Serve(_)));
    assert_eq!(db.get_seed_count(false).unwrap(), stored - 1);
    assert!(!db.is_broken());
}

#[test]
fn stats_count_both_categories() {
    let mut db = memory_store();
    assert_eq!(read_stats(&db).unwrap(), StatsResponse { game_seeds: 0, sync_seeds: 0 });
    db.insert_seed(SEED_A, false).unwrap();
    db.insert_seed(SEED_B, false).unwrap();
    db.insert_seed(SEED_A, true).unwrap();
    assert_eq!(read_stats(&db).unwrap(), StatsResponse { game_seeds: 2, sync_seeds: 1 });
    db.fetch_and_delete_seed(false).unwrap();
    assert_eq!(read_stats(&db).unwrap(), StatsResponse { game_seeds: 1, sync_seeds: 1 });
}

#[test]
fn producer_stores_only_valid_seeds() {
    let mut db = memory_store();
    let mut producer = Producer::new(easy_rules(false, "y"), false);
    for round in 1..=3usize {
        assert!(!producer.is_holding());
        producer.search(1_000_000).expect("a valid seed within the attempts");
        assert!(producer.is_holding());
        assert!(matches!(producer.offer(&mut db, 10), Offer::Stored));
        assert_eq!(db.get_seed_count(false).unwrap(), round);
    }
    assert_eq!(db.get_seed_count(true).unwrap(), 0);
    let rules = easy_rules(false, "y");
    let mut taken = 0;
    while let Some(text) = db.fetch_and_delete_seed(false).unwrap() {
        assert_eq!(text.len(), 64);
        assert!(check_seed(&rules, &seed_of(&text)));
        taken += 1;
    }
    assert_eq!(taken, 3);
}

#[test]
fn producer_keeps_its_seed_while_the_store_is_full() {
    let mut db = memory_store();
    db.insert_seed(SEED_A, true).unwrap();
    let mut producer = Producer::new(easy_rules(true, ""), true);
    producer.search(100_000).expect("a valid seed within the attempts");
    for _ in 0..3 {
        assert!(matches!(producer.offer(&mut db, 1), Offer::Full));
        assert!(producer.is_holding());
        assert_eq!(db.get_seed_count(true).unwrap(), 1);
    }
    // Searching again does not replace the seed that is held.
    producer.search(0).expect("the held seed is kept");
    assert!(producer.is_holding());
    assert_eq!(db.fetch_and_delete_seed(true).unwrap(), Some(SEED_A.to_string()));
    assert!(matches!(producer.offer(&mut db, 1), Offer::Stored));
    assert!(!producer.is_holding());
    let text = db.fetch_and_delete_seed(true).unwrap().expect("the producer's seed");
    assert!(check_seed(&easy_rules(true, ""), &seed_of(&text)));
}

#[test]
fn producer_keeps_its_seed_while_the_store_fails() {
    let mut failing = full_store(&[SEED_A]);
    let stored = failing.get_seed_count(false).unwrap();
    let mut producer = Producer::new(easy_rules(false, ""), false);
    producer.search(100_000).expect("a valid seed within the attempts");
    let held = producer.held_seed();
    match producer.offer(&mut failing, usize::MAX) {
        Offer::Failed(error) => assert!(!error.message.is_empty()),
        other => panic!("expected a failure, got {:?}", other),
    }
    assert!(producer.is_holding());
    assert_eq!(producer.held_seed(), held);
    assert_eq!(failing.get_seed_count(false).unwrap(), stored);
    assert!(!failing.is_broken());
    let mut db = memory_store();
    assert!(matches!(producer.offer(&mut db, 10), Offer::Stored));
    assert_eq!(db.get_seed_count(false).unwrap(), 1);
    assert_eq!(
        db.fetch_and_delete_seed(false).unwrap(),
        Some(hex::encode(held.expect("the seed that was held")))
    );
}

#[test]
fn producer_without_a_seed_offers_nothing() {
    let mut db = memory_store();
    let mut producer = Producer::game();
    assert!(!producer.is_holding());
    assert!(matches!(producer.offer(&mut db, 10), Offer::Idle));
    assert_eq!(db.get_seed_count(false).unwrap(), 0);
    assert_eq!(producer.search(0), Err(SearchError::Exhausted));
    assert!(!producer.is_holding());
    let mut sync = Producer::sync();
    assert!(matches!(sync.offer(&mut db, 10), Offer::Idle));
    assert_eq!(db.get_seed_count(true).unwrap(), 0);
}

fn failure(message: &str) -> DbError {
    DbError { message: message.to_string() }
}

#[test]
fn poll_of_tells_what_the_store_gave() {
    match poll_of(Ok(Some(SEED_A.to_string())), false) {
        Poll::Serve(response) => {
            assert_eq!(response.seed, SEED_A);
            assert_eq!(response.kind, "game");
        }
        other => panic!("expected a seed, got {:?}", other),
    }
    match poll_of(Ok(Some(SEED_B.to_string())), true) {
        Poll::Serve(response) => {
            assert_eq!(response.seed, SEED_B);
            assert_eq!(response.kind, "sync");
        }
        other => panic!("expected a seed, got {:?}", other),
    }
    assert!(matches!(poll_of(Ok(None), false), Poll::Wait));
    assert!(matches!(poll_of(Ok(None), true), Poll::Wait));
    match poll_of(Err(failure("disk I/O error")), true) {
        Poll::Failed(error) => assert_eq!(error.message, "disk I/O error"),
        other => panic!("expected a failure, got {:?}", other),
    }
}

#[test]
fn stats_of_needs_both_counts() {
    assert_eq!(stats_of(Ok(3), Ok(8)).unwrap(), StatsResponse { game_seeds: 3, sync_seeds: 8 });
    assert_eq!(stats_of(Ok(0), Ok(0)).unwrap(), StatsResponse { game_seeds: 0, sync_seeds: 0 });
    assert_eq!(stats_of(Err(failure("game")), Ok(8)).err().unwrap().message, "game");
    assert_eq!(stats_of(Ok(3), Err(failure("sync"))).err().unwrap().message, "sync");
    assert_eq!(
        stats_of(Err(failure("game")), Err(failure("sync"))).err().unwrap().message,
        "game"
    );
}

#[test]
fn stats_are_read_from_a_store_that_is_full() {
    let db = full_store(&[SEED_A, SEED_B]);
    let stats = read_stats(&db).unwrap();
    assert_eq!(stats.game_seeds, db.get_seed_count(false).unwrap());
    assert_eq!(stats.sync_seeds, db.get_seed_count(true).unwrap());
    assert!(stats.game_seeds >= 2);
}
