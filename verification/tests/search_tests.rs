use rand::rngs::StdRng;
use rand::SeedableRng;
use solana_pubkey::Pubkey;
use vanity_seeds::rules::{ivy_program_id, SeedRules};
use vanity_seeds::search::{
    attempt, attempt_game, attempt_sync, check_seed, ends_with, judge, search, search_fresh,
    search_game, search_sync, siblings_derive, SearchError,
};
use vanity_seeds::seed::seed_hex;

const PROGRAM: &str = "DkGdbW8SJmUoVE9KaBRwrvsQVhcuidy47DimjrhSoySE";

fn seed_of(text: &str) -> [u8; 32] {
    let bytes = hex::decode(text).expect("hexadecimal text");
    let mut seed = [0u8; 32];
    seed.copy_from_slice(&bytes);
    seed
}

fn game_rules_with_suffix(suffix: &str) -> SeedRules {
    let mut rules = SeedRules::game();
    rules.suffix = suffix.to_string();
    rules
}

fn sync_rules_with_suffix(suffix: &str) -> SeedRules {
    let mut rules = SeedRules::sync();
    rules.suffix = suffix.to_string();
    rules
}

/// The validation predicate, computed with the derivation crate alone.
fn expected(rules: &SeedRules, seed: &[u8; 32]) -> bool {
    let program = Pubkey::new_from_array(rules.program_id);
    let Ok(primary) = Pubkey::create_program_address(&[&rules.prefix, seed], &program) else {
        return false;
    };
    let primary = primary.to_bytes();
    let Ok(mint) = Pubkey::create_program_address(&[&rules.mint_prefix, &primary], &program)
    else {
        return false;
    };
    if !mint.to_string().ends_with(rules.suffix.as_str()) {
        return false;
    }
    rules
        .other_prefixes
        .iter()
        .all(|prefix| Pubkey::create_program_address(&[prefix, &primary], &program).is_ok())
}

#[test]
fn program_identifier_displays_as_documented() {
    assert_eq!(Pubkey::new_from_array(ivy_program_id()).to_string(), PROGRAM);
    assert_eq!(ivy_program_id(), Pubkey::from_str_const(PROGRAM).to_bytes());
}

#[test]
fn game_rules_hold_the_game_prefixes() {
    let rules = SeedRules::game();
    assert_eq!(rules.program_id, ivy_program_id());
    assert_eq!(rules.prefix, b"game".to_vec());
    assert_eq!(rules.mint_prefix, b"game_mint".to_vec());
    assert_eq!(
        rules.other_prefixes,
        vec![
            b"game_ivy_wallet".to_vec(),
            b"game_curve_wallet".to_vec(),
            b"game_treasury_wallet".to_vec()
        ]
    );
    assert_eq!(rules.suffix, "ivy");
}

#[test]
fn sync_rules_hold_the_sync_prefixes() {
    let rules = SeedRules::sync();
    assert_eq!(rules.program_id, ivy_program_id());
    assert_eq!(rules.prefix, b"sync".to_vec());
    assert_eq!(rules.mint_prefix, b"sync_mint".to_vec());
    assert_eq!(
        rules.other_prefixes,
        vec![b"sync_sync_wallet".to_vec(), b"sync_pump_wallet".to_vec()]
    );
    assert_eq!(rules.suffix, "ivy");
}

#[test]
fn ends_with_compares_the_tail() {
    assert!(ends_with("zqhFsjfKtsWF2ANEHXK7pdFeXofhF8sjSN1gR8Tuivy", "ivy"));
    assert!(ends_with("ivy", "ivy"));
    assert!(ends_with("ivy", ""));
    assert!(ends_with("", ""));
    assert!(!ends_with("", "ivy"));
    assert!(!ends_with("vy", "ivy"));
    assert!(!ends_with("6MyP3ezuDqaCC3GKRJZDeuA8nBcDA5dvmrtaqAiDqL6X", "ivy"));
    assert!(!ends_with("ivyX", "ivy"));
    assert!(!ends_with("abcivx", "ivy"));
    assert!(!ends_with("abcxvy", "ivy"));
}

#[test]
fn ends_with_is_case_sensitive_and_bytewise() {
    assert!(!ends_with("abcIVY", "ivy"));
    assert!(!ends_with("abcivy", "Ivy"));
    assert!(ends_with("caf\u{e9}", "\u{e9}"));
    assert!(ends_with("caf\u{e9}", "f\u{e9}"));
    assert!(!ends_with("cafe", "\u{e9}"));
}

#[test]
fn known_game_seed_is_valid() {
    let seed = seed_of("692b0b999a8c56b98f039a7a0e0bc7d76cfc89b41183bff34ee2d64886989261");
    assert!(check_seed(&SeedRules::game(), &seed));
    assert!(expected(&SeedRules::game(), &seed));
}

#[test]
fn known_sync_seed_is_valid() {
    let seed = seed_of("05eef022876dc8b3cd7c85c93d37d0827c22f7df51eb63276e529489eba03e64");
    assert!(check_seed(&SeedRules::sync(), &seed));
    assert!(expected(&SeedRules::sync(), &seed));
    // The rules of the other category derive other addresses from it.
    assert!(!check_seed(&SeedRules::game(), &seed));
    let game = seed_of("692b0b999a8c56b98f039a7a0e0bc7d76cfc89b41183bff34ee2d64886989261");
    assert!(!check_seed(&SeedRules::sync(), &game));
}

#[test]
fn seed_with_another_suffix_is_rejected() {
    let seed = seed_of("000102030405060708090a0b0c0d0e0f101112131415161718191a1b1c1d1e1f");
    let program = Pubkey::new_from_array(ivy_program_id());
    let primary = Pubkey::create_program_address(&[b"game", &seed], &program).unwrap();
    assert_eq!(primary.to_string(), "AEybsyeE7VN77HCcUHQjbDZRf7D4jkdTp78G9bCGTmqP");
    let mint =
        Pubkey::create_program_address(&[b"game_mint", &primary.to_bytes()], &program).unwrap();
    assert_eq!(mint.to_string(), "6MyP3ezuDqaCC3GKRJZDeuA8nBcDA5dvmrtaqAiDqL6X");
    assert!(!check_seed(&SeedRules::game(), &seed));
    assert!(!check_seed(&game_rules_with_suffix("L6x"), &seed));
    assert!(!check_seed(&SeedRules::game(), &[0u8; 32]));
}

#[test]
fn accepted_iff_suffix_matches_and_siblings_derive() {
    // The mint address of this seed ends in "Pwy" and all its siblings derive.
    let seed = seed_of("c7834dcd8c95ca2aec8cc2c6e368d5ad86b6f7bf8b1e30237435a01e890491f5");
    assert!(check_seed(&game_rules_with_suffix("y"), &seed));
    assert!(check_seed(&game_rules_with_suffix("wy"), &seed));
    assert!(check_seed(&game_rules_with_suffix("Pwy"), &seed));
    assert!(check_seed(&game_rules_with_suffix(""), &seed));
    assert!(check_seed(
        &game_rules_with_suffix("6ZqiHKsLnh8A1Z1vNMwcsCiQy4u8VRVR4NxgnJQgmPwy"),
        &seed
    ));
    assert!(!check_seed(&game_rules_with_suffix("pwy"), &seed));
    assert!(!check_seed(&game_rules_with_suffix("ivy"), &seed));
    assert!(!check_seed(&game_rules_with_suffix("Pw"), &seed));
    assert!(siblings_derive(
        &SeedRules::game(),
        &Pubkey::create_program_address(&[b"game", &seed], &Pubkey::new_from_array(ivy_program_id()))
            .unwrap()
            .to_bytes()
    ));
}

#[test]
fn seed_without_primary_address_is_rejected() {
    let seed = seed_of("80540b17e2b1b70fcce6c096f4089325e18025668a1af90ccdce9a1e2e65d7ec");
    assert!(!check_seed(&game_rules_with_suffix(""), &seed));
    assert!(!check_seed(&SeedRules::game(), &[0xffu8; 32]));
    assert!(!expected(&game_rules_with_suffix(""), &seed));
}

#[test]
fn seed_without_mint_address_is_rejected() {
    let seed = seed_of("34335cf42e144aaf93d08c252d445437f6e7e1f30fd05c8e8c663029d041b87a");
    assert!(!check_seed(&game_rules_with_suffix(""), &seed));
    assert!(!expected(&game_rules_with_suffix(""), &seed));
}

#[test]
fn seed_with_a_failing_sibling_is_rejected() {
    // The mint address of this seed ends in "y", but one sibling has no address.
    let seed = seed_of("ddfe80f0fb5cb41432e214ea9410da6805df6fab110d4229df79af9fadae6d7d");
    let rules = game_rules_with_suffix("y");
    assert!(!check_seed(&rules, &seed));
    let primary = Pubkey::create_program_address(
        &[b"game", &seed],
        &Pubkey::new_from_array(ivy_program_id()),
    )
    .unwrap()
    .to_bytes();
    assert!(!siblings_derive(&rules, &primary));
    // Without sibling prefixes nothing is left to fail.
    let mut alone = game_rules_with_suffix("y");
    alone.other_prefixes = Vec::new();
    assert!(check_seed(&alone, &seed));
    assert!(siblings_derive(&alone, &primary));
}

#[test]
fn sync_rules_judge_by_the_sync_prefixes() {
    let valid = seed_of("92f3203afb810857b3ea19b01b824ddb872a306e0deca9f978d70cc0d4657e04");
    assert!(check_seed(&sync_rules_with_suffix("y"), &valid));
    assert!(check_seed(&sync_rules_with_suffix("12y"), &valid));
    assert!(!check_seed(&SeedRules::sync(), &valid));
    assert!(!check_seed(&game_rules_with_suffix("12y"), &valid));
    let sibling_fails = seed_of("7816d4d909a7a4d8cf31fef583b6fa1ad6cd4c3c1b0160c726a80114f2a46ac8");
    assert!(!check_seed(&sync_rules_with_suffix("y"), &sibling_fails));
    let no_mint = seed_of("5dc7bc35dc1010c83e7e7fc085d937e7a965f4b87ac6cca7b495e3fe84f8191e");
    assert!(!check_seed(&sync_rules_with_suffix(""), &no_mint));
    let no_primary = seed_of("afd280f233147e4536afd7ee6ac9f594b2d5249cb760fd0d58f39813e5b007c7");
    assert!(!check_seed(&sync_rules_with_suffix(""), &no_primary));
}

#[test]
fn over_long_prefix_derives_nothing() {
    let seed = seed_of("c7834dcd8c95ca2aec8cc2c6e368d5ad86b6f7bf8b1e30237435a01e890491f5");
    let mut rules = game_rules_with_suffix("");
    rules.prefix = vec![b'g'; 33];
    assert!(!check_seed(&rules, &seed));
    assert!(!expected(&rules, &seed));
}

#[test]
fn check_seed_agrees_with_the_derivation_on_many_seeds() {
    let mut rng = StdRng::seed_from_u64(41);
    let game = game_rules_with_suffix("");
    let sync = sync_rules_with_suffix("y");
    let mut accepted = 0;
    for round in 0u32..400 {
        let mut seed = [0u8; 32];
        rand::RngCore::fill_bytes(&mut rng, &mut seed);
        seed[0] = round as u8;
        let game_verdict = check_seed(&game, &seed);
        assert_eq!(game_verdict, expected(&game, &seed));
        assert_eq!(check_seed(&sync, &seed), expected(&sync, &seed));
        if game_verdict {
            accepted += 1;
        }
    }
    assert!(accepted > 0);
    assert!(accepted < 400);
}

#[test]
fn every_seed_that_an_attempt_returns_is_valid() {
    let mut rng = StdRng::seed_from_u64(7);
    let rules = game_rules_with_suffix("");
    let mut found = 0;
    for _ in 0..300 {
        if let Some(seed) = attempt(&rules, &mut rng) {
            assert!(check_seed(&rules, &seed));
            assert!(expected(&rules, &seed));
            found += 1;
        }
    }
    assert!(found > 0);
    for _ in 0..50 {
        if let Some(seed) = attempt_game(&mut rng) {
            assert!(check_seed(&SeedRules::game(), &seed));
        }
        if let Some(seed) = attempt_sync(&mut rng) {
            assert!(check_seed(&SeedRules::sync(), &seed));
        }
    }
}

#[test]
fn attempts_draw_fresh_candidates() {
    let mut rng = StdRng::seed_from_u64(3);
    let rules = game_rules_with_suffix("");
    let mut seeds = Vec::new();
    for _ in 0..200 {
        if let Some(seed) = attempt(&rules, &mut rng) {
            seeds.push(seed);
        }
    }
    assert!(seeds.len() >= 2);
    assert_ne!(seeds[0], seeds[1]);
}

#[test]
fn search_returns_a_valid_seed() {
    let mut rng = StdRng::seed_from_u64(11);
    let rules = game_rules_with_suffix("y");
    let seed = search(&rules, &mut rng, 1_000_000).expect("one candidate in a million is valid");
    assert!(check_seed(&rules, &seed));
    assert!(expected(&rules, &seed));
    let mint_ends_in_y = {
        let program = Pubkey::new_from_array(ivy_program_id());
        let primary = Pubkey::create_program_address(&[b"game", &seed], &program).unwrap();
        Pubkey::create_program_address(&[b"game_mint", &primary.to_bytes()], &program)
            .unwrap()
            .to_string()
            .ends_with('y')
    };
    assert!(mint_ends_in_y);
}

#[test]
fn search_without_attempts_finds_nothing() {
    let mut rng = StdRng::seed_from_u64(11);
    assert_eq!(search(&game_rules_with_suffix(""), &mut rng, 0), None);
    assert_eq!(search_game(0), Err(SearchError::Exhausted));
    assert_eq!(search_sync(0), Err(SearchError::Exhausted));
    assert_eq!(search_fresh(&game_rules_with_suffix(""), 0), Err(SearchError::Exhausted));
}

#[test]
fn search_gives_up_when_the_attempts_run_out() {
    // No display string ends in a character outside its alphabet.
    let mut rng = StdRng::seed_from_u64(5);
    assert_eq!(search(&game_rules_with_suffix("0"), &mut rng, 200), None);
    assert_eq!(search_fresh(&game_rules_with_suffix("0"), 200), Err(SearchError::Exhausted));
}

#[test]
fn fresh_search_returns_a_valid_seed() {
    let rules = sync_rules_with_suffix("");
    let seed = search_fresh(&rules, 100_000).expect("a valid seed within the attempts");
    assert!(check_seed(&rules, &seed));
    match search_game(20) {
        Ok(seed) => assert!(check_seed(&SeedRules::game(), &seed)),
        Err(e) => assert_eq!(e, SearchError::Exhausted),
    }
    match search_sync(20) {
        Ok(seed) => assert!(check_seed(&SeedRules::sync(), &seed)),
        Err(e) => assert_eq!(e, SearchError::Exhausted),
    }
}

#[test]
fn seed_text_is_lowercase_hexadecimal() {
    let mut seed = [0u8; 32];
    for (i, byte) in seed.iter_mut().enumerate() {
        *byte = i as u8;
    }
    assert_eq!(
        seed_hex(&seed),
        "000102030405060708090a0b0c0d0e0f101112131415161718191a1b1c1d1e1f"
    );
    assert_eq!(seed_hex(&[0xffu8; 32]), "f".repeat(64));
    assert_eq!(seed_hex(&[0xa9u8; 32]), "a9".repeat(32));
    let known = seed_of("692b0b999a8c56b98f039a7a0e0bc7d76cfc89b41183bff34ee2d64886989261");
    assert_eq!(
        seed_hex(&known),
        "692b0b999a8c56b98f039a7a0e0bc7d76cfc89b41183bff34ee2d64886989261"
    );
    assert_eq!(seed_hex(&known).len(), 64);
}

#[test]
fn judge_keeps_valid_candidates_and_drops_the_others() {
    let valid = seed_of("692b0b999a8c56b98f039a7a0e0bc7d76cfc89b41183bff34ee2d64886989261");
    assert_eq!(judge(&SeedRules::game(), valid), Some(valid));
    assert_eq!(judge(&SeedRules::sync(), valid), None);
    let other_suffix = seed_of("c7834dcd8c95ca2aec8cc2c6e368d5ad86b6f7bf8b1e30237435a01e890491f5");
    assert_eq!(judge(&SeedRules::game(), other_suffix), None);
    assert_eq!(judge(&game_rules_with_suffix("Pwy"), other_suffix), Some(other_suffix));
    assert_eq!(judge(&SeedRules::game(), [0u8; 32]), None);
    assert_eq!(judge(&SeedRules::game(), [0xffu8; 32]), None);
}

#[test]
fn search_returns_the_first_valid_candidate() {
    // The same generator, asked candidate by candidate, gives what the search gives.
    let rules = game_rules_with_suffix("");
    let mut by_hand = StdRng::seed_from_u64(23);
    let mut drawn = 0u64;
    let first = loop {
        drawn += 1;
        if let Some(seed) = attempt(&rules, &mut by_hand) {
            break seed;
        }
    };
    let mut fresh = StdRng::seed_from_u64(23);
    assert_eq!(search(&rules, &mut fresh, drawn), Some(first));
    if drawn > 1 {
        let mut short = StdRng::seed_from_u64(23);
        assert_eq!(search(&rules, &mut short, drawn - 1), None);
    }
    let mut long = StdRng::seed_from_u64(23);
    assert_eq!(search(&rules, &mut long, drawn + 100), Some(first));
}
