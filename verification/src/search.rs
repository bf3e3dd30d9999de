//! The search for valid seeds: draw a candidate, hold it to the rules of its
//! category, and go on until one passes or the attempts run out.
//!
//! Candidates come from `rand`, through the two trusted functions at the end of
//! this file. Nothing is assumed of them, so whatever the search returns has passed
//! the validation itself.

use crate::address::{derive_address, render_address};
use crate::rules::{game_rules, is_tail, sync_rules, RulesView, SeedRules};
use rand::rngs::StdRng;
use rand::Rng;
use rand::SeedableRng;
use vstd::prelude::*;
use vstd::string::*;

verus! {

/// The generator that candidates are drawn from. Nothing is known of its state.
#[verifier::external_type_specification]
#[verifier::external_body]
pub struct ExStdRng(StdRng);

/// Why a search came back without a seed.
#[derive(Clone, Copy, Debug, PartialEq, Eq)]
pub enum SearchError {
    /// The operating system gave no entropy to seed the generator with.
    NoEntropy,
    /// No candidate within the allowed attempts was valid.
    Exhausted,
}

/// Whether `text` ends with `suffix`, compared byte for byte.
pub fn ends_with(text: &str, suffix: &str) -> (matched: bool)
    ensures
        matched == is_tail(text.spec_bytes(), suffix.spec_bytes()),
{
    let text_bytes = text.as_bytes();
    let tail = suffix.as_bytes();
    if tail.len() > text_bytes.len() {
        return false;
    }
    let start: usize = text_bytes.len() - tail.len();
    let mut i: usize = 0;
    while i < tail.len()
        invariant
            i <= tail.len(),
            start + tail.len() == text_bytes.len(),
            text_bytes@ == text.spec_bytes(),
            tail@ == suffix.spec_bytes(),
            forall|j: int| 0 <= j < i ==> text_bytes@[start + j] == tail@[j],
        decreases tail.len() - i,
    {
        if text_bytes[start + i] != tail[i] {
            assert(text_bytes@.subrange(start as int, text_bytes@.len() as int)[i as int]
                != tail@[i as int]);
            return false;
        }
        i += 1;
    }
    assert(text_bytes@.subrange(start as int, text_bytes@.len() as int) =~= tail@);
    true
}

/// Whether every sibling address of `primary` can be derived under the rules. The
/// first failure ends the work.
pub fn siblings_derive(rules: &SeedRules, primary: &[u8; 32]) -> (all: bool)
    ensures
        all == rules@.siblings_derive(primary@),
{
    let mut i: usize = 0;
    while i < rules.other_prefixes.len()
        invariant
            i <= rules.other_prefixes.len(),
            forall|j: int| 0 <= j < i ==> (#[trigger] rules@.sibling(j, primary@)) is Some,
        decreases rules.other_prefixes.len() - i,
    {
        let sibling = derive_address(
            rules.other_prefixes[i].as_slice(),
            primary,
            &rules.program_id,
        );
        assert(rules@.other_prefixes[i as int] == rules.other_prefixes@[i as int]@);
        if sibling.is_none() {
            assert(rules@.sibling(i as int, primary@) is None);
            return false;
        }
        i += 1;
    }
    true
}

/// The validation predicate, run on one seed: `true` exactly for the seeds that the
/// rules accept.
pub fn check_seed(rules: &SeedRules, seed: &[u8; 32]) -> (valid: bool)
    ensures
        valid == rules@.accepts(seed@),
{
    let primary = match derive_address(rules.prefix.as_slice(), seed, &rules.program_id) {
        Some(address) => address,
        None => {
            return false;
        },
    };
    let mint = match derive_address(rules.mint_prefix.as_slice(), &primary, &rules.program_id) {
        Some(address) => address,
        None => {
            return false;
        },
    };
    let text = render_address(&mint);
    if !ends_with(text.as_str(), rules.suffix.as_str()) {
        return false;
    }
    siblings_derive(rules, &primary)
}

/// What becomes of a candidate: it is kept if the rules accept it and dropped if
/// they do not.
pub open spec fn verdict(rules: RulesView, candidate: [u8; 32]) -> Option<[u8; 32]> {
    if rules.accepts(candidate@) {
        Some(candidate)
    } else {
        None
    }
}

/// Whether `found` is what a search gives that may draw `attempts` candidates and
/// drew `drawn`, in this order: every candidate before the last was rejected, and
/// either the last was accepted and is what was found, or all `attempts` were drawn
/// and rejected and nothing was found.
pub open spec fn search_gave(
    rules: RulesView,
    drawn: Seq<[u8; 32]>,
    attempts: nat,
    found: Option<[u8; 32]>,
) -> bool {
    &&& drawn.len() <= attempts
    &&& forall|i: int| 0 <= i < drawn.len() - 1 ==> !rules.accepts((#[trigger] drawn[i])@)
    &&& match found {
        Some(seed) => drawn.len() > 0 && drawn.last() == seed && rules.accepts(seed@),
        None => drawn.len() == attempts && (drawn.len() > 0 ==> !rules.accepts(drawn.last()@)),
    }
}

/// Judges one candidate: the candidate itself if the rules accept it, else nothing.
pub fn judge(rules: &SeedRules, candidate: [u8; 32]) -> (found: Option<[u8; 32]>)
    ensures
        found == verdict(rules@, candidate),
{
    if check_seed(rules, &candidate) {
        Some(candidate)
    } else {
        None
    }
}

/// Draws one candidate and returns it if the rules accept it. Which candidate is
/// drawn is the generator's to say; the result is the verdict on that candidate.
pub fn attempt(rules: &SeedRules, rng: &mut StdRng) -> (found: Option<[u8; 32]>)
    ensures
        exists|candidate: [u8; 32]| found == verdict(rules@, candidate),
        found matches Some(seed) ==> rules@.accepts(seed@),
{
    let candidate = random_seed(rng);
    judge(rules, candidate)
}

/// Draws candidates until the rules accept one, at most `attempts` times. Rejected
/// candidates leave no trace. The first candidate that the rules accept is
/// returned at once; nothing is returned only after `attempts` candidates were
/// drawn and every one of them was rejected.
pub fn search(rules: &SeedRules, rng: &mut StdRng, attempts: u64) -> (found: Option<[u8; 32]>)
    ensures
        exists|drawn: Seq<[u8; 32]>| search_gave(rules@, drawn, attempts as nat, found),
        found matches Some(seed) ==> rules@.accepts(seed@),
        attempts == 0 ==> found is None,
{
    let mut left: u64 = attempts;
    let ghost mut drawn: Seq<[u8; 32]> = Seq::empty();
    while left > 0
        invariant
            left <= attempts,
            drawn.len() == attempts - left,
            forall|i: int| 0 <= i < drawn.len() ==> !rules@.accepts((#[trigger] drawn[i])@),
        decreases left,
    {
        let kept = attempt(rules, rng);
        let ghost candidate = choose|candidate: [u8; 32]| kept == verdict(rules@, candidate);
        proof {
            drawn = drawn.push(candidate);
        }
        if let Some(seed) = kept {
            assert(search_gave(rules@, drawn, attempts as nat, Some(seed)));
            return Some(seed);
        }
        left -= 1;
    }
    assert(search_gave(rules@, drawn, attempts as nat, None));
    None
}

/// One attempt under the rules of the `game` category: the verdict of those rules
/// on the candidate that was drawn.
pub fn attempt_game(rng: &mut StdRng) -> (found: Option<[u8; 32]>)
    ensures
        exists|candidate: [u8; 32]| found == verdict(game_rules(), candidate),
        found matches Some(seed) ==> game_rules().accepts(seed@),
{
    let rules = SeedRules::game();
    attempt(&rules, rng)
}

/// One attempt under the rules of the `sync` category: the verdict of those rules
/// on the candidate that was drawn.
pub fn attempt_sync(rng: &mut StdRng) -> (found: Option<[u8; 32]>)
    ensures
        exists|candidate: [u8; 32]| found == verdict(sync_rules(), candidate),
        found matches Some(seed) ==> sync_rules().accepts(seed@),
{
    let rules = SeedRules::sync();
    attempt(&rules, rng)
}

/// What a search with a fresh generator returns when it had a generator at all: the
/// seed that the search found, or [`SearchError::Exhausted`] where it found none.
pub open spec fn reported(kept: Option<[u8; 32]>) -> Result<[u8; 32], SearchError> {
    match kept {
        Some(seed) => Ok(seed),
        None => Err(SearchError::Exhausted),
    }
}

/// Whether `found` can come of a search with a fresh generator: either no generator
/// could be made, or `found` reports what a search gave that may draw `attempts`
/// candidates.
pub open spec fn fresh_search_gave(
    rules: RulesView,
    attempts: nat,
    found: Result<[u8; 32], SearchError>,
) -> bool {
    ||| found == Err::<[u8; 32], SearchError>(SearchError::NoEntropy)
    ||| exists|drawn: Seq<[u8; 32]>, kept: Option<[u8; 32]>|
        #[trigger] search_gave(rules, drawn, attempts, kept) && found == reported(kept)
}

/// Searches as [`search`] does, with a generator that the operating system seeds.
/// Whether the system has entropy to give is the system's to say, and where it has
/// none the search fails with [`SearchError::NoEntropy`] before any candidate is
/// drawn. Else the seed that [`search`] found is returned, or
/// [`SearchError::Exhausted`] after `attempts` rejected candidates.
pub fn search_fresh(rules: &SeedRules, attempts: u64) -> (found: Result<[u8; 32], SearchError>)
    ensures
        fresh_search_gave(rules@, attempts as nat, found),
        found matches Ok(seed) ==> rules@.accepts(seed@),
        attempts == 0 ==> found is Err,
{
    let mut rng = match system_rng() {
        Some(rng) => rng,
        None => {
            return Err(SearchError::NoEntropy);
        },
    };
    let outcome = search(rules, &mut rng, attempts);
    let ghost drawn = choose|drawn: Seq<[u8; 32]>|
        search_gave(rules@, drawn, attempts as nat, outcome);
    match outcome {
        Some(seed) => {
            assert(search_gave(rules@, drawn, attempts as nat, outcome) && Ok::<
                [u8; 32],
                SearchError,
            >(seed) == reported(outcome));
            Ok(seed)
        },
        None => {
            assert(search_gave(rules@, drawn, attempts as nat, outcome) && Err::<
                [u8; 32],
                SearchError,
            >(SearchError::Exhausted) == reported(outcome));
            Err(SearchError::Exhausted)
        },
    }
}

/// Searches for a seed of the `game` category with a freshly seeded generator, for
/// at most `attempts` candidates, as [`search_fresh`] does under the rules of that
/// category.
pub fn search_game(attempts: u64) -> (found: Result<[u8; 32], SearchError>)
    ensures
        fresh_search_gave(game_rules(), attempts as nat, found),
        found matches Ok(seed) ==> game_rules().accepts(seed@),
        attempts == 0 ==> found is Err,
{
    let rules = SeedRules::game();
    search_fresh(&rules, attempts)
}

/// Searches for a seed of the `sync` category with a freshly seeded generator, for
/// at most `attempts` candidates, as [`search_fresh`] does under the rules of that
/// category.
pub fn search_sync(attempts: u64) -> (found: Result<[u8; 32], SearchError>)
    ensures
        fresh_search_gave(sync_rules(), attempts as nat, found),
        found matches Ok(seed) ==> sync_rules().accepts(seed@),
        attempts == 0 ==> found is Err,
{
    let rules = SeedRules::sync();
    search_fresh(&rules, attempts)
}

/// Draws 32 bytes from the generator by `Rng::random`. Nothing is promised of them.
#[verifier::external_body]
fn random_seed(rng: &mut StdRng) -> (seed: [u8; 32]) {
    rng.random()
}

/// Makes a generator that the operating system seeds, by
/// `SeedableRng::try_from_os_rng`; `None` where the system gives no entropy.
#[verifier::external_body]
fn system_rng() -> (rng: Option<StdRng>) {
    match StdRng::try_from_os_rng() {
        Ok(rng) => Some(rng),
        Err(_) => None,
    }
}

} // verus!
