//! The producer of one category: it searches until it holds a valid seed and then
//! offers that seed to the store until the store has taken it. A seed that was
//! found is never given up: while the store is full or fails, the producer goes on
//! holding it.

use crate::model::{bytes_of, put, table_name};
use crate::rules::{RulesView, SeedRules};
use crate::search::{fresh_search_gave, search_fresh, SearchError};
use crate::seed::{hex_text, seed_hex};
use crate::store::{Db, DbError};
use vstd::prelude::*;

verus! {

/// What became of an offer to the store.
#[derive(Debug)]
pub enum Offer {
    /// The store took the seed. The producer holds nothing and searches again.
    Stored,
    /// The category is at its capacity. The producer keeps the seed, to offer it
    /// again after a pause.
    Full,
    /// The store failed. The producer keeps the seed, to offer it again after a
    /// pause.
    Failed(DbError),
    /// The producer held no seed to offer.
    Idle,
}

/// The producer of one category.
pub struct Producer {
    rules: SeedRules,
    is_sync: bool,
    held: Option<[u8; 32]>,
}

impl Producer {
    /// The rules that the producer searches under.
    pub closed spec fn rules(&self) -> RulesView {
        self.rules@
    }

    /// The category that the producer fills.
    pub closed spec fn is_sync(&self) -> bool {
        self.is_sync
    }

    /// The seed that the producer has found and the store has not taken yet, as the
    /// array it is kept in.
    pub closed spec fn holding(&self) -> Option<[u8; 32]> {
        self.held
    }

    /// The seed that the producer has found and the store has not taken yet, as its
    /// bytes.
    pub open spec fn held(&self) -> Option<Seq<u8>> {
        match self.holding() {
            Some(seed) => Some(seed@),
            None => None,
        }
    }

    /// What holds of every producer: a seed that it holds is valid under its rules.
    #[verifier::type_invariant]
    spec fn holds_valid_seed(&self) -> bool {
        self.held matches Some(seed) ==> self.rules@.accepts(seed@)
    }

    /// A producer that holds nothing yet.
    pub fn new(rules: SeedRules, is_sync: bool) -> (producer: Producer)
        ensures
            producer.rules() == rules@,
            producer.is_sync() == is_sync,
            producer.held() is None,
    {
        Producer { rules, is_sync, held: None }
    }

    /// The producer of the `game` category.
    pub fn game() -> (producer: Producer)
        ensures
            producer.rules() == crate::rules::game_rules(),
            !producer.is_sync(),
            producer.held() is None,
    {
        Producer::new(SeedRules::game(), false)
    }

    /// The producer of the `sync` category.
    pub fn sync() -> (producer: Producer)
        ensures
            producer.rules() == crate::rules::sync_rules(),
            producer.is_sync(),
            producer.held() is None,
    {
        Producer::new(SeedRules::sync(), true)
    }

    /// Whether the producer holds a seed.
    pub fn is_holding(&self) -> (holding: bool)
        ensures
            holding == self.held() is Some,
    {
        self.held.is_some()
    }

    /// The seed that is held, which is valid under the producer's rules.
    pub fn held_seed(&self) -> (seed: Option<[u8; 32]>)
        ensures
            seed == self.holding(),
            match seed {
                Some(bytes) => self.held() == Some(bytes@) && self.rules().accepts(bytes@),
                None => self.held() is None,
            },
    {
        proof {
            use_type_invariant(self);
        }
        self.held
    }

    /// Searches for a seed unless one is held already, for at most `attempts`
    /// candidates. After `Ok` the producer holds a seed: the one it held, or else the
    /// one that a search with a fresh generator found. A producer that holds nothing
    /// fails exactly as that search does.
    pub fn search(&mut self, attempts: u64) -> (done: Result<(), SearchError>)
        ensures
            final(self).rules() == old(self).rules(),
            final(self).is_sync() == old(self).is_sync(),
            old(self).held() is Some ==> done is Ok && final(self).held() == old(self).held(),
            done is Ok ==> final(self).held() is Some,
            done is Err ==> final(self).held() is None,
            old(self).held() is None ==> fresh_search_gave(
                old(self).rules(),
                attempts as nat,
                match done {
                    Ok(_) => Ok(final(self).holding().unwrap()),
                    Err(error) => Err(error),
                },
            ),
            old(self).held() is None && attempts == 0 ==> done is Err,
    {
        if self.held.is_some() {
            return Ok(());
        }
        match search_fresh(&self.rules, attempts) {
            Ok(seed) => {
                self.held = Some(seed);
                Ok(())
            },
            Err(e) => Err(e),
        }
    }

    /// Offers the held seed to the store, which takes it unless the category holds
    /// `max_seeds` seeds or more. Whatever the store takes from a producer is the
    /// text of a seed that is valid under the producer's rules, put into the table
    /// of the producer's category; an offer that is not taken changes nothing in
    /// the store.
    pub fn offer(&mut self, db: &mut Db, max_seeds: usize) -> (outcome: Offer)
        requires
            old(db).wf(),
        ensures
            final(db).wf(),
            final(db).broken() == old(db).broken(),
            old(db).broken() && old(self).held() is Some ==> outcome is Failed,
            final(self).rules() == old(self).rules(),
            final(self).is_sync() == old(self).is_sync(),
            final(db).adopted_legacy() == old(db).adopted_legacy(),
            match outcome {
                Offer::Stored => {
                    &&& old(self).held() matches Some(seed)
                    &&& old(self).rules().accepts(seed)
                    &&& final(self).held() is None
                    &&& old(db).has_table(old(self).is_sync())
                    &&& old(db).seeds(old(self).is_sync()).finite()
                    &&& old(db).seeds(old(self).is_sync()).len() < max_seeds
                    &&& final(db).tables() == put(
                        old(db).tables(),
                        table_name(old(self).is_sync()),
                        bytes_of(hex_text(seed)),
                    )
                },
                Offer::Full => {
                    &&& old(self).held() is Some
                    &&& final(self).held() == old(self).held()
                    &&& old(db).seeds(old(self).is_sync()).len() >= max_seeds
                    &&& final(db).tables() == old(db).tables()
                },
                Offer::Failed(_) => {
                    &&& old(self).held() is Some
                    &&& final(self).held() == old(self).held()
                    &&& final(db).tables() == old(db).tables()
                },
                Offer::Idle => {
                    &&& old(self).held() is None
                    &&& final(self).held() is None
                    &&& final(db).tables() == old(db).tables()
                },
            },
    {
        proof {
            use_type_invariant(&*self);
        }
        let seed = match self.held {
            Some(seed) => seed,
            None => {
                return Offer::Idle;
            },
        };
        let text = seed_hex(&seed);
        match db.insert_seed_with_limit(text.as_str(), max_seeds, self.is_sync) {
            Ok(true) => {
                self.held = None;
                Offer::Stored
            },
            Ok(false) => Offer::Full,
            Err(e) => Offer::Failed(e),
        }
    }
}

} // verus!
