//! What the serving side decides: which request asks for what, what a consumer gets
//! when it asks for a seed, and what the statistics say. Waiting and answering are
//! the caller's part.

use crate::model::{bytes_of, table_name, without};
use crate::store::{Db, DbError, DbResult};
use vstd::prelude::*;
use vstd::string::*;
use vstd::utf8::{decode_utf8, encode_utf8, encode_utf8_decode_utf8};

verus! {

/// The most seeds that a category stores unless the caller says otherwise.
pub const MAX_SEEDS: usize = 250_000;

/// The pause, in milliseconds, before an offer or a request is tried again.
pub const WAIT_MILLIS: u64 = 1_000;

/// The answer to a request for a seed.
#[derive(Debug)]
pub struct SeedResponse {
    /// The seed's text.
    pub seed: String,
    /// The name of the seed's category.
    pub kind: &'static str,
}

/// The answer to a request for the statistics.
#[derive(Clone, Copy, Debug, PartialEq, Eq)]
pub struct StatsResponse {
    /// The number of seeds stored for the `game` category.
    pub game_seeds: usize,
    /// The number of seeds stored for the `sync` category.
    pub sync_seeds: usize,
}

/// What a request asks for.
#[derive(Clone, Copy, Debug, PartialEq, Eq)]
pub enum Route {
    /// A seed of the `game` category.
    GameSeed,
    /// A seed of the `sync` category.
    SyncSeed,
    /// The statistics.
    Stats,
    /// Nothing that is served.
    NotFound,
}

/// What one look into the store gave a waiting consumer.
#[derive(Debug)]
pub enum Poll {
    /// A seed, which has left the store.
    Serve(SeedResponse),
    /// No seed is stored: look again after a pause.
    Wait,
    /// The store failed: look again after a pause.
    Failed(DbError),
}

/// The name of a category.
pub open spec fn kind_name(is_sync: bool) -> Seq<char> {
    if is_sync {
        "sync"@
    } else {
        "game"@
    }
}

/// What a request asks for, by its method and its path.
pub open spec fn route_of(method: Seq<char>, url: Seq<char>) -> Route {
    if method == "POST"@ && url == "/seed/game"@ {
        Route::GameSeed
    } else if method == "POST"@ && url == "/seed/sync"@ {
        Route::SyncSeed
    } else if method == "GET"@ && url == "/stats"@ {
        Route::Stats
    } else {
        Route::NotFound
    }
}

/// Whether two texts are the same.
pub fn same_text(a: &str, b: &str) -> (same: bool)
    ensures
        same == (a@ == b@),
{
    let left = a.as_bytes();
    let right = b.as_bytes();
    proof {
        encode_utf8_decode_utf8(a@);
        encode_utf8_decode_utf8(b@);
    }
    if left.len() != right.len() {
        return false;
    }
    let mut i: usize = 0;
    while i < left.len()
        invariant
            i <= left.len(),
            left.len() == right.len(),
            left@ == encode_utf8(a@),
            right@ == encode_utf8(b@),
            forall|j: int| 0 <= j < i ==> left@[j] == right@[j],
        decreases left.len() - i,
    {
        if left[i] != right[i] {
            return false;
        }
        i += 1;
    }
    assert(left@ =~= right@);
    assert(decode_utf8(encode_utf8(a@)) == decode_utf8(encode_utf8(b@)));
    true
}

/// The name of a category, as answers carry it.
pub fn kind_of(is_sync: bool) -> (kind: &'static str)
    ensures
        kind@ == kind_name(is_sync),
{
    if is_sync {
        "sync"
    } else {
        "game"
    }
}

/// Tells what a request asks for. Only the three requests that are served are
/// known; every other method or path is [`Route::NotFound`].
pub fn route(method: &str, url: &str) -> (asked: Route)
    ensures
        asked == route_of(method@, url@),
{
    if same_text(method, "POST") && same_text(url, "/seed/game") {
        Route::GameSeed
    } else if same_text(method, "POST") && same_text(url, "/seed/sync") {
        Route::SyncSeed
    } else if same_text(method, "GET") && same_text(url, "/stats") {
        Route::Stats
    } else {
        Route::NotFound
    }
}

/// What a waiting consumer is told for what the store gave: the seed with the name
/// of its category, to wait when there was none, or the store's failure.
pub fn poll_of(taken: DbResult<Option<String>>, is_sync: bool) -> (poll: Poll)
    ensures
        match taken {
            Ok(Some(seed)) => poll matches Poll::Serve(response) && response.seed == seed
                && response.kind@ == kind_name(is_sync),
            Ok(None) => poll is Wait,
            Err(error) => poll matches Poll::Failed(failure) && failure == error,
        },
{
    match taken {
        Ok(Some(seed_hex)) => Poll::Serve(SeedResponse { seed: seed_hex, kind: kind_of(is_sync) }),
        Ok(None) => Poll::Wait,
        Err(e) => Poll::Failed(e),
    }
}

/// The statistics for the two counts that the store gave: both numbers where both
/// were read, else the failure of the first that was not.
pub fn stats_of(game: DbResult<usize>, sync: DbResult<usize>) -> (stats: DbResult<StatsResponse>)
    ensures
        match (game, sync) {
            (Ok(game_seeds), Ok(sync_seeds)) => stats == Ok::<StatsResponse, DbError>(
                StatsResponse { game_seeds, sync_seeds },
            ),
            (Err(error), _) => stats == Err::<StatsResponse, DbError>(error),
            (Ok(_), Err(error)) => stats == Err::<StatsResponse, DbError>(error),
        },
{
    match (game, sync) {
        (Ok(game_seeds), Ok(sync_seeds)) => Ok(StatsResponse { game_seeds, sync_seeds }),
        (Err(e), _) => Err(e),
        (_, Err(e)) => Err(e),
    }
}

/// Looks into the store once for a waiting consumer. A seed that is served has been
/// taken out of its category for good; no other consumer gets it. A look that
/// fails leaves the store as it was, unless it leaves it broken.
pub fn poll_seed(db: &mut Db, is_sync: bool) -> (poll: Poll)
    requires
        old(db).wf(),
    ensures
        final(db).wf(),
        final(db).adopted_legacy() == old(db).adopted_legacy(),
        old(db).broken() ==> poll is Failed && final(db).broken(),
        match poll {
            Poll::Serve(response) => {
                &&& response.kind@ == kind_name(is_sync)
                &&& old(db).has_table(is_sync)
                &&& old(db).seeds(is_sync).finite()
                &&& old(db).seeds(is_sync).contains(bytes_of(response.seed@))
                &&& final(db).tables() == without(
                    old(db).tables(),
                    table_name(is_sync),
                    bytes_of(response.seed@),
                )
                &&& !final(db).seeds(is_sync).contains(bytes_of(response.seed@))
                &&& final(db).seeds(is_sync).len() == old(db).seeds(is_sync).len() - 1
            },
            Poll::Wait => {
                &&& old(db).has_table(is_sync)
                &&& old(db).seeds(is_sync) == Set::<Seq<u8>>::empty()
                &&& final(db).tables() == old(db).tables()
            },
            Poll::Failed(_) => final(db).broken() || final(db).tables() == old(db).tables(),
        },
{
    let taken = db.fetch_and_delete_seed(is_sync);
    poll_of(taken, is_sync)
}

/// Reads the number of seeds of each category. It fails if either cannot be read.
pub fn read_stats(db: &Db) -> (stats: DbResult<StatsResponse>)
    requires
        db.wf(),
    ensures
        stats matches Ok(counts) ==> {
            &&& db.has_table(false)
            &&& db.has_table(true)
            &&& db.seeds(false).finite()
            &&& db.seeds(true).finite()
            &&& counts.game_seeds == db.seeds(false).len()
            &&& counts.sync_seeds == db.seeds(true).len()
        },
        db.broken() ==> stats is Err,
{
    let game = db.get_seed_count(false);
    let sync = db.get_seed_count(true);
    stats_of(game, sync)
}

} // verus!
