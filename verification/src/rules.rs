//! What makes a seed valid for a category: the prefixes its addresses are derived
//! under, the program they belong to, and the suffix its mint address must show.

use crate::address::{address_text, program_address};
use vstd::prelude::*;
use vstd::string::*;
use vstd::utf8::encode_utf8;

verus! {

/// The rules of one category.
pub struct SeedRules {
    /// The program that every address is derived under.
    pub program_id: [u8; 32],
    /// The prefix of the primary address, which is derived from the seed.
    pub prefix: Vec<u8>,
    /// The prefix of the mint address, which is derived from the primary address.
    pub mint_prefix: Vec<u8>,
    /// The prefixes of the sibling addresses, each derived from the primary address.
    pub other_prefixes: Vec<Vec<u8>>,
    /// What the mint address's display string must end with.
    pub suffix: String,
}

/// The rules of a category as plain values.
pub struct RulesView {
    pub program_id: Seq<u8>,
    pub prefix: Seq<u8>,
    pub mint_prefix: Seq<u8>,
    pub other_prefixes: Seq<Seq<u8>>,
    pub suffix: Seq<char>,
}

/// Whether `text` ends with `tail`, byte for byte.
pub open spec fn is_tail(text: Seq<u8>, tail: Seq<u8>) -> bool {
    tail.len() <= text.len() && text.subrange(text.len() - tail.len(), text.len() as int) == tail
}

impl RulesView {
    /// The primary address of a seed, where it has one.
    pub open spec fn primary(self, seed: Seq<u8>) -> Option<Seq<u8>> {
        program_address(seq![self.prefix, seed], self.program_id)
    }

    /// The mint address that belongs to a primary address, where it has one.
    pub open spec fn mint(self, primary: Seq<u8>) -> Option<Seq<u8>> {
        program_address(seq![self.mint_prefix, primary], self.program_id)
    }

    /// The sibling address under the `i`-th sibling prefix, where there is one.
    pub open spec fn sibling(self, i: int, primary: Seq<u8>) -> Option<Seq<u8>> {
        program_address(seq![self.other_prefixes[i], primary], self.program_id)
    }

    /// Whether the display string of a mint address ends with the suffix.
    pub open spec fn suffix_matches(self, mint: Seq<u8>) -> bool {
        is_tail(encode_utf8(address_text(mint)), encode_utf8(self.suffix))
    }

    /// Whether every sibling address of a primary address can be derived.
    pub open spec fn siblings_derive(self, primary: Seq<u8>) -> bool {
        forall|i: int|
            0 <= i < self.other_prefixes.len() ==> (#[trigger] self.sibling(i, primary)) is Some
    }

    /// The validation predicate: the seed has a primary address, that address has a
    /// mint address whose display string ends with the suffix, and every sibling
    /// address of the primary address can be derived.
    pub open spec fn accepts(self, seed: Seq<u8>) -> bool {
        match self.primary(seed) {
            Some(primary) => match self.mint(primary) {
                Some(mint) => self.suffix_matches(mint) && self.siblings_derive(primary),
                None => false,
            },
            None => false,
        }
    }
}

/// Whether `primary` and `mint` are the addresses of `seed` and meet the rules: the
/// display string of `mint` ends with the suffix, and every sibling of `primary`
/// can be derived.
pub open spec fn meets(rules: RulesView, seed: Seq<u8>, primary: Seq<u8>, mint: Seq<u8>) -> bool {
    &&& program_address(seq![rules.prefix, seed], rules.program_id) == Some(primary)
    &&& program_address(seq![rules.mint_prefix, primary], rules.program_id) == Some(mint)
    &&& is_tail(encode_utf8(address_text(mint)), encode_utf8(rules.suffix))
    &&& forall|i: int|
        0 <= i < rules.other_prefixes.len() ==> program_address(
            seq![#[trigger] rules.other_prefixes[i], primary],
            rules.program_id,
        ) is Some
}

/// A seed is accepted exactly when its primary and mint addresses exist, the mint
/// address's display string ends with the suffix, and every sibling derivation
/// succeeds.
pub proof fn lemma_accepts_iff(rules: RulesView, seed: Seq<u8>)
    ensures
        rules.accepts(seed) <==> exists|primary: Seq<u8>, mint: Seq<u8>|
            meets(rules, seed, primary, mint),
{
    if rules.accepts(seed) {
        let primary = rules.primary(seed).unwrap();
        let mint = rules.mint(primary).unwrap();
        assert forall|i: int| 0 <= i < rules.other_prefixes.len() implies program_address(
            seq![#[trigger] rules.other_prefixes[i], primary],
            rules.program_id,
        ) is Some by {
            assert(rules.sibling(i, primary) is Some);
        }
        assert(meets(rules, seed, primary, mint));
    }
    if exists|primary: Seq<u8>, mint: Seq<u8>| meets(rules, seed, primary, mint) {
        let (primary, mint) = choose|primary: Seq<u8>, mint: Seq<u8>|
            meets(rules, seed, primary, mint);
        assert(rules.suffix_matches(mint));
        assert forall|i: int| 0 <= i < rules.other_prefixes.len() implies (
        #[trigger] rules.sibling(i, primary)) is Some by {
            assert(program_address(seq![rules.other_prefixes[i], primary], rules.program_id)
                is Some);
        }
    }
}

/// The program that the `game` and `sync` addresses belong to, as its 32 bytes. Its
/// display string is `DkGdbW8SJmUoVE9KaBRwrvsQVhcuidy47DimjrhSoySE`.
pub open spec fn ivy_program() -> Seq<u8> {
    seq![
        189u8, 97, 228, 81, 208, 165, 57, 10, 165, 90, 21, 163, 90, 181, 43, 202,
        190, 2, 230, 238, 193, 5, 25, 254, 85, 206, 116, 50, 223, 141, 241, 151,
    ]
}

/// The rules of the `game` category.
pub open spec fn game_rules() -> RulesView {
    RulesView {
        program_id: ivy_program(),
        prefix: "game".spec_bytes(),
        mint_prefix: "game_mint".spec_bytes(),
        other_prefixes: seq![
            "game_ivy_wallet".spec_bytes(),
            "game_curve_wallet".spec_bytes(),
            "game_treasury_wallet".spec_bytes(),
        ],
        suffix: "ivy"@,
    }
}

/// The rules of the `sync` category.
pub open spec fn sync_rules() -> RulesView {
    RulesView {
        program_id: ivy_program(),
        prefix: "sync".spec_bytes(),
        mint_prefix: "sync_mint".spec_bytes(),
        other_prefixes: seq!["sync_sync_wallet".spec_bytes(), "sync_pump_wallet".spec_bytes()],
        suffix: "ivy"@,
    }
}

/// The 32 bytes of [`ivy_program`].
pub fn ivy_program_id() -> (id: [u8; 32])
    ensures
        id@ == ivy_program(),
{
    let id: [u8; 32] = [
        189, 97, 228, 81, 208, 165, 57, 10, 165, 90, 21, 163, 90, 181, 43, 202,
        190, 2, 230, 238, 193, 5, 25, 254, 85, 206, 116, 50, 223, 141, 241, 151,
    ];
    assert(id@ =~= ivy_program());
    id
}

impl View for SeedRules {
    type V = RulesView;

    open spec fn view(&self) -> RulesView {
        RulesView {
            program_id: self.program_id@,
            prefix: self.prefix@,
            mint_prefix: self.mint_prefix@,
            other_prefixes: Seq::new(
                self.other_prefixes@.len(),
                |i: int| self.other_prefixes@[i]@,
            ),
            suffix: self.suffix@,
        }
    }
}

impl SeedRules {
    /// The rules of the `game` category, under the program [`ivy_program`].
    pub fn game() -> (rules: SeedRules)
        ensures
            rules@ == game_rules(),
    {
        let mut other_prefixes: Vec<Vec<u8>> = Vec::new();
        other_prefixes.push("game_ivy_wallet".as_bytes_vec());
        other_prefixes.push("game_curve_wallet".as_bytes_vec());
        other_prefixes.push("game_treasury_wallet".as_bytes_vec());
        let rules = SeedRules {
            program_id: ivy_program_id(),
            prefix: "game".as_bytes_vec(),
            mint_prefix: "game_mint".as_bytes_vec(),
            other_prefixes,
            suffix: "ivy".to_owned(),
        };
        assert(rules@.other_prefixes =~= game_rules().other_prefixes);
        rules
    }

    /// The rules of the `sync` category, under the program [`ivy_program`].
    pub fn sync() -> (rules: SeedRules)
        ensures
            rules@ == sync_rules(),
    {
        let mut other_prefixes: Vec<Vec<u8>> = Vec::new();
        other_prefixes.push("sync_sync_wallet".as_bytes_vec());
        other_prefixes.push("sync_pump_wallet".as_bytes_vec());
        let rules = SeedRules {
            program_id: ivy_program_id(),
            prefix: "sync".as_bytes_vec(),
            mint_prefix: "sync_mint".as_bytes_vec(),
            other_prefixes,
            suffix: "ivy".to_owned(),
        };
        assert(rules@.other_prefixes =~= sync_rules().other_prefixes);
        rules
    }
}

} // verus!
