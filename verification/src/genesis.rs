//! The units a chain starts with.
use vstd::prelude::*;
use crate::types::{AccountId, Dna, UnitKind};
use crate::pallet::Pallet;
use crate::model::{PalletModel, mint_each};

verus! {

/// For each kind, the `(owner, dna, attribute)` of the units to mint at genesis. The
/// attribute is not used: each unit gets the initial attribute of its kind.
pub struct GenesisConfig {
    pub golds: Vec<(AccountId, Dna, u64)>,
    pub silvers: Vec<(AccountId, Dna, u64)>,
    pub lands: Vec<(AccountId, Dna, u64)>,
    pub stocks: Vec<(AccountId, Dna, u64)>,
    pub sukuks: Vec<(AccountId, Dna, u64)>,
}

/// The state after genesis: the golds, silvers, lands, stocks and sukuks are minted in that
/// order, each entry in turn, whatever each mint answers.
pub open spec fn built(m: PalletModel, config: GenesisConfig) -> PalletModel {
    let m1 = mint_each(m, UnitKind::Gold, config.golds@);
    let m2 = mint_each(m1, UnitKind::Silver, config.silvers@);
    let m3 = mint_each(m2, UnitKind::Land, config.lands@);
    let m4 = mint_each(m3, UnitKind::Stock, config.stocks@);
    mint_each(m4, UnitKind::Sukuk, config.sukuks@)
}

impl Default for GenesisConfig {
    fn default() -> (config: Self)
        ensures
            config.golds@.len() == 0,
            config.silvers@.len() == 0,
            config.lands@.len() == 0,
            config.stocks@.len() == 0,
            config.sukuks@.len() == 0,
    {
        GenesisConfig {
            golds: Vec::new(),
            silvers: Vec::new(),
            lands: Vec::new(),
            stocks: Vec::new(),
            sukuks: Vec::new(),
        }
    }
}

/// Mints each entry in turn into the store and the index of `kind`.
fn mint_all(
    pallet: &mut Pallet,
    kind: UnitKind,
    entries: &Vec<(AccountId, Dna, u64)>,
)
    requires
        old(pallet).wf(),
    ensures
        final(pallet).wf(),
        final(pallet)@ == mint_each(old(pallet)@, kind, entries@),
{
    let ghost start = pallet@;
    let mut i: usize = 0;
    while i < entries.len()
        invariant
            pallet.wf(),
            i <= entries@.len(),
            pallet@ == mint_each(start, kind, entries@.take(i as int)),
        decreases entries@.len() - i,
    {
        let (owner, dna, _attribute) = entries[i];
        let _ = pallet.mint_unit(kind, owner, dna);
        assert(entries@.take(i + 1).drop_last() =~= entries@.take(i as int));
        i = i + 1;
    }
    assert(entries@.take(entries@.len() as int) =~= entries@);
}

impl GenesisConfig {
    /// Mints the configured units into `pallet`.
    pub fn build(&self, pallet: &mut Pallet)
        requires
            old(pallet).wf(),
        ensures
            final(pallet).wf(),
            final(pallet)@ == built(old(pallet)@, *self),
    {
        mint_all(pallet, UnitKind::Gold, &self.golds);
        mint_all(pallet, UnitKind::Silver, &self.silvers);
        mint_all(pallet, UnitKind::Land, &self.lands);
        mint_all(pallet, UnitKind::Stock, &self.stocks);
        mint_all(pallet, UnitKind::Sukuk, &self.sukuks);
    }
}

} // verus!
