use vstd::prelude::*;

use crate::rarety::Rarety;

verus! {

/// Static configuration, read once at startup and immutable afterwards.
#[derive(Clone, Debug)]
pub struct Config {
    pub generator: Generator,
    pub drop_rates: DropRates,
    pub channels: Channels,
    pub stats: Stats,
}

/// The channels the room lifecycle revolves around: the generator channel
/// that triggers provisioning, the category ephemeral rooms live under, and
/// the AFK channel that pauses accounting.
#[derive(Clone, Copy, Debug, PartialEq, Eq, Structural)]
pub struct Generator {
    pub channel_id: u64,
    pub afk_channel_id: u64,
    pub parent_id: u64,
}

/// Weight of each rarity tier, in whole percentage points of the 0..100 draw
/// interval. The weights need not sum to 100: the remainder of the interval
/// yields no selection.
#[derive(Clone, Copy, Debug, PartialEq, Eq, Structural)]
pub struct DropRates {
    pub common: u32,
    pub rare: u32,
    pub epic: u32,
    pub legendary: u32,
}

/// The candidate name pool of each rarity tier. Pools may be empty and names
/// need not be unique.
#[derive(Clone, Debug)]
pub struct Channels {
    pub common: Vec<String>,
    pub rare: Vec<String>,
    pub epic: Vec<String>,
    pub legendary: Vec<String>,
}

/// Report scheduling: one cron expression per period, and the channel the
/// summaries are published to.
#[derive(Clone, Debug)]
pub struct Stats {
    pub weekly_schedule: String,
    pub monthly_schedule: String,
    pub channel_id: u64,
}

impl Channels {
    /// The pool that belongs to a tier.
    pub open spec fn spec_pool(self, tier: Rarety) -> Seq<String> {
        match tier {
            Rarety::Common(_) => self.common@,
            Rarety::Rare(_) => self.rare@,
            Rarety::Epic(_) => self.epic@,
            Rarety::Legendary(_) => self.legendary@,
        }
    }

    /// Whether a name, as its characters, occurs in the union of the four
    /// pools.
    pub open spec fn spec_contains_name(self, name: Seq<char>) -> bool {
        ||| spec_pool_names(self.common@).contains(name)
        ||| spec_pool_names(self.rare@).contains(name)
        ||| spec_pool_names(self.epic@).contains(name)
        ||| spec_pool_names(self.legendary@).contains(name)
    }

    /// Whether every pool holds at least one candidate name.
    pub open spec fn spec_all_pools_nonempty(self) -> bool {
        self.common@.len() > 0 && self.rare@.len() > 0 && self.epic@.len() > 0
            && self.legendary@.len() > 0
    }
}

/// The names of a pool, each as its characters.
pub open spec fn spec_pool_names(pool: Seq<String>) -> Seq<Seq<char>> {
    pool.map_values(|s: String| s@)
}

/// A name that is in a pool is in the pool's name characters too.
proof fn lemma_name_in_pool(pool: Seq<String>, s: String)
    requires
        pool.contains(s),
    ensures
        spec_pool_names(pool).contains(s@),
{
    let i = choose|i: int| 0 <= i < pool.len() && pool[i] == s;
    assert(spec_pool_names(pool)[i] == s@);
}

/// Relies on rand::random_range: a uniform draw from `0..n`, always below `n`
/// (the call panics only on an empty range, which the precondition rules out).
#[verifier::external_body]
fn random_below(n: usize) -> (r: usize)
    requires
        n > 0,
    ensures
        r < n,
{
    rand::random_range(0..n)
}

/// Picks one name from a pool, uniformly. Returns nothing only when the pool
/// is empty.
fn choose_name<'a>(pool: &'a Vec<String>) -> (name: Option<&'a String>)
    ensures
        match name {
            Some(s) => pool@.contains(*s),
            None => pool@.len() == 0,
        },
{
    if pool.len() == 0 {
        None
    } else {
        let idx = random_below(pool.len());
        let picked = &pool[idx];
        assert(pool@.contains(*picked));
        Some(picked)
    }
}

impl DropRates {
    /// The cumulative total of the four weights.
    pub open spec fn spec_total(self) -> int {
        self.common + self.rare + self.epic + self.legendary
    }

    /// The tier a draw lands in: the 0..100 interval is partitioned into
    /// cumulative bands in the fixed order common, rare, epic, legendary.
    /// A draw past the cumulative total lands in no band.
    pub open spec fn spec_band(self, draw: u64) -> Option<Rarety> {
        if draw < self.common {
            Some(Rarety::Common(self.common))
        } else if draw < self.common + self.rare {
            Some(Rarety::Rare(self.rare))
        } else if draw < self.common + self.rare + self.epic {
            Some(Rarety::Epic(self.epic))
        } else if draw < self.spec_total() {
            Some(Rarety::Legendary(self.legendary))
        } else {
            None
        }
    }

    /// Maps a draw to its band. The order of the cumulative comparisons is
    /// part of the contract: reordering tiers would change the odds.
    pub fn band_for_draw(&self, draw: u64) -> (band: Option<Rarety>)
        ensures
            band == self.spec_band(draw),
    {
        let c = self.common as u64;
        let cr = c + self.rare as u64;
        let cre = cr + self.epic as u64;
        let crel = cre + self.legendary as u64;
        if draw < c {
            Some(Rarety::Common(self.common))
        } else if draw < cr {
            Some(Rarety::Rare(self.rare))
        } else if draw < cre {
            Some(Rarety::Epic(self.epic))
        } else if draw < crel {
            Some(Rarety::Legendary(self.legendary))
        } else {
            None
        }
    }

    /// Picks a name for a given pair of draws: `draw` selects the band and
    /// `pool_idx` the name within the band's pool, falling back to the
    /// pool's first name when the index is out of range. This is the whole
    /// selection logic; only the two random numbers come from outside it.
    pub fn pick_for_draw<'a>(&self, channels: &'a Channels, draw: u64, pool_idx: usize) -> (name:
        Option<&'a String>)
        ensures
            match name {
                Some(s) => {
                    &&& self.spec_band(draw) matches Some(band)
                    &&& channels.spec_pool(self.spec_band(draw)->Some_0).len() > 0
                    &&& channels.spec_pool(self.spec_band(draw)->Some_0).contains(*s)
                },
                None => self.spec_band(draw) is None || channels.spec_pool(
                    self.spec_band(draw)->Some_0,
                ).len() == 0,
            },
            (name matches Some(s)) && pool_idx < channels.spec_pool(
                self.spec_band(draw)->Some_0,
            ).len() ==> *name->Some_0 == channels.spec_pool(self.spec_band(draw)->Some_0)[
                pool_idx as int
            ],
            (name matches Some(s)) && pool_idx >= channels.spec_pool(
                self.spec_band(draw)->Some_0,
            ).len() ==> *name->Some_0 == channels.spec_pool(self.spec_band(draw)->Some_0)[0],
    {
        match self.band_for_draw(draw) {
            None => None,
            Some(band) => {
                let pool = match band {
                    Rarety::Common(_) => &channels.common,
                    Rarety::Rare(_) => &channels.rare,
                    Rarety::Epic(_) => &channels.epic,
                    Rarety::Legendary(_) => &channels.legendary,
                };
                if pool.len() == 0 {
                    None
                } else {
                    let idx = if pool_idx < pool.len() {
                        pool_idx
                    } else {
                        0
                    };
                    let picked = &pool[idx];
                    assert(pool@.contains(*picked));
                    Some(picked)
                }
            },
        }
    }

    /// Draws one value uniformly from the 0..100 interval, partitions the
    /// interval into cumulative tier bands, and returns a uniformly chosen
    /// name from the matched band's pool. No selection happens exactly when
    /// the draw exceeds the cumulative total or the matched pool is empty;
    /// the caller substitutes a fixed default name in that case.
    pub fn get_random_drop<'a>(&self, channels: &'a Channels) -> (name: Option<&'a String>)
        ensures
            name matches Some(s) ==> channels.spec_contains_name(s@),
            self.spec_total() >= 100 && channels.spec_all_pools_nonempty() ==> name is Some,
    {
        let draw = random_below(100) as u64;
        match self.band_for_draw(draw) {
            None => None,
            Some(band) => {
                let pool = match band {
                    Rarety::Common(_) => &channels.common,
                    Rarety::Rare(_) => &channels.rare,
                    Rarety::Epic(_) => &channels.epic,
                    Rarety::Legendary(_) => &channels.legendary,
                };
                let picked = choose_name(pool);
                proof {
                    if picked is Some {
                        lemma_name_in_pool(pool@, *picked->Some_0);
                    }
                }
                picked
            },
        }
    }
}

/// Law: when the tier weights sum to at most 100, the draws that yield no
/// band are exactly the remainder of the interval, those at or past the
/// cumulative total. Over uniform draws this makes the long-run share of
/// "no selection" outcomes `(100 - total) / 100`.
pub proof fn lemma_no_selection_is_the_remainder(rates: DropRates, draw: u64)
    requires
        rates.spec_total() <= 100,
        draw < 100,
    ensures
        rates.spec_band(draw) is None <==> draw >= rates.spec_total(),
{
}

/// Law: whatever the draw, a selected name always comes from the matched
/// band's own pool, hence from the union of the configured pools.
pub proof fn lemma_selection_stays_in_pools(rates: DropRates, channels: Channels, draw: u64)
    ensures
        rates.spec_band(draw) matches Some(band) ==> forall|name: String|
            #[trigger] channels.spec_pool(band).contains(name) ==> channels.spec_contains_name(
                name@,
            ),
{
    let band_opt = rates.spec_band(draw);
    if band_opt is Some {
        let band = band_opt->Some_0;
        assert forall|name: String| #[trigger] channels.spec_pool(band).contains(name) implies channels.spec_contains_name(
            name@,
        ) by {
            lemma_name_in_pool(channels.spec_pool(band), name);
        }
    }
}

} // verus!
