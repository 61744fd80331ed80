use vstd::prelude::*;
use crate::address::Address;
use crate::errors::CraftingError;
use crate::progression::CrafterStats;

verus! {

/// Whether no two profiles are those of one crafter.
spec fn crafters_unique(profiles: Seq<CrafterStats>) -> bool {
    forall|i: int, j: int|
        0 <= i < j < profiles.len() ==> (#[trigger] profiles[i]).crafter != (#[trigger] profiles[j]).crafter
}

/// Whether a crafter has a profile among the given ones.
spec fn has_profile(profiles: Seq<CrafterStats>, crafter: Address) -> bool {
    exists|i: int| 0 <= i < profiles.len() && (#[trigger] profiles[i]).crafter == crafter
}

/// The profile of a crafter who has one.
spec fn profile_of(profiles: Seq<CrafterStats>, crafter: Address) -> CrafterStats {
    profiles[choose|i: int| 0 <= i < profiles.len() && (#[trigger] profiles[i]).crafter == crafter]
}

/// The profiles as a map from crafters.
spec fn profile_map(profiles: Seq<CrafterStats>) -> Map<Address, CrafterStats> {
    Map::new(|c: Address| has_profile(profiles, c), |c: Address| profile_of(profiles, c))
}

/// The profile with which a crafter is met for the first time.
pub open spec fn fresh_profile(crafter: Address, now: i64) -> CrafterStats {
    CrafterStats {
        crafter,
        experience_points: 0,
        experience_level: crate::progression::STARTING_LEVEL,
        successful_crafts: 0,
        failed_crafts: 0,
        created_at: now,
        guild: None,
        success_streak: 0,
    }
}

/// The profile of a crafter: the one kept, or a fresh one for a crafter never met.
pub open spec fn profile_or_fresh(profiles: Map<Address, CrafterStats>, crafter: Address, now: i64) -> CrafterStats {
    if profiles.contains_key(crafter) {
        profiles[crafter]
    } else {
        fresh_profile(crafter, now)
    }
}

/// With unique crafters, the profile of a crafter is the one at its position.
proof fn lemma_profile_at(profiles: Seq<CrafterStats>, i: int)
    requires
        crafters_unique(profiles),
        0 <= i < profiles.len(),
    ensures
        has_profile(profiles, profiles[i].crafter),
        profile_of(profiles, profiles[i].crafter) == profiles[i],
{
    let crafter = profiles[i].crafter;
    let c = choose|c: int| 0 <= c < profiles.len() && (#[trigger] profiles[c]).crafter == crafter;
    if c < i {
        assert(profiles[c].crafter != profiles[i].crafter);
    } else if i < c {
        assert(profiles[i].crafter != profiles[c].crafter);
    }
}

/// The profiles of all crafters, each kept under its crafter. A profile
/// comes into being when its crafter is first met.
#[derive(Debug)]
pub struct CrafterProgressionTracker {
    profiles: Vec<CrafterStats>,
}

impl View for CrafterProgressionTracker {
    type V = Map<Address, CrafterStats>;

    closed spec fn view(&self) -> Map<Address, CrafterStats> {
        profile_map(self.profiles@)
    }
}

impl CrafterProgressionTracker {
    /// Whether the tracker is sound: it keeps one profile for a crafter at
    /// most, each under its own crafter. Every tracker that this library
    /// hands out is sound.
    pub closed spec fn well_formed(&self) -> bool {
        crafters_unique(self.profiles@)
    }

    /// Every profile of a sound tracker is kept under its own crafter.
    pub proof fn lemma_keys(&self)
        requires
            self.well_formed(),
        ensures
            forall|c: Address| self@.contains_key(c) ==> (#[trigger] self@[c]).crafter == c,
    {
    }

    /// A tracker without profiles.
    pub fn new() -> (tracker: CrafterProgressionTracker)
        ensures
            tracker.well_formed(),
            tracker@ == Map::<Address, CrafterStats>::empty(),
    {
        let tracker = CrafterProgressionTracker { profiles: Vec::new() };
        assert(tracker@ =~= Map::<Address, CrafterStats>::empty());
        tracker
    }

    fn position(&self, crafter: &Address) -> (found: Option<usize>)
        ensures
            (match found {
                Some(i) => i < self.profiles@.len() && self.profiles@[i as int].crafter == *crafter,
                None => !has_profile(self.profiles@, *crafter),
            }),
    {
        let mut i: usize = 0;
        while i < self.profiles.len()
            invariant
                i <= self.profiles@.len(),
                forall|j: int| 0 <= j < i ==> (#[trigger] self.profiles@[j]).crafter != *crafter,
            decreases self.profiles.len() - i,
        {
            if self.profiles[i].crafter.same(crafter) {
                return Some(i);
            }
            i += 1;
        }
        None
    }

    /// The profile kept for a crafter, if there is one.
    pub fn profile(&self, crafter: &Address) -> (found: Option<CrafterStats>)
        requires
            self.well_formed(),
        ensures
            found == (if self@.contains_key(*crafter) {
                Some(self@[*crafter])
            } else {
                None::<CrafterStats>
            }),
    {
        match self.position(crafter) {
            Some(i) => {
                proof {
                    lemma_profile_at(self.profiles@, i as int);
                }
                Some(self.profiles[i])
            },
            None => None,
        }
    }

    /// The profile of a crafter: the one kept, or a fresh one for a crafter
    /// never met. The fresh one is kept only once it is put.
    pub fn profile_or_new(&self, crafter: &Address, now: i64) -> (stats: CrafterStats)
        requires
            self.well_formed(),
        ensures
            stats == profile_or_fresh(self@, *crafter, now),
            stats.crafter == *crafter,
    {
        proof {
            self.lemma_keys();
        }
        match self.profile(crafter) {
            Some(stats) => stats,
            None => CrafterStats::new(*crafter, now),
        }
    }

    /// Keeps a profile under its crafter, in place of the one kept before.
    pub fn put(&mut self, stats: CrafterStats)
        requires
            old(self).well_formed(),
        ensures
            final(self).well_formed(),
            final(self)@ == old(self)@.insert(stats.crafter, stats),
    {
        let ghost before = self.profiles@;
        match self.position(&stats.crafter) {
            Some(i) => {
                self.profiles[i] = stats;
                proof {
                    lemma_after_replace(before, self.profiles@, i as int);
                }
            },
            None => {
                self.profiles.push(stats);
                proof {
                    lemma_after_append(before, stats);
                }
            },
        }
    }

    /// Makes a crafter a member of a guild; a crafter never met gets a profile.
    pub fn join_guild(&mut self, crafter: Address, guild_id: Address, now: i64)
        requires
            old(self).well_formed(),
        ensures
            final(self).well_formed(),
            final(self)@ == old(self)@.insert(
                crafter,
                CrafterStats { guild: Some(guild_id), ..profile_or_fresh(old(self)@, crafter, now) },
            ),
    {
        let mut stats = self.profile_or_new(&crafter, now);
        stats.join_guild(guild_id);
        self.put(stats);
    }

    /// Takes a crafter out of the guild; fails for a crafter in none, and for
    /// one never met.
    pub fn leave_guild(&mut self, crafter: Address) -> (result: Result<(), CraftingError>)
        requires
            old(self).well_formed(),
        ensures
            final(self).well_formed(),
            old(self)@.contains_key(crafter) && old(self)@[crafter].guild is Some ==> result is Ok
                && final(self)@ == old(self)@.insert(
                crafter,
                CrafterStats { guild: None, ..old(self)@[crafter] },
            ),
            !(old(self)@.contains_key(crafter) && old(self)@[crafter].guild is Some) ==> result
                == Err::<(), CraftingError>(CraftingError::NotInGuild) && final(self)@ == old(self)@,
    {
        proof {
            self.lemma_keys();
        }
        match self.profile(&crafter) {
            Some(kept) => {
                let mut stats = kept;
                match stats.leave_guild() {
                    Ok(()) => {
                        self.put(stats);
                        Ok(())
                    },
                    Err(e) => Err(e),
                }
            },
            None => Err(CraftingError::NotInGuild),
        }
    }
}

/// The map of the profiles after the profile at position `i` is replaced by
/// one of the same crafter.
proof fn lemma_after_replace(before: Seq<CrafterStats>, after: Seq<CrafterStats>, i: int)
    requires
        crafters_unique(before),
        0 <= i < before.len(),
        after.len() == before.len(),
        forall|j: int| 0 <= j < before.len() && j != i ==> after[j] == before[j],
        after[i].crafter == before[i].crafter,
    ensures
        crafters_unique(after),
        profile_map(after) == profile_map(before).insert(after[i].crafter, after[i]),
{
    assert(crafters_unique(after)) by {
        assert forall|a: int, b: int| 0 <= a < b < after.len() implies (#[trigger] after[a]).crafter != (
        #[trigger] after[b]).crafter by {
            assert(before[a].crafter != before[b].crafter);
        }
    }
    let expected = profile_map(before).insert(after[i].crafter, after[i]);
    assert forall|c: Address| #[trigger] profile_map(after).contains_key(c) == expected.contains_key(c) by {
        if has_profile(after, c) {
            let k = choose|k: int| 0 <= k < after.len() && (#[trigger] after[k]).crafter == c;
            assert(before[k].crafter == c);
        }
        if has_profile(before, c) {
            let k = choose|k: int| 0 <= k < before.len() && (#[trigger] before[k]).crafter == c;
            assert(after[k].crafter == c);
        }
        if c == after[i].crafter {
            assert(after[i].crafter == c);
        }
    }
    assert forall|c: Address| profile_map(after).contains_key(c) implies #[trigger] profile_map(after)[c]
        == expected[c] by {
        let k = choose|k: int| 0 <= k < after.len() && (#[trigger] after[k]).crafter == c;
        lemma_profile_at(after, k);
        if k != i {
            lemma_profile_at(before, k);
        }
    }
    assert(profile_map(after) =~= expected);
}

/// The map of the profiles after the profile of a crafter never met is appended.
proof fn lemma_after_append(before: Seq<CrafterStats>, stats: CrafterStats)
    requires
        crafters_unique(before),
        !has_profile(before, stats.crafter),
    ensures
        crafters_unique(before.push(stats)),
        profile_map(before.push(stats)) == profile_map(before).insert(stats.crafter, stats),
{
    let after = before.push(stats);
    assert(crafters_unique(after)) by {
        assert forall|a: int, b: int| 0 <= a < b < after.len() implies (#[trigger] after[a]).crafter != (
        #[trigger] after[b]).crafter by {
            if b < before.len() {
                assert(before[a].crafter != before[b].crafter);
            } else {
                assert(before[a].crafter != stats.crafter);
            }
        }
    }
    let expected = profile_map(before).insert(stats.crafter, stats);
    assert forall|c: Address| #[trigger] profile_map(after).contains_key(c) == expected.contains_key(c) by {
        if has_profile(after, c) {
            let k = choose|k: int| 0 <= k < after.len() && (#[trigger] after[k]).crafter == c;
            if k < before.len() {
                assert(before[k].crafter == c);
            }
        }
        if has_profile(before, c) {
            let k = choose|k: int| 0 <= k < before.len() && (#[trigger] before[k]).crafter == c;
            assert(after[k].crafter == c);
        }
        if c == stats.crafter {
            assert(after[before.len() as int].crafter == c);
        }
    }
    assert forall|c: Address| profile_map(after).contains_key(c) implies #[trigger] profile_map(after)[c]
        == expected[c] by {
        let k = choose|k: int| 0 <= k < after.len() && (#[trigger] after[k]).crafter == c;
        lemma_profile_at(after, k);
        if k < before.len() {
            lemma_profile_at(before, k);
        }
    }
    assert(profile_map(after) =~= expected);
}

} // verus!
