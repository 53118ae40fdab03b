//! The registry behind named, fire-and-forget sound playback.
//!
//! The registry decides; the audio backend acts. It knows which names have an
//! output handle and in which slot the handle sits, and it says what to do
//! with a handle when a clip is played under a name, and which handles to
//! release when the idle ones are reclaimed. Whether a handle is idle is the
//! backend's knowledge and comes in as an argument.

use vstd::prelude::*;

verus! {

/// What to do with the output handle of a name to play a clip on it. Every
/// action ends with the clip appended and playback started or resumed.
#[derive(Debug, Clone, Copy, PartialEq, Eq, Structural)]
pub enum PlayAction {
    /// The name is new: open an output handle with its backing stream, put
    /// it in the slot, append the clip.
    Open,
    /// The handle is busy: clear its queue, then append the clip, so that
    /// the new clip replaces what was playing.
    Replace,
    /// The handle is idle: append the clip.
    Append,
}

/// The slot of the handle to play on, and what to do with it.
#[derive(Debug, Clone, Copy, PartialEq, Eq, Structural)]
pub struct Playback {
    pub slot: usize,
    pub action: PlayAction,
}

/// The names that have an output handle, each in the slot of its handle.
/// Slots are numbered from zero without gaps, and no name has two.
pub struct SoundManager {
    names: Vec<String>,
}

impl View for SoundManager {
    type V = Seq<Seq<char>>;

    /// The registered names, in slot order.
    closed spec fn view(&self) -> Seq<Seq<char>> {
        Seq::new(self.names@.len(), |slot: int| self.names@[slot]@)
    }
}

/// The action for a clip, given whether its name has a handle and whether
/// that handle is idle. A handle that was just opened has nothing queued, so
/// idleness only matters for a registered name.
pub open spec fn play_action(registered: bool, idle: bool) -> PlayAction {
    if !registered {
        PlayAction::Open
    } else if idle {
        PlayAction::Append
    } else {
        PlayAction::Replace
    }
}

/// Whether `idle` reports the handle in `slot` as idle. A slot without a
/// report counts as busy.
pub open spec fn reported_idle(idle: Seq<bool>, slot: int) -> bool {
    0 <= slot < idle.len() && idle[slot]
}

/// The names that stay when the handles reported idle are reclaimed, in
/// their old order.
pub open spec fn survivors(names: Seq<Seq<char>>, idle: Seq<bool>) -> Seq<Seq<char>>
    decreases names.len(),
{
    if names.len() == 0 {
        names
    } else {
        let before = survivors(names.drop_last(), idle);
        if reported_idle(idle, names.len() - 1) {
            before
        } else {
            before.push(names.last())
        }
    }
}

/// The slots below `count` whose handles are reported idle, ascending.
pub open spec fn idle_slots(count: nat, idle: Seq<bool>) -> Seq<usize>
    decreases count,
{
    if count == 0 {
        Seq::empty()
    } else {
        let before = idle_slots((count - 1) as nat, idle);
        if reported_idle(idle, count - 1) {
            before.push((count - 1) as usize)
        } else {
            before
        }
    }
}

/// Every survivor was registered, and distinct names stay distinct.
pub proof fn lemma_survivors_registered(names: Seq<Seq<char>>, idle: Seq<bool>)
    ensures
        forall|name: Seq<char>| #[trigger]
            survivors(names, idle).contains(name) ==> names.contains(name),
        names.no_duplicates() ==> survivors(names, idle).no_duplicates(),
        survivors(names, idle).len() <= names.len(),
    decreases names.len(),
{
    if names.len() > 0 {
        let front = names.drop_last();
        let before = survivors(front, idle);
        lemma_survivors_registered(front, idle);
        assert forall|name: Seq<char>| #[trigger]
            survivors(names, idle).contains(name) implies names.contains(name) by {
            if before.contains(name) {
                let slot = choose|slot: int| 0 <= slot < front.len() && front[slot] == name;
                assert(names[slot] == name);
            } else {
                assert(names[names.len() - 1] == name);
            }
        }
        if names.no_duplicates() && !reported_idle(idle, names.len() - 1) {
            if before.contains(names.last()) {
                let slot = choose|slot: int| 0 <= slot < front.len() && front[slot] == names.last();
                assert(names[slot] == names[names.len() - 1]);
            }
        }
    }
}

/// Reclaiming is a no-op while nothing is idle: with no registered slot
/// reported idle, every name stays and no slot is released.
pub proof fn lemma_nothing_idle_nothing_reclaimed(names: Seq<Seq<char>>, idle: Seq<bool>)
    requires
        forall|slot: int| 0 <= slot < names.len() ==> !reported_idle(idle, slot),
    ensures
        survivors(names, idle) == names,
        idle_slots(names.len(), idle) == Seq::<usize>::empty(),
    decreases names.len(),
{
    if names.len() > 0 {
        lemma_nothing_idle_nothing_reclaimed(names.drop_last(), idle);
        assert(names.drop_last().push(names.last()) == names);
    }
}

/// Reclaiming removes every name when all handles are idle.
pub proof fn lemma_all_idle_all_reclaimed(names: Seq<Seq<char>>, idle: Seq<bool>)
    requires
        forall|slot: int| 0 <= slot < names.len() ==> reported_idle(idle, slot),
    ensures
        survivors(names, idle) == Seq::<Seq<char>>::empty(),
        idle_slots(names.len(), idle).len() == names.len(),
    decreases names.len(),
{
    if names.len() > 0 {
        lemma_all_idle_all_reclaimed(names.drop_last(), idle);
    }
}

impl SoundManager {
    /// No name is registered twice. A registry starts out so and stays so.
    pub open spec fn wf(&self) -> bool {
        self@.no_duplicates()
    }

    /// A registry without names.
    pub fn new() -> (manager: SoundManager)
        ensures
            manager@ == Seq::<Seq<char>>::empty(),
            manager.wf(),
    {
        SoundManager { names: Vec::new() }
    }

    /// The number of registered names, which is the number of slots in use.
    pub fn len(&self) -> (count: usize)
        ensures
            count == self@.len(),
    {
        self.names.len()
    }

    /// The slot of the handle of `name`, if it has one.
    pub fn get(&self, name: &str) -> (slot: Option<usize>)
        ensures
            match slot {
                Some(slot) => slot < self@.len() && self@[slot as int] == name@,
                None => !self@.contains(name@),
            },
    {
        let wanted: String = name.to_owned();
        let mut slot: usize = 0;
        while slot < self.names.len()
            invariant
                slot <= self.names@.len(),
                wanted@ == name@,
                forall|earlier: int| 0 <= earlier < slot ==> self@[earlier] != name@,
            decreases self.names@.len() - slot,
        {
            if self.names[slot] == wanted {
                return Some(slot);
            }
            slot += 1;
        }
        None
    }

    /// Registers a clip to be played under `name` and says what to do with
    /// the handle: a new name gets the next free slot and a handle to open;
    /// a registered name keeps its slot, and its handle is cleared first
    /// unless `idle` says that it has nothing queued.
    pub fn play(&mut self, name: &str, idle: bool) -> (playback: Playback)
        ensures
            playback.action == play_action(old(self)@.contains(name@), idle),
            final(self)@ == if old(self)@.contains(name@) {
                old(self)@
            } else {
                old(self)@.push(name@)
            },
            playback.slot < final(self)@.len(),
            final(self)@[playback.slot as int] == name@,
            old(self).wf() ==> final(self).wf(),
    {
        match self.get(name) {
            Some(slot) => Playback {
                slot,
                action: if idle {
                    PlayAction::Append
                } else {
                    PlayAction::Replace
                },
            },
            None => {
                let slot: usize = self.names.len();
                let ghost before = self@;
                self.names.push(name.to_owned());
                assert(self@ == before.push(name@));
                Playback { slot, action: PlayAction::Open }
            },
        }
    }

    /// Reclaims the handles that `idle` reports idle, slot by slot: their
    /// names leave the registry, the names that stay close ranks in their
    /// old order, and the released slots are returned in ascending order,
    /// numbered as before the call.
    pub fn cleanup(&mut self, idle: &Vec<bool>) -> (released: Vec<usize>)
        ensures
            final(self)@ == survivors(old(self)@, idle@),
            released@ == idle_slots(old(self)@.len(), idle@),
            old(self).wf() ==> final(self).wf(),
            (forall|slot: int| 0 <= slot < old(self)@.len() ==> !reported_idle(idle@, slot))
                ==> final(self)@ == old(self)@ && released@.len() == 0,
    {
        proof {
            lemma_survivors_registered(self@, idle@);
            if forall|slot: int| 0 <= slot < self@.len() ==> !reported_idle(idle@, slot) {
                lemma_nothing_idle_nothing_reclaimed(self@, idle@);
            }
        }
        let ghost before = self@;
        let mut kept: Vec<String> = Vec::new();
        let mut released: Vec<usize> = Vec::new();
        let mut slot: usize = 0;
        while slot < self.names.len()
            invariant
                slot <= self.names@.len(),
                self@ == before,
                Seq::new(kept@.len(), |i: int| kept@[i]@) == survivors(
                    before.take(slot as int),
                    idle@,
                ),
                released@ == idle_slots(slot as nat, idle@),
            decreases self.names@.len() - slot,
        {
            proof {
                assert(before.take(slot + 1).drop_last() == before.take(slot as int));
            }
            if slot < idle.len() && idle[slot] {
                released.push(slot);
            } else {
                let ghost kept_before = Seq::new(kept@.len(), |i: int| kept@[i]@);
                kept.push(self.names[slot].clone());
                assert(Seq::new(kept@.len(), |i: int| kept@[i]@) == kept_before.push(
                    before[slot as int],
                ));
            }
            slot += 1;
        }
        proof {
            assert(before.take(slot as int) == before);
        }
        self.names = kept;
        released
    }
}

} // verus!
