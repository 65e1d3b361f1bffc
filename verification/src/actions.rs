//! The append-only log of proposed game actions. Actions are recorded at
//! setup time; no drain operation exists yet, so the log is write-only.

use vstd::prelude::*;

verus! {

/// A proposed mutation of the game state, not yet applied. Each variant
/// carries the opaque handle of the card it concerns.
#[derive(Clone, Copy, Debug, PartialEq, Eq, Structural)]
pub enum PlayAction {
    PlayCharacter { card_entity: u64 },
    TapCharacter { card_entity: u64 },
    UntapCharacter { card_entity: u64 },
}

/// An unbounded, in-memory, single-writer log of play actions. Appending
/// always succeeds; entries are never dropped, reordered or overwritten.
#[derive(Clone, Debug)]
pub struct PlayActionQueue {
    entries: Vec<PlayAction>,
}

impl PlayActionQueue {
    /// The recorded actions, oldest first.
    pub closed spec fn log(self) -> Seq<PlayAction> {
        self.entries@
    }

    /// Create an empty log.
    pub fn new() -> (queue: PlayActionQueue)
        ensures
            queue.log() == Seq::<PlayAction>::empty(),
    {
        let queue = PlayActionQueue { entries: Vec::new() };
        proof {
            assert(queue.log() =~= Seq::<PlayAction>::empty());
        }
        queue
    }

    /// Append one action at the tail of the log. Every earlier entry stays
    /// where it was; nothing is dropped or reordered.
    pub fn enqueue(&mut self, action: PlayAction)
        ensures
            final(self).log() == old(self).log().push(action),
    {
        self.entries.push(action);
    }

    /// Append a batch of actions at the tail of the log, in the order given:
    /// after the call the log is the old log followed by exactly the given
    /// actions, so enqueueing K actions grows the log by K and no action is
    /// ever silently dropped or reordered.
    pub fn enqueue_all(&mut self, actions: &Vec<PlayAction>)
        ensures
            final(self).log() == old(self).log() + actions@,
    {
        let ghost initial = self.log();
        let n = actions.len();
        let mut i: usize = 0;
        while i < n
            invariant
                i <= n,
                n == actions@.len(),
                self.log() == initial + actions@.take(i as int),
            decreases n - i,
        {
            self.enqueue(actions[i]);
            proof {
                assert(initial + actions@.take(i as int + 1) =~= (initial + actions@.take(
                    i as int,
                )).push(actions@[i as int]));
            }
            i = i + 1;
        }
        proof {
            assert(initial + actions@.take(n as int) =~= initial + actions@);
        }
    }

    /// Number of recorded actions.
    pub fn len(&self) -> (n: usize)
        ensures
            n == self.log().len(),
    {
        self.entries.len()
    }

    /// Read the action at position `i`, oldest first.
    pub fn get(&self, i: usize) -> (action: PlayAction)
        requires
            i < self.log().len(),
        ensures
            action == self.log()[i as int],
    {
        self.entries[i]
    }
}

} // verus!
