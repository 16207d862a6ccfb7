//! The queue between the engine's signal callbacks and the host's poll loop.
//!
//! A callback appends one record per invocation; the host drains the records
//! on its next poll. A queue takes records only while a signal is bound to it:
//! binding happens once, and a disconnect is final.

use std::collections::VecDeque;
use vstd::prelude::*;

verus! {

/// Where a queue stands in the life of its signal connection.
#[derive(Debug, Clone, Copy, PartialEq, Eq, Structural)]
pub enum BindingState {
    /// No signal was connected yet.
    Unbound,
    /// A signal is connected: callbacks may fire and append.
    Bound,
    /// The signal was disconnected. Nothing is appended any more.
    Disconnected,
}

impl BindingState {
    /// The state after a bind: an unbound queue becomes bound, and every other
    /// queue stays as it is.
    pub open spec fn bound(self) -> BindingState {
        if self == BindingState::Unbound {
            BindingState::Bound
        } else {
            self
        }
    }

    /// Whether a queue in this state takes records: only a bound queue does.
    pub open spec fn accepts(self) -> bool {
        self == BindingState::Bound
    }
}

/// A disconnect is final: a bind leaves a disconnected queue disconnected, and
/// a disconnected queue takes no records.
pub proof fn lemma_disconnected_is_terminal()
    ensures
        BindingState::Disconnected.bound() == BindingState::Disconnected,
        !BindingState::Disconnected.accepts(),
{
}

/// An ordered queue of the records of one event kind: appended at the tail,
/// drained from the head.
#[derive(Debug)]
pub struct EventQueue<T> {
    items: VecDeque<T>,
    state: BindingState,
}

/// What a queue holds.
pub struct Queue<T> {
    /// The queued records, oldest first.
    pub records: Seq<T>,
    /// The state of the signal connection.
    pub binding: BindingState,
}

impl<T> View for EventQueue<T> {
    type V = Queue<T>;

    open spec fn view(&self) -> Queue<T> {
        Queue { records: self.records(), binding: self.binding() }
    }
}

impl<T> EventQueue<T> {
    /// The queued records, oldest first.
    pub closed spec fn records(&self) -> Seq<T> {
        self.items@
    }

    /// The state of the signal connection.
    pub closed spec fn binding(&self) -> BindingState {
        self.state
    }

    /// An empty queue that no signal is bound to.
    pub fn new() -> (queue: Self)
        ensures
            queue.records() == Seq::<T>::empty(),
            queue.binding() == BindingState::Unbound,
    {
        EventQueue { items: VecDeque::new(), state: BindingState::Unbound }
    }

    /// The state of the signal connection.
    pub fn state(&self) -> (state: BindingState)
        ensures
            state == self.binding(),
    {
        self.state
    }

    /// The number of queued records.
    pub fn len(&self) -> (n: usize)
        ensures
            n == self.records().len(),
    {
        self.items.len()
    }

    /// Whether nothing is queued.
    pub fn is_empty(&self) -> (empty: bool)
        ensures
            empty == (self.records().len() == 0),
    {
        self.items.len() == 0
    }

    /// Bind a signal to this queue. Succeeds on an unbound queue only: a queue
    /// is bound once, and a disconnected queue stays disconnected.
    pub fn bind(&mut self) -> (bound: bool)
        ensures
            bound == (old(self).binding() == BindingState::Unbound),
            final(self).binding() == old(self).binding().bound(),
            final(self).records() == old(self).records(),
    {
        match self.state {
            BindingState::Unbound => {
                self.state = BindingState::Bound;
                true
            },
            _ => false,
        }
    }

    /// Append one record, as a callback does. The record is taken only while
    /// the queue is bound; otherwise it is dropped and the queue is unchanged.
    pub fn push(&mut self, item: T) -> (queued: bool)
        ensures
            queued == old(self).binding().accepts(),
            final(self).records() == if queued {
                old(self).records().push(item)
            } else {
                old(self).records()
            },
            final(self).binding() == old(self).binding(),
    {
        match self.state {
            BindingState::Bound => {
                self.items.push_back(item);
                true
            },
            _ => false,
        }
    }

    /// Take every queued record, oldest first, and leave the queue empty. The
    /// connection is not touched, so a queue can be drained in every state.
    pub fn drain(&mut self) -> (items: Vec<T>)
        ensures
            items@ == old(self).records(),
            final(self).records() == Seq::<T>::empty(),
            final(self).binding() == old(self).binding(),
    {
        let ghost before = self.items@;
        let mut items: Vec<T> = Vec::new();
        loop
            invariant
                items@ + self.items@ == before,
                self.state == old(self).state,
            ensures
                self.items@.len() == 0,
            decreases self.items@.len(),
        {
            match self.items.pop_front() {
                Some(item) => {
                    proof {
                        assert(items@.push(item) + self.items@ =~= before);
                    }
                    items.push(item);
                },
                None => {
                    break ;
                },
            }
        }
        proof {
            assert(items@ =~= before);
            assert(self.items@ =~= Seq::<T>::empty());
        }
        items
    }

    /// Record that the signal was disconnected. From here on nothing is
    /// appended; what is queued stays until it is drained. Returns whether a
    /// signal was bound.
    pub fn disconnect(&mut self) -> (was_bound: bool)
        ensures
            was_bound == (old(self).binding() == BindingState::Bound),
            final(self).binding() == BindingState::Disconnected,
            final(self).records() == old(self).records(),
    {
        let was_bound = match self.state {
            BindingState::Bound => true,
            _ => false,
        };
        self.state = BindingState::Disconnected;
        was_bound
    }
}

} // verus!
