use vstd::prelude::*;

verus! {

/// A simple play queue of songs. `playing` is the caller-maintained cursor
/// into the queue; the queue itself never reads it.
pub struct Queue {
    pub queue: Vec<crate::song::Song>,
    pub playing: u32,
}

impl Queue {
    /// Creates an empty queue with the cursor at the start.
    pub fn new() -> (q: Queue)
        ensures
            q.queue@ =~= Seq::<crate::song::Song>::empty(),
            q.playing == 0,
    {
        Queue { queue: Vec::new(), playing: 0 }
    }

    /// Appends a song at the back of the queue.
    pub fn add(&mut self, song: crate::song::Song)
        ensures
            final(self).queue@ =~= old(self).queue@.push(song),
            final(self).playing == old(self).playing,
    {
        self.queue.push(song);
    }

    /// Removes and returns the song at the back of the queue, or `None`
    /// when the queue is empty.
    pub fn next(&mut self) -> (r: Option<crate::song::Song>)
        ensures
            old(self).queue@.len() == 0 ==> r is None && final(self).queue@ =~= old(self).queue@,
            old(self).queue@.len() > 0 ==> {
                &&& r =~= Some(old(self).queue@.last())
                &&& final(self).queue@ =~= old(self).queue@.drop_last()
            },
            final(self).playing == old(self).playing,
    {
        if self.queue.is_empty() {
            None
        } else {
            self.queue.pop()
        }
    }

    /// A copy of the song at the front of the queue, or `None` when the
    /// queue is empty; the queue itself is left unchanged.
    pub fn next_clone(&self) -> (r: Option<crate::song::Song>)
        ensures
            self.queue@.len() == 0 ==> r is None,
            self.queue@.len() > 0 ==> (r matches Some(s) && s@ == self.queue@[0]@),
    {
        if self.queue.is_empty() {
            None
        } else {
            Some(self.queue[0].clone())
        }
    }
}

} // verus!
