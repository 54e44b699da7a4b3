//! A cyclic play queue: an ordered list of songs with a cursor that wraps
//! around in both directions.

use vstd::prelude::*;

verus! {

/// A song as the catalog hands it to the playback core: an identifier,
/// the track length in milliseconds, and display metadata.
#[derive(Clone)]
pub struct Song {
    pub id: u64,
    /// Track length in milliseconds.
    pub duration: u64,
    pub title: String,
}

/// An ordered sequence of songs (duplicates permitted) plus a cursor.
///
/// Invariant: the cursor stays inside the list whenever the list is
/// non-empty, and is zero (with no meaning) when the list is empty.
pub struct Queue {
    songs: Vec<Song>,
    current_index: usize,
}

impl Queue {
    /// The songs, in order.
    pub closed spec fn songs(self) -> Seq<Song> {
        self.songs@
    }

    /// The cursor: index of the currently selected song.
    pub closed spec fn cursor(self) -> int {
        self.current_index as int
    }

    /// Cursor stays inside the list; an empty list pins it at zero.
    pub open spec fn well_formed(self) -> bool {
        if self.songs().len() == 0 {
            self.cursor() == 0
        } else {
            0 <= self.cursor() < self.songs().len()
        }
    }

    pub fn new() -> (q: Queue)
        ensures
            q.well_formed(),
            q.songs() == Seq::<Song>::empty(),
            q.cursor() == 0,
    {
        Queue { songs: Vec::new(), current_index: 0 }
    }

    /// Appends a song at the back; the cursor does not move.
    pub fn add_song(&mut self, song: Song)
        requires
            old(self).well_formed(),
        ensures
            final(self).well_formed(),
            final(self).songs() == old(self).songs().push(song),
            final(self).cursor() == old(self).cursor(),
    {
        self.songs.push(song);
    }

    /// Removes the song at `index` if it exists; out-of-range indices are
    /// ignored. The cursor slides one slot down when the removal happened
    /// at or before it, so it keeps pointing at a sensible neighbour.
    pub fn remove_song(&mut self, index: usize)
        requires
            old(self).well_formed(),
        ensures
            final(self).well_formed(),
            index < old(self).songs().len() ==> {
                &&& final(self).songs() == old(self).songs().remove(index as int)
                &&& final(self).cursor() == (if old(self).cursor() >= index && old(self).cursor()
                    > 0 {
                    old(self).cursor() - 1
                } else {
                    old(self).cursor()
                })
            },
            index >= old(self).songs().len() ==> *final(self) == *old(self),
    {
        if index < self.songs.len() {
            self.songs.remove(index);
            if self.current_index >= index && self.current_index > 0 {
                self.current_index = self.current_index - 1;
            }
        }
    }

    /// Advances the cursor one step forward, wrapping at the end, and
    /// returns the newly selected song; an empty queue yields nothing and
    /// is left untouched.
    pub fn next(&mut self) -> (r: Option<&Song>)
        requires
            old(self).well_formed(),
        ensures
            final(self).well_formed(),
            final(self).songs() == old(self).songs(),
            old(self).songs().len() == 0 ==> r is None && *final(self) == *old(self),
            old(self).songs().len() > 0 ==> {
                &&& final(self).cursor() == (old(self).cursor() + 1) % (old(self).songs().len()
                    as int)
                &&& (r matches Some(s) && *s == final(self).songs()[final(self).cursor()])
            },
    {
        let n = self.songs.len();
        if n == 0 {
            None
        } else {
            self.current_index = (self.current_index + 1) % n;
            Some(&self.songs[self.current_index])
        }
    }

    /// Steps the cursor one step backward, wrapping at the front, and
    /// returns the newly selected song; an empty queue yields nothing and
    /// is left untouched.
    pub fn prev(&mut self) -> (r: Option<&Song>)
        requires
            old(self).well_formed(),
        ensures
            final(self).well_formed(),
            final(self).songs() == old(self).songs(),
            old(self).songs().len() == 0 ==> r is None && *final(self) == *old(self),
            old(self).songs().len() > 0 ==> {
                &&& final(self).cursor() == (old(self).cursor() + old(self).songs().len() - 1) % (
                old(self).songs().len() as int)
                &&& (r matches Some(s) && *s == final(self).songs()[final(self).cursor()])
            },
    {
        if self.songs.is_empty() {
            None
        } else {
            proof {
                lemma_wrap_back(self.current_index as int, self.songs@.len() as int);
            }
            if self.current_index == 0 {
                self.current_index = self.songs.len() - 1;
            } else {
                self.current_index = self.current_index - 1;
            }
            Some(&self.songs[self.current_index])
        }
    }

    /// The currently selected song, without moving the cursor.
    pub fn current(&self) -> (r: Option<&Song>)
        requires
            self.well_formed(),
        ensures
            self.songs().len() == 0 ==> r is None,
            self.songs().len() > 0 ==> (r matches Some(s) && *s == self.songs()[self.cursor()]),
    {
        if self.songs.is_empty() {
            None
        } else {
            Some(&self.songs[self.current_index])
        }
    }

    /// Empties the queue and resets the cursor.
    pub fn clear(&mut self)
        ensures
            final(self).well_formed(),
            final(self).songs() == Seq::<Song>::empty(),
            final(self).cursor() == 0,
    {
        self.songs.clear();
        self.current_index = 0;
    }
}

/// Stepping one slot back is the same as adding `len - 1` modulo `len`.
proof fn lemma_wrap_back(c: int, len: int)
    requires
        0 < len,
        0 <= c < len,
    ensures
        (c + len - 1) % len == (if c == 0 {
            len - 1
        } else {
            c - 1
        }),
{
    if c == 0 {
        vstd::arithmetic::div_mod::lemma_small_mod((len - 1) as nat, len as nat);
    } else {
        vstd::arithmetic::div_mod::lemma_mod_add_multiples_vanish(c - 1, len);
        vstd::arithmetic::div_mod::lemma_small_mod((c - 1) as nat, len as nat);
    }
}

/// The cursor after `k` forward steps through a queue of length `len`,
/// starting from `c`: each step is one application of the wrap-around rule
/// that `next` follows.
pub open spec fn cursor_after_nexts(c: int, len: int, k: nat) -> int
    decreases k,
{
    if len <= 0 || k == 0 {
        c
    } else {
        (cursor_after_nexts(c, len, (k - 1) as nat) + 1) % len
    }
}

/// Repeated forward stepping lands on `(c + k) mod len`.
proof fn lemma_cursor_after_nexts_closed_form(c: int, len: int, k: nat)
    requires
        0 < len,
        0 <= c < len,
    ensures
        cursor_after_nexts(c, len, k) == (c + k) % len,
    decreases k,
{
    if k == 0 {
        vstd::arithmetic::div_mod::lemma_small_mod(c as nat, len as nat);
    } else {
        lemma_cursor_after_nexts_closed_form(c, len, (k - 1) as nat);
        vstd::arithmetic::div_mod::lemma_add_mod_noop_right(1, c + k - 1, len);
    }
}

/// Law of the cyclic cursor: on a queue of length `n` with cursor `c`,
/// calling `next` exactly `n` times returns the cursor to `c`.
pub proof fn lemma_next_full_cycle(c: int, n: nat)
    requires
        0 < n,
        0 <= c < n,
    ensures
        cursor_after_nexts(c, n as int, n) == c,
{
    lemma_cursor_after_nexts_closed_form(c, n as int, n);
    vstd::arithmetic::div_mod::lemma_mod_add_multiples_vanish(c, n as int);
    vstd::arithmetic::div_mod::lemma_small_mod(c as nat, n);
}

} // verus!
