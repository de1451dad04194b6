//! Per-connection channel bookkeeping: which channel currently owns a live
//! subprocess input handle. At most one handle is registered per channel;
//! inbound bytes for a channel without one are dropped, and end-of-input
//! removes the handle so its stream can be shut down.
use vstd::prelude::*;

verus! {

/// The handle registered for a channel, if any: first match, which under
/// the table's invariant is the only match.
pub open spec fn spec_chan_lookup(s: Seq<(u64, u64)>, chan: u64) -> Option<u64>
    decreases s.len(),
{
    if s.len() == 0 {
        None
    } else if s[0].0 == chan {
        Some(s[0].1)
    } else {
        spec_chan_lookup(s.drop_first(), chan)
    }
}

proof fn lemma_chan_lookup_absent(s: Seq<(u64, u64)>, chan: u64)
    ensures
        spec_chan_lookup(s, chan) is None <==> forall|m: int| 0 <= m < s.len() ==> s[m].0 != chan,
    decreases s.len(),
{
    if s.len() == 0 {
    } else {
        lemma_chan_lookup_absent(s.drop_first(), chan);
        assert(forall|m: int|
            1 <= m < s.len() ==> s.drop_first()[m - 1] == s[m]);
    }
}

proof fn lemma_chan_lookup_found(s: Seq<(u64, u64)>, j: int, chan: u64)
    requires
        0 <= j < s.len(),
        forall|m: int| 0 <= m < j ==> s[m].0 != chan,
        s[j].0 == chan,
    ensures
        spec_chan_lookup(s, chan) == Some(s[j].1),
    decreases j,
{
    if j == 0 {
    } else {
        assert(s.drop_first()[j - 1] == s[j]);
        lemma_chan_lookup_found(s.drop_first(), j - 1, chan);
    }
}

proof fn lemma_chan_remove_preserves(s: Seq<(u64, u64)>, j: int, chan: u64, c2: u64)
    requires
        0 <= j < s.len(),
        forall|m: int| 0 <= m < j ==> s[m].0 != chan,
        s[j].0 == chan,
        c2 != chan,
    ensures
        spec_chan_lookup(s.remove(j), c2) == spec_chan_lookup(s, c2),
    decreases j,
{
    if j == 0 {
        assert(s.remove(0) =~= s.drop_first());
    } else {
        assert(s.remove(j)[0] == s[0]);
        assert(s.remove(j).drop_first() =~= s.drop_first().remove(j - 1));
        lemma_chan_remove_preserves(s.drop_first(), j - 1, chan, c2);
    }
}

proof fn lemma_chan_lookup_push(s: Seq<(u64, u64)>, e: (u64, u64), c2: u64)
    ensures
        spec_chan_lookup(s.push(e), c2) == (if spec_chan_lookup(s, c2) is Some {
            spec_chan_lookup(s, c2)
        } else if e.0 == c2 {
            Some(e.1)
        } else {
            None::<u64>
        }),
    decreases s.len(),
{
    if s.len() == 0 {
        assert(s.push(e)[0] == e);
        assert(s.push(e).drop_first() =~= Seq::<(u64, u64)>::empty());
        assert(spec_chan_lookup(Seq::<(u64, u64)>::empty(), c2) is None);
    } else {
        assert(s.push(e)[0] == s[0]);
        assert(s.push(e).drop_first() =~= s.drop_first().push(e));
        lemma_chan_lookup_push(s.drop_first(), e, c2);
    }
}

/// The channel table of one connection's session.
pub struct ChannelTable {
    pub entries: Vec<(u64, u64)>,
}

impl ChannelTable {
    /// The invariant: a channel owns at most one live handle.
    pub open spec fn wf(&self) -> bool {
        forall|i: int, j: int|
            0 <= i < j < self.entries@.len() ==> (#[trigger] self.entries@[i]).0 != (
            #[trigger] self.entries@[j]).0
    }

    pub fn new() -> (r: ChannelTable)
        ensures
            r.wf(),
            forall|c: u64| spec_chan_lookup(r.entries@, c) is None,
    {
        let r = ChannelTable { entries: Vec::new() };
        proof {
            assert forall|c: u64| spec_chan_lookup(r.entries@, c) is None by {
                lemma_chan_lookup_absent(r.entries@, c);
            }
        }
        r
    }

    /// Where inbound bytes for `chan` go: to the registered handle, or
    /// nowhere — they are dropped, not queued.
    pub fn route_data(&self, chan: u64) -> (r: Option<u64>)
        ensures
            r == spec_chan_lookup(self.entries@, chan),
    {
        let ghost s = self.entries@;
        let mut j: usize = 0;
        while j < self.entries.len()
            invariant
                s == self.entries@,
                j <= s.len(),
                forall|m: int| 0 <= m < j ==> s[m].0 != chan,
            decreases self.entries.len() - j,
        {
            if self.entries[j].0 == chan {
                proof {
                    lemma_chan_lookup_found(s, j as int, chan);
                }
                return Some(self.entries[j].1);
            }
            j = j + 1;
        }
        proof {
            lemma_chan_lookup_absent(s, chan);
        }
        None
    }

    /// Removes and returns `chan`'s handle: on end-of-input or teardown
    /// the handle leaves the table and its stream is shut down by the
    /// caller.
    pub fn take(&mut self, chan: u64) -> (r: Option<u64>)
        requires
            old(self).wf(),
        ensures
            final(self).wf(),
            r == spec_chan_lookup(old(self).entries@, chan),
            spec_chan_lookup(final(self).entries@, chan) is None,
            forall|c2: u64|
                c2 != chan ==> spec_chan_lookup(final(self).entries@, c2) == spec_chan_lookup(
                    old(self).entries@,
                    c2,
                ),
    {
        let ghost s = self.entries@;
        let mut j: usize = 0;
        while j < self.entries.len()
            invariant
                s == self.entries@,
                s == old(self).entries@,
                j <= s.len(),
                forall|m: int| 0 <= m < j ==> s[m].0 != chan,
                old(self).wf(),
            decreases self.entries.len() - j,
        {
            if self.entries[j].0 == chan {
                proof {
                    lemma_chan_lookup_found(s, j as int, chan);
                }
                let entry = self.entries.remove(j);
                proof {
                    assert forall|c2: u64| c2 != chan implies spec_chan_lookup(
                        self.entries@,
                        c2,
                    ) == spec_chan_lookup(s, c2) by {
                        lemma_chan_remove_preserves(s, j as int, chan, c2);
                    }
                    assert forall|m: int|
                        0 <= m < self.entries@.len() implies (#[trigger] self.entries@[m]).0
                        != chan by {
                        if m < j {
                        } else {
                            assert(self.entries@[m] == s[m + 1]);
                        }
                    }
                    lemma_chan_lookup_absent(self.entries@, chan);
                }
                return Some(entry.1);
            }
            j = j + 1;
        }
        proof {
            lemma_chan_lookup_absent(s, chan);
        }
        None
    }

    /// Registers `chan`'s live handle, replacing any earlier one: the
    /// invariant of one subprocess per channel is preserved.
    pub fn register(&mut self, chan: u64, handle: u64)
        requires
            old(self).wf(),
        ensures
            final(self).wf(),
            spec_chan_lookup(final(self).entries@, chan) == Some(handle),
            forall|c2: u64|
                c2 != chan ==> spec_chan_lookup(final(self).entries@, c2) == spec_chan_lookup(
                    old(self).entries@,
                    c2,
                ),
    {
        let _ = self.take(chan);
        let ghost mid = self.entries@;
        proof {
            lemma_chan_lookup_absent(mid, chan);
        }
        self.entries.push((chan, handle));
        proof {
            assert(self.entries@ =~= mid.push((chan, handle)));
            assert forall|c2: u64|
                spec_chan_lookup(self.entries@, c2) == (if spec_chan_lookup(mid, c2) is Some {
                    spec_chan_lookup(mid, c2)
                } else if c2 == chan {
                    Some(handle)
                } else {
                    None::<u64>
                }) by {
                lemma_chan_lookup_push(mid, (chan, handle), c2);
            }
            assert forall|i: int, j: int|
                0 <= i < j < self.entries@.len() implies (#[trigger] self.entries@[i]).0 != (
            #[trigger] self.entries@[j]).0 by {
                if j == self.entries@.len() - 1 {
                    assert(self.entries@[i] == mid[i]);
                }
            }
        }
    }
}

} // verus!
