//! Bounded, ordered record of recent textual events. Appends evict the
//! oldest entries once the buffer would exceed its cap, keeping the relative
//! order of the survivors.

use vstd::prelude::*;

verus! {

/// Most entries the buffer ever holds.
pub const LOG_CAP: usize = 100;

/// What a log becomes after one entry is appended: the new entry goes to the
/// back, and the front is dropped until the cap holds again.
pub open spec fn trimmed(s: Seq<Seq<char>>) -> Seq<Seq<char>> {
    if s.len() > LOG_CAP {
        s.skip(s.len() - LOG_CAP)
    } else {
        s
    }
}

/// Bounded log of recent events, oldest first.
#[derive(Debug)]
pub struct LogBuffer {
    entries: Vec<String>,
}

impl View for LogBuffer {
    type V = Seq<Seq<char>>;

    closed spec fn view(&self) -> Seq<Seq<char>> {
        self.entries.deep_view()
    }
}

impl LogBuffer {
    /// The buffer never holds more than [`LOG_CAP`] entries.
    pub open spec fn wf(&self) -> bool {
        self@.len() <= LOG_CAP
    }

    pub fn new() -> (r: LogBuffer)
        ensures
            r.wf(),
            r@ == Seq::<Seq<char>>::empty(),
    {
        let r = LogBuffer { entries: Vec::new() };
        proof {
            assert(r@ =~= Seq::<Seq<char>>::empty());
        }
        r
    }

    pub fn len(&self) -> (r: usize)
        ensures
            r == self@.len(),
    {
        self.entries.len()
    }

    /// Adds one entry at the back, then trims from the front while the cap
    /// is exceeded.
    pub fn append(&mut self, message: String)
        requires
            old(self).wf(),
        ensures
            final(self).wf(),
            final(self)@ == trimmed(old(self)@.push(message@)),
    {
        let ghost goal = trimmed(self@.push(message@));
        self.entries.push(message);
        proof {
            assert(self@ =~= old(self)@.push(message@));
        }
        if self.entries.len() > LOG_CAP {
            let ghost before = self@;
            self.entries.remove(0);
            proof {
                assert(self@ =~= before.skip(1));
                assert(self@ =~= goal);
            }
        }
    }

    /// The last `min(n, len)` entries, in insertion order, as a snapshot.
    pub fn tail(&self, n: usize) -> (r: Vec<String>)
        ensures
            r.deep_view() == tail_spec(self@, n as int),
            r.len() == if n as int <= self@.len() { n as int } else { self@.len() as int },
    {
        let len = self.entries.len();
        let start: usize = if n >= len {
            0
        } else {
            len - n
        };
        let mut r: Vec<String> = Vec::new();
        let mut i: usize = start;
        while i < len
            invariant
                start <= i <= len,
                len == self@.len(),
                r.deep_view() == self@.subrange(start as int, i as int),
            decreases len - i,
        {
            let ghost pre = r.deep_view();
            r.push(self.entries[i].clone());
            proof {
                assert(pre.len() == i - start);
                assert(r.deep_view() =~= self@.subrange(start as int, (i + 1) as int));
            }
            i = i + 1;
        }
        proof {
            assert(r.deep_view() =~= tail_spec(self@, n as int));
        }
        r
    }
}

/// The last `min(n, len)` elements of `logs`, in order.
pub open spec fn tail_spec(logs: Seq<Seq<char>>, n: int) -> Seq<Seq<char>> {
    if n >= logs.len() {
        logs
    } else {
        logs.skip(logs.len() - n)
    }
}

/// A bounded log stays bounded: appending one entry to a log within the cap
/// leaves, after trimming, a log within the cap. Applied at every append,
/// this keeps the buffer at or under the cap over any sequence of appends.
pub proof fn lemma_append_bounded(s: Seq<Seq<char>>, m: Seq<char>)
    requires
        s.len() <= LOG_CAP,
    ensures
        trimmed(s.push(m)).len() <= LOG_CAP,
{
}

/// The log that a sequence of appends leaves behind, each one trimmed as
/// [`LogBuffer::append`] trims.
pub open spec fn apply_appends(logs: Seq<Seq<char>>, msgs: Seq<Seq<char>>) -> Seq<Seq<char>>
    decreases msgs.len(),
{
    if msgs.len() == 0 {
        logs
    } else {
        apply_appends(trimmed(logs.push(msgs[0])), msgs.skip(1))
    }
}

/// A bounded log stays bounded over any sequence of appends, however long.
pub proof fn lemma_append_sequence_bounded(logs: Seq<Seq<char>>, msgs: Seq<Seq<char>>)
    requires
        logs.len() <= LOG_CAP,
    ensures
        apply_appends(logs, msgs).len() <= LOG_CAP,
    decreases msgs.len(),
{
    if msgs.len() > 0 {
        lemma_append_sequence_bounded(trimmed(logs.push(msgs[0])), msgs.skip(1));
    }
}

/// Trimming keeps a suffix of the log unchanged: the survivors are exactly
/// the last entries, and their relative order is kept.
pub proof fn lemma_trimmed_is_suffix(s: Seq<Seq<char>>)
    ensures
        trimmed(s).len() <= LOG_CAP || trimmed(s).len() == s.len(),
        forall|i: int|
            0 <= i < trimmed(s).len() ==> trimmed(s)[i] == s[s.len() - trimmed(s).len() + i],
{
}

} // verus!
