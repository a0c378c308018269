//! The bounded transcript shown while long-running operations run.

use vstd::prelude::*;
use vstd::string::*;

verus! {

/// Most entries the transcript keeps.
pub const LOG_CAPACITY: usize = 100;

/// What the transcript holds after `entry` is appended to `log`: the new entry
/// goes to the back and, if the transcript was full, the oldest entry is dropped.
pub open spec fn appended(log: Seq<Seq<char>>, entry: Seq<char>) -> Seq<Seq<char>> {
    if log.len() < LOG_CAPACITY {
        log.push(entry)
    } else {
        log.drop_first().push(entry)
    }
}

/// The transcript: at most [`LOG_CAPACITY`] lines, oldest first.
pub struct LogBuffer {
    entries: Vec<String>,
}

impl View for LogBuffer {
    type V = Seq<Seq<char>>;

    closed spec fn view(&self) -> Seq<Seq<char>> {
        self.entries@.map_values(|s: String| s@)
    }
}

impl LogBuffer {
    #[verifier::type_invariant]
    spec fn bounded(&self) -> bool {
        self.entries@.len() <= LOG_CAPACITY
    }

    /// An empty transcript.
    pub fn new() -> (log: Self)
        ensures
            log@ == Seq::<Seq<char>>::empty(),
    {
        let log = LogBuffer { entries: Vec::new() };
        log
    }

    /// Number of entries held; never more than the capacity.
    pub fn len(&self) -> (n: usize)
        ensures
            n == self@.len(),
            n <= LOG_CAPACITY,
    {
        proof {
            use_type_invariant(self);
        }
        self.entries.len()
    }

    /// Whether the transcript holds nothing.
    pub fn is_empty(&self) -> (r: bool)
        ensures
            r == (self@.len() == 0),
    {
        self.entries.len() == 0
    }

    /// The `i`-th entry, oldest first.
    pub fn get(&self, i: usize) -> (entry: &String)
        requires
            i < self@.len(),
        ensures
            entry@ == self@[i as int],
    {
        &self.entries[i]
    }

    /// The entries, oldest first.
    pub fn entries(&self) -> (lines: &Vec<String>)
        ensures
            lines@.map_values(|s: String| s@) == self@,
            lines@.len() <= LOG_CAPACITY,
    {
        proof {
            use_type_invariant(self);
        }
        &self.entries
    }

    /// Appends `message`, evicting the oldest entry when the transcript is full.
    pub fn push(&mut self, message: &str)
        ensures
            final(self)@ == appended(old(self)@, message@),
            final(self)@.len() <= LOG_CAPACITY,
    {
        proof {
            use_type_invariant(&*self);
        }
        let mut entries: Vec<String> = Vec::new();
        core::mem::swap(&mut self.entries, &mut entries);
        if entries.len() >= LOG_CAPACITY {
            entries.remove(0);
        }
        entries.push(String::from_str(message));
        self.entries = entries;
    }

    /// Drops every entry.
    pub fn clear(&mut self)
        ensures
            final(self)@ == Seq::<Seq<char>>::empty(),
    {
        self.entries = Vec::new();
    }
}

/// The transcript never outgrows its capacity, whatever is appended to it.
pub proof fn lemma_appended_is_bounded(log: Seq<Seq<char>>, entry: Seq<char>)
    requires
        log.len() <= LOG_CAPACITY,
    ensures
        appended(log, entry).len() <= LOG_CAPACITY,
        appended(log, entry).last() == entry,
{
}

/// Appending to a full transcript evicts exactly its oldest entry: what was
/// second becomes first, and the new entry stands last.
pub proof fn lemma_full_transcript_evicts_oldest(log: Seq<Seq<char>>, entry: Seq<char>)
    requires
        log.len() == LOG_CAPACITY,
    ensures
        appended(log, entry).len() == LOG_CAPACITY,
        appended(log, entry) == log.subrange(1, log.len() as int).push(entry),
        forall|i: int| 0 <= i < LOG_CAPACITY - 1 ==> appended(log, entry)[i] == log[i + 1],
        appended(log, entry)[LOG_CAPACITY - 1] == entry,
{
}

} // verus!
