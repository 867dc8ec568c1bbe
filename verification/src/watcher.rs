//! The watcher: from one snapshot to the next, and the additions between
//! them.
use vstd::prelude::*;
use crate::error::ErrorKind;
use crate::snapshot::FileSnapshot;

verus! {

/// The number of seconds between two readings of the watched folder.
pub const POLL_INTERVAL_SECONDS: u64 = 10;

/// Something that happened in the watched folder.
#[derive(Debug, PartialEq, Eq)]
pub enum Event {
    /// A file appeared at this path.
    Added(String),
}

impl Event {
    /// The path that the event is about.
    pub open spec fn path(self) -> Seq<char> {
        match self {
            Event::Added(path) => path@,
        }
    }

    /// The path that the event is about.
    pub fn file_path(&self) -> (path: &str)
        ensures
            path@ == self.path(),
    {
        match self {
            Event::Added(path) => path.as_str(),
        }
    }
}

/// The paths of a sequence of events.
pub open spec fn paths_of(events: Seq<Event>) -> Seq<Seq<char>> {
    events.map_values(|e: Event| e.path())
}

/// The test that a path is not among `previous`.
pub open spec fn absent_from(previous: Set<Seq<char>>) -> spec_fn(Seq<char>) -> bool {
    |path: Seq<char>| !previous.contains(path)
}

/// The paths of `listing` that are not among `previous`, in the order of
/// the listing.
pub open spec fn added_paths(previous: Set<Seq<char>>, listing: Seq<Seq<char>>) -> Seq<
    Seq<char>,
> {
    listing.filter(absent_from(previous))
}

/// The added paths are, as a set, the listed paths without the previous
/// ones, and none of them stands twice unless it is listed twice.
pub proof fn lemma_added_is_difference(previous: Set<Seq<char>>, listing: Seq<Seq<char>>)
    ensures
        added_paths(previous, listing).to_set() == listing.to_set().difference(previous),
        listing.no_duplicates() ==> added_paths(previous, listing).no_duplicates(),
    decreases listing.len(),
{
    let test = absent_from(previous);
    let added = added_paths(previous, listing);
    if listing.len() == 0 {
        reveal(Seq::filter);
        assert(added.to_set() =~= listing.to_set().difference(previous));
    } else {
        let head = listing.drop_last();
        let last = listing.last();
        let before = added_paths(previous, head);
        assert(listing =~= head.push(last));
        lemma_added_is_difference(previous, head);
        head.lemma_filter_push(last, test);
        head.lemma_push_to_set_commute(last);
        before.lemma_push_to_set_commute(last);
        assert(added.to_set() =~= listing.to_set().difference(previous));
        if listing.no_duplicates() {
            assert(head.no_duplicates());
            if head.contains(last) {
                let i = choose|i: int| 0 <= i < head.len() && head[i] == last;
                assert(listing[i] == listing[listing.len() - 1]);
            }
            assert(!head.to_set().difference(previous).contains(last));
            assert(!before.to_set().contains(last));
        }
    }
}

/// The additions do not depend on the order in which a folder was listed:
/// two listings of the same paths give the same added paths.
pub proof fn lemma_added_ignores_order(
    previous: Set<Seq<char>>,
    listing: Seq<Seq<char>>,
    other_listing: Seq<Seq<char>>,
)
    requires
        listing.to_set() == other_listing.to_set(),
    ensures
        added_paths(previous, listing).to_set() == added_paths(previous, other_listing).to_set(),
{
    lemma_added_is_difference(previous, listing);
    lemma_added_is_difference(previous, other_listing);
}

/// A listing that holds no path beyond the previous ones adds nothing. So a
/// folder that did not change between two readings adds nothing.
pub proof fn lemma_nothing_new_adds_nothing(previous: Set<Seq<char>>, listing: Seq<Seq<char>>)
    requires
        listing.to_set().subset_of(previous),
    ensures
        added_paths(previous, listing) == Seq::<Seq<char>>::empty(),
{
    lemma_added_is_difference(previous, listing);
    let added = added_paths(previous, listing);
    if added.len() > 0 {
        assert(added.to_set().contains(added[0]));
    }
    assert(added =~= Seq::<Seq<char>>::empty());
}

/// A path that vanished and came back is added again: what was seen before
/// the previous snapshot does not count.
pub proof fn lemma_reappearance_is_added(
    previous: Set<Seq<char>>,
    listing: Seq<Seq<char>>,
    path: Seq<char>,
)
    requires
        listing.contains(path),
        !previous.contains(path),
    ensures
        added_paths(previous, listing).contains(path),
{
    lemma_added_is_difference(previous, listing);
    assert(added_paths(previous, listing).to_set().contains(path));
}

/// The files that `current` holds and `previous` does not, one event for
/// each, in the order in which `current` lists them.
pub fn diff(previous: &FileSnapshot, current: &FileSnapshot) -> (added: Vec<Event>)
    ensures
        paths_of(added@) == added_paths(previous@, current.listing()),
        paths_of(added@).to_set() == current@.difference(previous@),
        paths_of(added@).no_duplicates(),
        current@.subset_of(previous@) ==> added@.len() == 0,
{
    let paths = current.paths();
    let ghost listing = current.listing();
    let ghost test = absent_from(previous@);
    let mut added: Vec<Event> = Vec::new();
    let mut i: usize = 0;
    proof {
        reveal(Seq::filter);
        assert(paths_of(added@) =~= listing.take(0).filter(test));
    }
    while i < paths.len()
        invariant
            i <= paths.len(),
            listing == crate::snapshot::texts(paths@),
            test == absent_from(previous@),
            paths_of(added@) == listing.take(i as int).filter(test),
        decreases paths.len() - i,
    {
        let path = &paths[i];
        proof {
            assert(listing.take(i + 1) =~= listing.take(i as int).push(path@));
            listing.take(i as int).lemma_filter_push(path@, test);
        }
        if !previous.contains(path.as_str()) {
            let ghost before = added@;
            added.push(Event::Added(path.clone()));
            assert(paths_of(added@) =~= paths_of(before).push(path@));
        }
        i = i + 1;
    }
    proof {
        assert(listing.take(i as int) =~= listing);
        lemma_added_is_difference(previous@, listing);
        if current@.subset_of(previous@) {
            lemma_nothing_new_adds_nothing(previous@, listing);
        }
    }
    added
}

/// What one reading of the watched folder gave.
#[derive(Debug)]
pub enum Poll {
    /// The folder was read, and these are its files.
    Listed(FileSnapshot),
    /// The folder could not be read.
    Unreadable,
}

/// The watcher's memory: the files of the folder when it was last read.
#[derive(Debug)]
pub struct Watcher {
    previous: FileSnapshot,
}

impl View for Watcher {
    type V = Set<Seq<char>>;

    /// The paths of the last snapshot.
    closed spec fn view(&self) -> Set<Seq<char>> {
        self.previous@
    }
}

impl Watcher {
    /// Begins to watch with the first reading of the folder. Nothing is
    /// watched unless that reading succeeded: a folder that cannot be read
    /// at startup is a failure of kind `DirectoryRead`.
    pub fn start(first: Poll) -> (started: Result<Watcher, ErrorKind>)
        ensures
            match first {
                Poll::Listed(snapshot) => started is Ok && started->Ok_0@ == snapshot@,
                Poll::Unreadable => started == Err::<Watcher, ErrorKind>(ErrorKind::DirectoryRead),
            },
    {
        match first {
            Poll::Listed(snapshot) => Ok(Watcher { previous: snapshot }),
            Poll::Unreadable => Err(ErrorKind::DirectoryRead),
        }
    }

    /// Takes in one more reading of the folder. A snapshot gives one event
    /// for each of its files that the last snapshot lacks, and then takes
    /// the place of the last snapshot. A reading that failed gives the
    /// failure and leaves the watcher as it was.
    pub fn observe(&mut self, poll: Poll) -> (seen: Result<Vec<Event>, ErrorKind>)
        ensures
            match poll {
                Poll::Listed(current) => {
                    &&& seen is Ok
                    &&& paths_of(seen->Ok_0@) == added_paths(old(self)@, current.listing())
                    &&& paths_of(seen->Ok_0@).to_set() == current@.difference(old(self)@)
                    &&& paths_of(seen->Ok_0@).no_duplicates()
                    &&& current@.subset_of(old(self)@) ==> seen->Ok_0@.len() == 0
                    &&& final(self)@ == current@
                },
                Poll::Unreadable => {
                    &&& seen == Err::<Vec<Event>, ErrorKind>(ErrorKind::DirectoryRead)
                    &&& *final(self) == *old(self)
                },
            },
    {
        match poll {
            Poll::Listed(current) => {
                let added = diff(&self.previous, &current);
                self.previous = current;
                Ok(added)
            },
            Poll::Unreadable => Err(ErrorKind::DirectoryRead),
        }
    }
}

} // verus!
