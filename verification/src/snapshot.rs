//! Snapshots of a folder and the additions between two of them.
use vstd::prelude::*;

verus! {

/// The texts of a sequence of strings.
pub open spec fn texts(strings: Seq<String>) -> Seq<Seq<char>> {
    strings.map_values(|s: String| s@)
}

/// The listing without the later occurrences of a path that it holds more
/// than once.
pub open spec fn first_occurrences(listing: Seq<Seq<char>>) -> Seq<Seq<char>>
    decreases listing.len(),
{
    if listing.len() == 0 {
        Seq::empty()
    } else {
        let before = first_occurrences(listing.drop_last());
        if before.contains(listing.last()) {
            before
        } else {
            before.push(listing.last())
        }
    }
}

/// `first_occurrences` holds each path of the listing, and each once. It
/// changes nothing in a listing that holds no path twice.
pub proof fn lemma_first_occurrences(listing: Seq<Seq<char>>)
    ensures
        first_occurrences(listing).no_duplicates(),
        first_occurrences(listing).to_set() == listing.to_set(),
        listing.no_duplicates() ==> first_occurrences(listing) == listing,
    decreases listing.len(),
{
    let kept = first_occurrences(listing);
    if listing.len() > 0 {
        let head = listing.drop_last();
        let last = listing.last();
        let before = first_occurrences(head);
        lemma_first_occurrences(head);
        assert(listing =~= head.push(last));
        head.lemma_push_to_set_commute(last);
        before.lemma_push_to_set_commute(last);
        if before.contains(last) {
            assert(head.to_set().contains(last));
            assert(head.to_set().insert(last) =~= head.to_set());
        }
        if listing.no_duplicates() {
            assert(head.no_duplicates());
            if head.contains(last) {
                let i = choose|i: int| 0 <= i < head.len() && head[i] == last;
                assert(listing[i] == listing[listing.len() - 1]);
            }
            assert(!before.to_set().contains(last));
        }
    } else {
        assert(kept.to_set() =~= listing.to_set());
    }
}

/// The files of a folder at one instant: a set of paths, kept in the order
/// in which they were listed.
#[derive(Debug)]
pub struct FileSnapshot {
    paths: Vec<String>,
}

impl View for FileSnapshot {
    type V = Set<Seq<char>>;

    /// The paths that the snapshot holds.
    open spec fn view(&self) -> Set<Seq<char>> {
        self.listing().to_set()
    }
}

impl FileSnapshot {
    /// The paths of the snapshot in the order in which they were listed.
    pub closed spec fn listing(&self) -> Seq<Seq<char>> {
        texts(self.paths@)
    }

    #[verifier::type_invariant]
    spec fn each_path_once(&self) -> bool {
        self.listing().no_duplicates()
    }

    /// The snapshot of an empty folder.
    pub fn new() -> (snapshot: FileSnapshot)
        ensures
            snapshot.listing() == Seq::<Seq<char>>::empty(),
            snapshot@ == Set::<Seq<char>>::empty(),
    {
        let snapshot = FileSnapshot { paths: Vec::new() };
        assert(snapshot.listing() =~= Seq::<Seq<char>>::empty());
        assert(snapshot@ =~= Set::<Seq<char>>::empty());
        snapshot
    }

    /// The number of paths in the snapshot.
    pub fn len(&self) -> (n: usize)
        ensures
            n == self.listing().len(),
            n == self@.len(),
    {
        proof {
            use_type_invariant(self);
            self.listing().unique_seq_to_set();
        }
        self.paths.len()
    }

    /// The paths of the snapshot in the order in which they were listed.
    pub fn paths(&self) -> (paths: &Vec<String>)
        ensures
            texts(paths@) == self.listing(),
            texts(paths@).no_duplicates(),
    {
        proof {
            use_type_invariant(self);
        }
        &self.paths
    }

    /// Whether the snapshot holds `path`, letter for letter.
    pub fn contains(&self, path: &str) -> (found: bool)
        ensures
            found == self@.contains(path@),
    {
        let wanted = String::from_str(path);
        let mut i: usize = 0;
        while i < self.paths.len()
            invariant
                i <= self.paths.len(),
                wanted@ == path@,
                forall|k: int| 0 <= k < i ==> self.listing()[k] != path@,
            decreases self.paths.len() - i,
        {
            if self.paths[i] == wanted {
                assert(self.listing()[i as int] == path@);
                return true;
            }
            i = i + 1;
        }
        false
    }

    /// Adds `path` unless the snapshot holds it already, and says whether it
    /// was added.
    pub fn insert(&mut self, path: String) -> (added: bool)
        ensures
            added == !old(self)@.contains(path@),
            final(self).listing() == if added {
                old(self).listing().push(path@)
            } else {
                old(self).listing()
            },
            final(self)@ == old(self)@.insert(path@),
    {
        proof {
            use_type_invariant(&*self);
        }
        let ghost before = self.listing();
        if self.contains(path.as_str()) {
            assert(self@.insert(path@) =~= self@);
            false
        } else {
            let mut paths: Vec<String> = Vec::new();
            std::mem::swap(&mut paths, &mut self.paths);
            paths.push(path);
            proof {
                let after = texts(paths@);
                assert(after =~= before.push(path@));
                assert forall|i: int, j: int|
                    0 <= i < after.len() && 0 <= j < after.len() && i != j implies after[i]
                    != after[j] by {
                    if i < before.len() {
                        assert(before.contains(before[i]));
                    }
                    if j < before.len() {
                        assert(before.contains(before[j]));
                    }
                }
                before.lemma_push_to_set_commute(path@);
            }
            self.paths = paths;
            true
        }
    }

    /// The snapshot of the given paths: each of them once, in the order of
    /// its first occurrence.
    pub fn from_paths(paths: Vec<String>) -> (snapshot: FileSnapshot)
        ensures
            snapshot.listing() == first_occurrences(texts(paths@)),
            snapshot@ == texts(paths@).to_set(),
    {
        let mut snapshot = FileSnapshot::new();
        let mut i: usize = 0;
        while i < paths.len()
            invariant
                i <= paths.len(),
                snapshot.listing() == first_occurrences(texts(paths@).take(i as int)),
            decreases paths.len() - i,
        {
            let path = paths[i].clone();
            proof {
                let head = texts(paths@).take(i as int);
                let next = texts(paths@).take(i + 1);
                assert(next.drop_last() =~= head);
                assert(next.last() == path@);
            }
            snapshot.insert(path);
            i = i + 1;
        }
        proof {
            assert(texts(paths@).take(i as int) =~= texts(paths@));
            lemma_first_occurrences(texts(paths@));
        }
        snapshot
    }
}

} // verus!
