//! The listing of a directory, built entry by entry in the order in which the
//! system hands the entries out. One entry that cannot be inspected fails the
//! whole listing: the listing is consumed by every step, so no part of it is
//! left behind an error.

use crate::error::Error;
use crate::ident::{derived, derived_id, positions_have_distinct_ids};
use crate::metadata::{
    begun, finished, metadata, outcome, resolved, FileStat, Metadata, MetadataView, Pending,
    Resolved, Step,
};
use std::path::PathBuf;
use vstd::prelude::*;

verus! {

/// The records gathered so far under one root identifier.
pub struct Listing {
    root_id: String,
    records: Vec<Metadata>,
}

/// A listing as a mathematical value.
pub struct ListingView {
    pub root_id: Seq<char>,
    pub records: Seq<MetadataView>,
}

/// A listing whose next entry is a directory that still has to be looked into.
pub struct Probing {
    listing: Listing,
    pending: Pending,
}

/// `Probing` as a mathematical value.
pub struct ProbingView {
    pub listing: ListingView,
    pub pending: MetadataView,
}

/// Where a listing stands once the stat outcome of its next entry is known.
pub enum Progress {
    /// The entry's record has joined the listing.
    Next(Listing),
    /// The entry is a directory: its first entry has to be looked for.
    Probe(Probing),
}

/// `Progress` as a mathematical value.
pub enum ProgressView {
    Next(ListingView),
    Probe(ProbingView),
}

impl ListingView {
    /// The listing with one more record at its end.
    pub open spec fn with(self, record: MetadataView) -> ListingView {
        ListingView { root_id: self.root_id, records: self.records.push(record) }
    }

    /// The identifier that the next entry gets: its position under the root
    /// identifier.
    pub open spec fn next_id(self) -> Seq<char> {
        derived(self.root_id, self.records.len())
    }

    /// Every record carries the identifier of its position, and only a
    /// directory is said to have an entry.
    pub open spec fn tagged(self) -> bool {
        forall|k: int|
            0 <= k < self.records.len() ==> {
                &&& (#[trigger] self.records[k]).id == derived(self.root_id, k as nat)
                &&& self.records[k].has_child ==> self.records[k].is_dir
            }
    }
}

impl View for Listing {
    type V = ListingView;

    closed spec fn view(&self) -> ListingView {
        ListingView {
            root_id: self.root_id@,
            records: Seq::new(self.records@.len(), |k: int| self.records@[k]@),
        }
    }
}

impl View for Probing {
    type V = ProbingView;

    closed spec fn view(&self) -> ProbingView {
        ProbingView { listing: self.listing@, pending: self.pending@ }
    }
}

impl View for Progress {
    type V = ProgressView;

    open spec fn view(&self) -> ProgressView {
        match *self {
            Progress::Next(listing) => ProgressView::Next(listing@),
            Progress::Probe(probing) => ProgressView::Probe(probing@),
        }
    }
}

/// The step that takes the stat outcome of the next entry: the entry is
/// inspected under the identifier of its position; a failure is the listing's
/// failure.
pub open spec fn entered(
    listing: ListingView,
    path: PathBuf,
    stat: Result<FileStat, std::io::Error>,
) -> Result<ProgressView, Error> {
    match begun(path, listing.next_id(), stat) {
        Err(e) => Err(e),
        Ok(Step::Complete(record)) => Ok(ProgressView::Next(listing.with(record))),
        Ok(Step::Directory(pending)) => Ok(
            ProgressView::Probe(ProbingView { listing, pending }),
        ),
    }
}

/// The step that takes what the look into a directory entry gave.
pub open spec fn probed(
    probing: ProbingView,
    first_entry: Result<bool, std::io::Error>,
) -> Result<ListingView, Error> {
    match finished(probing.pending, first_entry) {
        Err(e) => Err(e),
        Ok(record) => Ok(probing.listing.with(record)),
    }
}

impl Listing {
    #[verifier::type_invariant]
    spec fn records_tagged(&self) -> bool {
        self@.tagged()
    }

    /// An empty listing under `root_id`.
    pub fn new(root_id: String) -> (listing: Listing)
        ensures
            listing@ == (ListingView { root_id: root_id@, records: Seq::empty() }),
    {
        let listing = Listing { root_id, records: Vec::new() };
        assert(listing@.records =~= Seq::empty());
        listing
    }

    /// Takes the stat outcome of the next entry, in enumeration order.
    pub fn entry(self, path: PathBuf, stat: Result<FileStat, std::io::Error>) -> (r: Result<Progress, Error>)
        ensures
            outcome(r) == entered(self@, path, stat),
    {
        proof {
            use_type_invariant(&self);
        }
        let id = derived_id(self.root_id.as_str(), self.records.len());
        match metadata(path, id, stat) {
            Err(e) => Err(e),
            Ok(Resolved::Complete(record)) => Ok(Progress::Next(self.joined(record))),
            Ok(Resolved::Directory(pending)) => Ok(
                Progress::Probe(Probing { listing: self, pending }),
            ),
        }
    }

    fn joined(self, record: Metadata) -> (listing: Listing)
        requires
            record@.id == self@.next_id(),
            record@.has_child ==> record@.is_dir,
        ensures
            listing@ == self@.with(record@),
    {
        proof {
            use_type_invariant(&self);
        }
        let ghost before = self@;
        let Listing { root_id, mut records } = self;
        records.push(record);
        proof {
            let after = ListingView {
                root_id: root_id@,
                records: Seq::new(records@.len(), |k: int| records@[k]@),
            };
            assert(after.records =~= before.records.push(record@));
            assert(after == before.with(record@));
            assert forall|k: int| 0 <= k < after.records.len() implies {
                &&& (#[trigger] after.records[k]).id == derived(after.root_id, k as nat)
                &&& after.records[k].has_child ==> after.records[k].is_dir
            } by {
                if k < before.records.len() {
                    assert(after.records[k] == before.records[k]);
                }
            }
        }
        Listing { root_id, records }
    }

    /// The number of records gathered so far.
    pub fn len(&self) -> (n: usize)
        ensures
            n == self@.records.len(),
    {
        self.records.len()
    }

    /// Ends the listing and hands out its records, in enumeration order.
    pub fn finish(self) -> (records: Vec<Metadata>)
        ensures
            records@.len() == self@.records.len(),
            forall|k: int| 0 <= k < records@.len() ==> (#[trigger] records@[k])@ == self@.records[k],
            self@.tagged(),
    {
        proof {
            use_type_invariant(&self);
        }
        self.records
    }
}

impl Probing {
    #[verifier::type_invariant]
    spec fn pending_is_next(&self) -> bool {
        self.pending@.id == self.listing@.next_id()
    }

    /// The directory to look into.
    pub fn path(&self) -> (path: &PathBuf)
        ensures
            *path == self@.pending.path,
    {
        self.pending.path()
    }

    /// Takes what the look for a first entry gave.
    pub fn first_entry(self, first_entry: Result<bool, std::io::Error>) -> (r: Result<Listing, Error>)
        ensures
            outcome(r) == probed(self@, first_entry),
    {
        proof {
            use_type_invariant(&self);
        }
        let Probing { listing, pending } = self;
        match pending.finish(first_entry) {
            Err(e) => Err(e),
            Ok(record) => Ok(listing.joined(record)),
        }
    }
}

/// What the system reports of one entry of a directory: its path, its stat
/// outcome, and what a look for a first entry below it would give. The look
/// counts for a directory only: for anything else any value will do.
#[derive(Debug)]
pub struct Entry {
    pub path: PathBuf,
    pub stat: Result<FileStat, std::io::Error>,
    pub first_entry: Result<bool, std::io::Error>,
}

/// What the inspection of the entry at position `k` comes to under `root_id`.
pub open spec fn resolved_at(
    root_id: Seq<char>,
    entries: Seq<Entry>,
    k: int,
) -> Result<MetadataView, Error> {
    resolved(entries[k].path, derived(root_id, k as nat), entries[k].stat, entries[k].first_entry)
}

/// A listing after one more entry: the entry's record joins it, or the
/// entry's failure takes its place.
pub open spec fn advanced(listing: ListingView, entry: Entry) -> Result<ListingView, Error> {
    match resolved(entry.path, listing.next_id(), entry.stat, entry.first_entry) {
        Err(e) => Err(e),
        Ok(record) => Ok(listing.with(record)),
    }
}

/// The listing of a directory whose entries come in the given order: each
/// entry is taken in turn, and the first failure ends the listing.
pub open spec fn listed(root_id: Seq<char>, entries: Seq<Entry>) -> Result<ListingView, Error>
    decreases entries.len(),
{
    if entries.len() == 0 {
        Ok(ListingView { root_id, records: Seq::empty() })
    } else {
        match listed(root_id, entries.drop_last()) {
            Err(e) => Err(e),
            Ok(listing) => advanced(listing, entries.last()),
        }
    }
}

/// The steps `entry` and `first_entry`, one after the other, advance a listing
/// by one entry.
pub proof fn steps_advance(listing: ListingView, entry: Entry)
    ensures
        advanced(listing, entry) == match entered(listing, entry.path, entry.stat) {
            Err(e) => Err(e),
            Ok(ProgressView::Next(next)) => Ok(next),
            Ok(ProgressView::Probe(probing)) => probed(probing, entry.first_entry),
        },
{
}

/// An empty directory lists as no records, and not as an error.
pub proof fn empty_directory_lists_empty(root_id: Seq<char>)
    ensures
        listed(root_id, Seq::empty()) == Ok::<ListingView, Error>(
            ListingView { root_id, records: Seq::empty() },
        ),
{
}

/// A listing succeeds exactly where every entry can be inspected. It then holds
/// one record for each entry, in the entries' order: the record that inspecting
/// the entry under the identifier of its position gives.
pub proof fn listing_holds_each_entry(root_id: Seq<char>, entries: Seq<Entry>)
    ensures
        listed(root_id, entries) is Ok <==> forall|k: int|
            0 <= k < entries.len() ==> #[trigger] resolved_at(root_id, entries, k) is Ok,
        listed(root_id, entries) matches Ok(listing) ==> {
            &&& listing.root_id == root_id
            &&& listing.records.len() == entries.len()
            &&& listing.tagged()
            &&& forall|k: int|
                0 <= k < entries.len() ==> #[trigger] resolved_at(root_id, entries, k) == Ok::<
                    MetadataView,
                    Error,
                >(listing.records[k])
        },
    decreases entries.len(),
{
    if entries.len() > 0 {
        let front = entries.drop_last();
        let last = entries.len() - 1;
        listing_holds_each_entry(root_id, front);
        assert forall|k: int| 0 <= k < front.len() implies resolved_at(root_id, front, k)
            == resolved_at(root_id, entries, k) by {
            assert(front[k] == entries[k]);
        }
        if listed(root_id, front) is Ok {
            let listing = listed(root_id, front)->Ok_0;
            assert(advanced(listing, entries.last()) == match resolved_at(root_id, entries, last) {
                Err(e) => Err(e),
                Ok(record) => Ok(listing.with(record)),
            });
            if listed(root_id, entries) is Ok {
                let longer = listed(root_id, entries)->Ok_0;
                assert forall|k: int| 0 <= k < entries.len() implies #[trigger] resolved_at(
                    root_id,
                    entries,
                    k,
                ) == Ok::<MetadataView, Error>(longer.records[k]) by {
                    if k < last {
                        assert(resolved_at(root_id, front, k) == resolved_at(root_id, entries, k));
                    }
                }
                assert(longer.tagged());
            } else {
                assert(resolved_at(root_id, entries, last) is Err);
            }
        } else {
            let k = choose|k: int|
                0 <= k < front.len() && !(#[trigger] resolved_at(root_id, front, k) is Ok);
            assert(resolved_at(root_id, front, k) == resolved_at(root_id, entries, k));
        }
    }
}

/// The records of a listing are told apart by their identifiers.
pub proof fn records_have_distinct_ids(listing: ListingView, j: int, k: int)
    requires
        listing.tagged(),
        0 <= j < listing.records.len(),
        0 <= k < listing.records.len(),
        j != k,
    ensures
        listing.records[j].id != listing.records[k].id,
{
    positions_have_distinct_ids(listing.root_id, j as nat, k as nat);
}

/// One entry that cannot be inspected fails the whole listing, with the
/// failure of the first such entry in the entries' order.
pub proof fn first_failure_fails_listing(root_id: Seq<char>, entries: Seq<Entry>, k: int)
    requires
        0 <= k < entries.len(),
        resolved_at(root_id, entries, k) is Err,
        forall|j: int| 0 <= j < k ==> #[trigger] resolved_at(root_id, entries, j) is Ok,
    ensures
        listed(root_id, entries) == Err::<ListingView, Error>(
            resolved_at(root_id, entries, k)->Err_0,
        ),
    decreases entries.len(),
{
    let front = entries.drop_last();
    assert forall|j: int| 0 <= j < front.len() implies resolved_at(root_id, front, j)
        == resolved_at(root_id, entries, j) by {
        assert(front[j] == entries[j]);
    }
    if k < entries.len() - 1 {
        assert(resolved_at(root_id, front, k) == resolved_at(root_id, entries, k));
        assert forall|j: int| 0 <= j < k implies #[trigger] resolved_at(root_id, front, j) is Ok by {
            assert(resolved_at(root_id, front, j) == resolved_at(root_id, entries, j));
        }
        first_failure_fails_listing(root_id, front, k);
    } else {
        assert forall|j: int| 0 <= j < front.len() implies #[trigger] resolved_at(
            root_id,
            front,
            j,
        ) is Ok by {
            assert(resolved_at(root_id, front, j) == resolved_at(root_id, entries, j));
        }
        listing_holds_each_entry(root_id, front);
    }
}

/// Lists a directory from what the system reported of its entries, in the
/// order in which it handed them out: the record of each entry under the
/// identifier of its position, or the failure of the first entry that cannot be
/// inspected, with no records at all.
pub fn list_metadatas(root_id: String, entries: Vec<Entry>) -> (r: Result<Vec<Metadata>, Error>)
    ensures
        match listed(root_id@, entries@) {
            Err(e) => r == Err::<Vec<Metadata>, Error>(e),
            Ok(listing) => {
                &&& r matches Ok(records)
                &&& records@.len() == listing.records.len()
                &&& forall|k: int|
                    0 <= k < records@.len() ==> (#[trigger] records@[k])@ == listing.records[k]
            },
        },
{
    let ghost root = root_id@;
    let ghost all = entries@;
    let mut listing = Listing::new(root_id);
    for entry in iter: entries.into_iter()
        invariant
            root == root_id@,
            all == entries@,
            iter.seq() == all,
            listed(root, all.take(iter.index())) == Ok::<ListingView, Error>(listing@),
    {
        let ghost at = iter.index();
        let ghost before = listing@;
        proof {
            listing_holds_each_entry(root, all.take(at));
            steps_advance(before, entry);
            assert(all.take(at + 1).drop_last() =~= all.take(at));
            assert(all.take(at + 1).last() == entry);
            assert forall|j: int| 0 <= j < at implies #[trigger] resolved_at(root, all, j) is Ok by {
                assert(resolved_at(root, all.take(at), j) is Ok);
            }
            if advanced(before, entry) is Err {
                first_failure_fails_listing(root, all, at);
            }
        }
        let Entry { path, stat, first_entry } = entry;
        let progress = match listing.entry(path, stat) {
            Err(e) => {
                return Err(e);
            },
            Ok(progress) => progress,
        };
        listing = match progress {
            Progress::Next(next) => next,
            Progress::Probe(probing) => match probing.first_entry(first_entry) {
                Err(e) => {
                    return Err(e);
                },
                Ok(next) => next,
            },
        };
    }
    assert(all.take(all.len() as int) =~= all);
    Ok(listing.finish())
}

} // verus!
