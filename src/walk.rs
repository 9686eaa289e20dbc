//! Walking a collection: which directories are still to be listed, and what each listing adds.
//! The listing itself is done by the caller, which hands each one back with `report`.
use crate::text::string_views;
use vstd::prelude::*;

verus! {

/// A directory still to be listed, with the directory whose listing found it (none for the root).
#[derive(Clone, Debug)]
pub struct PendingDirectory {
    pub path: String,
    pub parent: Option<String>,
}

/// What one listing found: the files and the subdirectories directly under the directory.
#[derive(Clone, Debug)]
pub struct DirectoryListing {
    pub files: Vec<String>,
    pub subdirectories: Vec<String>,
}

/// The files directly under one directory that holds at least one file.
#[derive(Clone, Debug)]
pub struct AssetGroup {
    pub directory: String,
    pub files: Vec<String>,
}

/// What a pending directory is, as plain values.
pub struct PendingModel {
    pub path: Seq<char>,
    pub parent: Option<Seq<char>>,
}

/// What a listing is, as plain values.
pub struct ListingModel {
    pub files: Seq<Seq<char>>,
    pub subdirectories: Seq<Seq<char>>,
}

/// What an asset group is, as plain values.
pub struct GroupModel {
    pub directory: Seq<char>,
    pub files: Seq<Seq<char>>,
}

/// What a walk is, as plain values.
pub struct WalkModel {
    pub pending: Seq<PendingModel>,
    pub groups: Seq<GroupModel>,
    pub warnings: Seq<Seq<char>>,
}

impl View for PendingDirectory {
    type V = PendingModel;

    open spec fn view(&self) -> PendingModel {
        PendingModel {
            path: self.path@,
            parent: match self.parent {
                Some(p) => Some(p@),
                None => None,
            },
        }
    }
}

impl View for DirectoryListing {
    type V = ListingModel;

    open spec fn view(&self) -> ListingModel {
        ListingModel { files: string_views(self.files@), subdirectories: string_views(self.subdirectories@) }
    }
}

impl View for AssetGroup {
    type V = GroupModel;

    open spec fn view(&self) -> GroupModel {
        GroupModel { directory: self.directory@, files: string_views(self.files@) }
    }
}

/// The walk of one collection: the directories still to be listed, the groups and the warnings
/// found so far.
pub struct DirectoryWalk {
    pending: Vec<PendingDirectory>,
    groups: Vec<AssetGroup>,
    warnings: Vec<String>,
}

impl View for DirectoryWalk {
    type V = WalkModel;

    closed spec fn view(&self) -> WalkModel {
        WalkModel {
            pending: self.pending@.map_values(|p: PendingDirectory| p@),
            groups: self.groups@.map_values(|g: AssetGroup| g@),
            warnings: string_views(self.warnings@),
        }
    }
}

/// The warning for a directory that could not be listed, found by the listing of `parent`.
pub open spec fn read_failure_message(parent: Seq<char>, cause: Seq<char>) -> Seq<char> {
    "Failed to read some child of '"@ + parent + "': "@ + cause
}

/// The error for a collection whose root could not be listed.
pub open spec fn collection_failure_message(cause: Seq<char>) -> Seq<char> {
    "Unexpected error while reading collection: "@ + cause
}

/// The subdirectories of a listing, each to be listed in turn.
pub open spec fn found_directories(dir: Seq<char>, subdirectories: Seq<Seq<char>>) -> Seq<
    PendingModel,
> {
    subdirectories.map_values(|s: Seq<char>| PendingModel { path: s, parent: Some(dir) })
}

/// The walk after the listing of `dir`, and whether the walk must stop with an error: a listing
/// adds its subdirectories to those to be listed and, where it holds a file, a group; a failed
/// listing adds a warning, unless it is that of the root, which ends the walk.
pub open spec fn reported(
    m: WalkModel,
    dir: PendingModel,
    listing: Result<ListingModel, Seq<char>>,
) -> (WalkModel, Result<(), Seq<char>>) {
    match listing {
        Ok(l) => (
            WalkModel {
                pending: m.pending + found_directories(dir.path, l.subdirectories),
                groups: if l.files.len() > 0 {
                    m.groups.push(GroupModel { directory: dir.path, files: l.files })
                } else {
                    m.groups
                },
                ..m
            },
            Ok(()),
        ),
        Err(cause) => match dir.parent {
            Some(parent) => (
                WalkModel { warnings: m.warnings.push(read_failure_message(parent, cause)), ..m },
                Ok(()),
            ),
            None => (m, Err(collection_failure_message(cause))),
        },
    }
}

/// The walk after each of the listings, in order, was read without error.
pub open spec fn listings_reported(m: WalkModel, visits: Seq<(PendingModel, ListingModel)>) -> WalkModel
    decreases visits.len(),
{
    if visits.len() == 0 {
        m
    } else {
        let prev = listings_reported(m, visits.drop_last());
        reported(prev, visits.last().0, Ok(visits.last().1)).0
    }
}

/// Directories without files add nothing to the results of a walk: however many are listed,
/// and whatever subdirectories they have, the groups and warnings stay as they were. So a tree
/// with no file in it yields no group, and hence no work, and no warning.
pub proof fn lemma_fileless_directories_leave_no_trace(
    m: WalkModel,
    visits: Seq<(PendingModel, ListingModel)>,
)
    requires
        forall|i: int| 0 <= i < visits.len() ==> (#[trigger] visits[i]).1.files.len() == 0,
    ensures
        listings_reported(m, visits).groups == m.groups,
        listings_reported(m, visits).warnings == m.warnings,
    decreases visits.len(),
{
    if visits.len() > 0 {
        let rest = visits.drop_last();
        assert forall|i: int| 0 <= i < rest.len() implies (#[trigger] rest[i]).1.files.len() == 0 by {
            assert(rest[i] == visits[i]);
        }
        lemma_fileless_directories_leave_no_trace(m, rest);
        assert(visits.last() == visits[visits.len() - 1]);
    }
}

fn read_failure(parent: &str, cause: &str) -> (r: String)
    ensures
        r@ == read_failure_message(parent@, cause@),
{
    let mut r = "Failed to read some child of '".to_string();
    r.append(parent);
    r.append("': ");
    r.append(cause);
    r
}

fn collection_failure(cause: &str) -> (r: String)
    ensures
        r@ == collection_failure_message(cause@),
{
    let mut r = "Unexpected error while reading collection: ".to_string();
    r.append(cause);
    r
}

impl DirectoryWalk {
    /// A walk that has yet to list the root of the collection.
    pub fn new(root: &str) -> (r: DirectoryWalk)
        ensures
            r@.pending == seq![PendingModel { path: root@, parent: None }],
            r@.groups.len() == 0,
            r@.warnings.len() == 0,
    {
        let mut pending: Vec<PendingDirectory> = Vec::new();
        pending.push(PendingDirectory { path: root.to_string(), parent: None });
        let r = DirectoryWalk { pending, groups: Vec::new(), warnings: Vec::new() };
        assert(r@.pending =~= seq![PendingModel { path: root@, parent: None }]);
        r
    }

    /// Whether every directory found has been handed out for listing.
    pub fn is_done(&self) -> (r: bool)
        ensures
            r == (self@.pending.len() == 0),
    {
        self.pending.len() == 0
    }

    /// Hands out a directory to be listed: the one found last.
    pub fn next_directory(&mut self) -> (r: Option<PendingDirectory>)
        ensures
            old(self)@.pending.len() == 0 ==> r is None && final(self)@ == old(self)@,
            old(self)@.pending.len() > 0 ==> (r matches Some(d) && d@ == old(self)@.pending.last()
                && final(self)@ == (WalkModel { pending: old(self)@.pending.drop_last(), ..old(self)@ })),
    {
        let ghost before = self.pending@;
        let r = self.pending.pop();
        proof {
            if before.len() > 0 {
                assert(self.pending@.map_values(|p: PendingDirectory| p@) == before.map_values(
                    |p: PendingDirectory| p@,
                ).drop_last());
            }
        }
        r
    }

    /// Takes in the listing of `directory`, or the cause of its failure. A failed listing of the
    /// root ends the walk with an error; any other is recorded as a warning.
    pub fn report(
        &mut self,
        directory: PendingDirectory,
        listing: Result<DirectoryListing, String>,
    ) -> (r: Result<(), String>)
        ensures
            ({
                let expected = reported(
                    old(self)@,
                    directory@,
                    match listing {
                        Ok(l) => Ok(l@),
                        Err(cause) => Err(cause@),
                    },
                );
                &&& final(self)@ == expected.0
                &&& match r {
                    Ok(()) => expected.1 == Ok::<(), Seq<char>>(()),
                    Err(message) => expected.1 == Err::<(), Seq<char>>(message@),
                }
            }),
    {
        match listing {
            Ok(l) => {
                let ghost pending_before = self.pending@.map_values(|p: PendingDirectory| p@);
                let ghost found = found_directories(directory.path@, l@.subdirectories);
                let mut i: usize = 0;
                while i < l.subdirectories.len()
                    invariant
                        i <= l.subdirectories.len(),
                        found == found_directories(directory.path@, l@.subdirectories),
                        self.pending@.map_values(|p: PendingDirectory| p@) == pending_before
                            + found.take(i as int),
                        self.groups == old(self).groups,
                        self.warnings == old(self).warnings,
                    decreases l.subdirectories.len() - i,
                {
                    let found_dir = PendingDirectory {
                        path: l.subdirectories[i].clone(),
                        parent: Some(directory.path.clone()),
                    };
                    let ghost before = self.pending@;
                    self.pending.push(found_dir);
                    assert(found.take(i + 1) == found.take(i as int).push(found_dir@));
                    assert(self.pending@.map_values(|p: PendingDirectory| p@) == before.map_values(
                        |p: PendingDirectory| p@,
                    ).push(found_dir@));
                    i += 1;
                }
                assert(found.take(l.subdirectories.len() as int) == found);
                if l.files.len() > 0 {
                    let ghost before = self.groups@;
                    let group = AssetGroup { directory: directory.path, files: l.files };
                    self.groups.push(group);
                    assert(self.groups@.map_values(|g: AssetGroup| g@) == before.map_values(
                        |g: AssetGroup| g@,
                    ).push(group@));
                }
                Ok(())
            },
            Err(cause) => match directory.parent {
                Some(parent) => {
                    let message = read_failure(parent.as_str(), cause.as_str());
                    self.warnings.push(message);
                    assert(string_views(self.warnings@) == string_views(old(self).warnings@).push(
                        message@,
                    ));
                    Ok(())
                },
                None => Err(collection_failure(cause.as_str())),
            },
        }
    }

    /// The groups and the warnings that the walk found.
    pub fn into_results(self) -> (r: (Vec<AssetGroup>, Vec<String>))
        ensures
            r.0@.map_values(|g: AssetGroup| g@) == self@.groups,
            string_views(r.1@) == self@.warnings,
    {
        (self.groups, self.warnings)
    }
}

} // verus!
