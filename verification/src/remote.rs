//! The projects a provider account holds.
use vstd::prelude::*;

use crate::backup::ProjectProfile;
use crate::catalog::ProviderListing;
use crate::detail::ProjectInfo;
use crate::format::{CommitId, ProjectFormat, ProjectMetadata};
use crate::names::{project_file_text, safe_project_file_name};
use crate::order::{is_sorted_from, stable_sort, Ranked};
use crate::project::RemoteProjectSeed;
use crate::text::{at_or_before, lowercase, text_le, text_le_total,
    text_le_transitive};

verus! {

/// The projects of one provider account, and how many could not be read.
#[derive(Debug)]
pub struct RemoteCatalogue {
    pub projects: Vec<RemoteProjectSeed>,
    pub unavailable: usize,
}

/// A project that a provider lists, with what reading it turned up.
#[derive(Debug)]
pub struct RemoteRecord {
    pub handle: String,
    pub head: CommitId,
    /// Unix seconds.
    pub updated_at: i64,
    /// Whether the project and its newest version could be opened.
    pub opened: bool,
    pub profile: Option<ProjectProfile>,
    /// The format of the stored snapshot, asked for where there is no profile.
    pub snapshot_format: Option<ProjectFormat>,
    pub info: Option<ProjectInfo>,
}

impl RemoteRecord {
    /// Whether enough is known to show the project.
    pub open spec fn is_readable(self) -> bool {
        self.opened && (self.profile is Some || self.snapshot_format is Some)
    }
}

/// The name of a project, for people: its handle where nobody named it.
pub open spec fn record_name(record: RemoteRecord) -> Seq<char> {
    match record.profile {
        Some(profile) => profile.display_name@,
        None => record.handle@,
    }
}

/// The format of a project.
pub open spec fn record_format(record: RemoteRecord) -> Option<ProjectFormat> {
    match record.profile {
        Some(profile) => Some(profile.format),
        None => record.snapshot_format,
    }
}

/// Whether a seed says what a record does.
pub open spec fn is_seed_of(
    seed: RemoteProjectSeed,
    record: RemoteRecord,
    listing: ProviderListing,
) -> bool {
    &&& seed.provider_id@ == listing.entry.id@
    &&& seed.provider_name@ == listing.entry.name@
    &&& seed.handle@ == record.handle@
    &&& seed.head == record.head
    &&& seed.name@ == record_name(record)
    &&& Some(seed.format) == record_format(record)
    &&& seed.file_name@ == project_file_text(seed.name@, seed.format)
    &&& match record.profile {
        Some(profile) => seed.metadata == profile.metadata && seed.location == profile.location,
        None => seed.metadata@ == (None::<Seq<char>>, Seq::<Seq<char>>::empty()) && seed.location
            is None,
    }
    &&& seed.updated_at == record.updated_at
    &&& seed.info == record.info
}

/// The records that can be shown.
pub open spec fn readable(records: Seq<RemoteRecord>) -> Seq<RemoteRecord> {
    records.filter(|record: RemoteRecord| record.is_readable())
}

/// Whether the seeds say what the records do, one for one.
pub open spec fn are_seeds_of(
    seeds: Seq<RemoteProjectSeed>,
    records: Seq<RemoteRecord>,
    listing: ProviderListing,
) -> bool {
    &&& seeds.len() == records.len()
    &&& forall|i: int| 0 <= i < records.len() ==> is_seed_of(#[trigger] seeds[i], records[i], listing)
}

/// A project of a provider, ready to stand in the library.
pub fn catalogue_seed(record: RemoteRecord, listing: &ProviderListing) -> (r: Option<
    RemoteProjectSeed,
>)
    ensures
        r is Some <==> record.is_readable(),
        r is Some ==> is_seed_of(r->0, record, *listing),
{
    if !record.opened {
        return None;
    }
    let profile = match (record.profile, record.snapshot_format) {
        (Some(profile), _) => profile,
        (None, Some(format)) => ProjectProfile {
            display_name: record.handle.clone(),
            format,
            metadata: ProjectMetadata::default(),
            location: None,
        },
        (None, None) => {
            return None;
        },
    };
    Some(
        RemoteProjectSeed {
            provider_id: listing.entry.id.clone(),
            provider_name: listing.entry.name.clone(),
            handle: record.handle,
            head: record.head,
            file_name: safe_project_file_name(profile.display_name.as_str(), profile.format),
            name: profile.display_name,
            format: profile.format,
            metadata: profile.metadata,
            location: profile.location,
            updated_at: record.updated_at,
            info: record.info,
        },
    )
}

/// Newest first; among projects of one time, by name.
impl Ranked<()> for RemoteProjectSeed {
    open spec fn leads(self, other: Self, by: ()) -> bool {
        if self.updated_at != other.updated_at {
            self.updated_at > other.updated_at
        } else {
            text_le(lowercase(self.name@), lowercase(other.name@))
        }
    }

    proof fn leads_total(a: Self, b: Self, by: ()) {
        text_le_total(lowercase(a.name@), lowercase(b.name@));
    }

    proof fn leads_transitive(a: Self, b: Self, c: Self, by: ()) {
        if a.updated_at == b.updated_at && b.updated_at == c.updated_at {
            text_le_transitive(lowercase(a.name@), lowercase(b.name@), lowercase(c.name@));
        }
    }

    fn at_or_before(&self, other: &Self, by: &()) -> (r: bool) {
        if self.updated_at != other.updated_at {
            self.updated_at > other.updated_at
        } else {
            at_or_before(
                self.name.as_str().to_lowercase().as_str(),
                other.name.as_str().to_lowercase().as_str(),
            )
        }
    }
}

/// The projects of a provider account: those that could be read, newest first,
/// and how many could not.
pub fn remote_catalogue(records: Vec<RemoteRecord>, listing: &ProviderListing) -> (r:
    RemoteCatalogue)
    ensures
        exists|seeds: Seq<RemoteProjectSeed>|
            #![trigger are_seeds_of(seeds, readable(records@), *listing)]
            are_seeds_of(seeds, readable(records@), *listing) && is_sorted_from(
                seeds,
                r.projects@,
                (),
            ),
        r.unavailable == records@.len() - readable(records@).len(),
{
    let count: usize = records.len();
    let ghost all = records@;
    let ghost keep = |record: RemoteRecord| record.is_readable();
    let mut rest = records;
    let mut projects: Vec<RemoteProjectSeed> = Vec::new();
    let mut unavailable: usize = 0;
    let ghost mut done: int = 0;
    assert(all.skip(0) =~= all);
    assert(all.take(0) =~= Seq::<RemoteRecord>::empty());
    reveal(Seq::filter);
    while rest.len() > 0
        invariant
            0 <= done,
            done + rest@.len() == all.len(),
            all.len() == count,
            rest@ == all.skip(done),
            keep == (|record: RemoteRecord| record.is_readable()),
            are_seeds_of(projects@, all.take(done).filter(keep), *listing),
            unavailable + projects@.len() == done,
        decreases rest@.len(),
    {
        let ghost record = rest@[0];
        let ghost before = projects@;
        let seed = catalogue_seed(rest.remove(0), listing);
        proof {
            assert(record == all[done]);
            assert(all.take(done + 1) =~= all.take(done).push(record));
            assert(all.take(done + 1).drop_last() =~= all.take(done));
            reveal(Seq::filter);
            done = done + 1;
        }
        match seed {
            Some(seed) => {
                projects.push(seed);
                assert(all.take(done).filter(keep) == all.take(done - 1).filter(keep).push(record));
            },
            None => {
                unavailable = unavailable + 1;
                assert(all.take(done).filter(keep) == all.take(done - 1).filter(keep));
            },
        }
    }
    assert(all.take(done) =~= all);
    assert(all.filter(keep) == readable(all));
    let ghost seeds = projects@;
    assert(are_seeds_of(seeds, readable(all), *listing));
    stable_sort(&mut projects, &());
    RemoteCatalogue { projects, unavailable }
}

} // verus!
