//! The application job model: a closed set of nine payload-carrying work
//! units, enqueued on demand by the rest of the system. Payloads are plain
//! data, so the surrounding queue runtime can serialize a job, persist it and
//! reconstruct it verbatim before handing it to the dispatcher.

use vstd::prelude::*;
use vstd::string::StringExecFns;

verus! {

/// Configuration for one external import run.
#[derive(Clone, Debug, PartialEq, Eq)]
pub struct DeployImportJobInput {
    /// The import source the run pulls from.
    pub source: String,
}

/// The media item a metadata refresh works on.
#[derive(Clone, Debug, PartialEq, Eq)]
pub struct MetadataRecord {
    pub id: i32,
    pub title: String,
}

/// One exercise definition to synchronize into the catalog.
#[derive(Clone, Debug, PartialEq, Eq)]
pub struct Exercise {
    pub name: String,
}

/// One progress update to apply for a user.
#[derive(Clone, Debug, PartialEq, Eq)]
pub struct ProgressUpdateInput {
    pub metadata_id: i32,
    pub progress: Option<i32>,
}

/// A person credit to link to a media item.
#[derive(Clone, Debug, PartialEq, Eq)]
pub struct PartialMetadataPerson {
    pub name: String,
    pub role: String,
}

/// The category of a media item.
#[derive(Clone, Copy, Debug, PartialEq, Eq, Structural)]
pub enum MetadataLot {
    AudioBook,
    Anime,
    Book,
    Manga,
    Movie,
    Podcast,
    Show,
    VideoGame,
}

/// The provider a media item's metadata comes from.
#[derive(Clone, Copy, Debug, PartialEq, Eq, Structural)]
pub enum MetadataSource {
    Anilist,
    Audible,
    Custom,
    GoogleBooks,
    Igdb,
    Itunes,
    Listennotes,
    Openlibrary,
    Tmdb,
}

/// An on-demand unit of asynchronous work. The set is closed: the dispatcher
/// matches exhaustively, so adding a variant without a handler arm fails the
/// build rather than surfacing at run time.
#[derive(Clone, Debug, PartialEq, Eq)]
pub enum ApplicationJob {
    /// Start an external import for a user.
    ImportFromExternalSource(i32, DeployImportJobInput),
    /// Post-registration setup for a freshly created user.
    UserCreated(i32),
    /// Rebuild one user's aggregated statistics.
    RecalculateUserSummary(i32),
    /// Refresh one media item; may emit state-change notifications.
    UpdateMetadata(MetadataRecord),
    /// Synchronize one exercise definition.
    UpdateExerciseJob(Exercise),
    /// Apply many progress updates for one user in one go.
    BulkProgressUpdate(i32, Vec<ProgressUpdateInput>),
    /// Rebuild the global calendar cache.
    RecalculateCalendarEvents,
    /// Link a person credit to a media item at a given position.
    AssociatePersonWithMetadata(i32, PartialMetadataPerson, usize),
    /// Link a media item to its containing group.
    AssociateGroupWithMetadata(MetadataLot, MetadataSource, String),
}

impl ApplicationJob {
    /// The job's name: the tag of its variant, as emitted to telemetry.
    pub open spec fn name_spec(self) -> Seq<char> {
        match self {
            ApplicationJob::ImportFromExternalSource(_, _) => "ImportFromExternalSource"@,
            ApplicationJob::UserCreated(_) => "UserCreated"@,
            ApplicationJob::RecalculateUserSummary(_) => "RecalculateUserSummary"@,
            ApplicationJob::UpdateMetadata(_) => "UpdateMetadata"@,
            ApplicationJob::UpdateExerciseJob(_) => "UpdateExerciseJob"@,
            ApplicationJob::BulkProgressUpdate(_, _) => "BulkProgressUpdate"@,
            ApplicationJob::RecalculateCalendarEvents => "RecalculateCalendarEvents"@,
            ApplicationJob::AssociatePersonWithMetadata(_, _, _) => "AssociatePersonWithMetadata"@,
            ApplicationJob::AssociateGroupWithMetadata(_, _, _) => "AssociateGroupWithMetadata"@,
        }
    }

    /// The variant tag as a `String`, for the outcome log.
    pub fn name(&self) -> (r: String)
        ensures
            r@ == self.name_spec(),
    {
        match self {
            ApplicationJob::ImportFromExternalSource(_, _) => String::from_str(
                "ImportFromExternalSource",
            ),
            ApplicationJob::UserCreated(_) => String::from_str("UserCreated"),
            ApplicationJob::RecalculateUserSummary(_) => String::from_str(
                "RecalculateUserSummary",
            ),
            ApplicationJob::UpdateMetadata(_) => String::from_str("UpdateMetadata"),
            ApplicationJob::UpdateExerciseJob(_) => String::from_str("UpdateExerciseJob"),
            ApplicationJob::BulkProgressUpdate(_, _) => String::from_str("BulkProgressUpdate"),
            ApplicationJob::RecalculateCalendarEvents => String::from_str(
                "RecalculateCalendarEvents",
            ),
            ApplicationJob::AssociatePersonWithMetadata(_, _, _) => String::from_str(
                "AssociatePersonWithMetadata",
            ),
            ApplicationJob::AssociateGroupWithMetadata(_, _, _) => String::from_str(
                "AssociateGroupWithMetadata",
            ),
        }
    }
}

} // verus!
