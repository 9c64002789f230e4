//! The request to sync a directory of the local file system.

use vstd::prelude::*;
use crate::api::authorized;
use crate::api::bad_request;
use crate::api::not_found;
use crate::api::unauthorized;
use crate::domain::models::ConnectorType;
use crate::domain::models::DataSource;
use crate::domain::models::SyncJob;
use crate::domain::sync::SyncOrchestrator;
use crate::domain::sync::SyncRun;
use crate::error::AppError;
use crate::error::Failure;
use crate::json::JsonModel;
use crate::json::JsonValue;
use crate::storage::Storage;

verus! {

/// What is sent to sync a directory.
#[derive(Debug)]
pub struct LocalSyncRequest {
    /// The directory; empty to ask for the configured one.
    pub path: String,
    /// The name that the source is to have.
    pub name: Option<String>,
    /// The profile whose configured directory is asked for.
    pub profile: Option<String>,
}

/// What is answered when the sync of a directory has been started.
#[derive(Debug)]
pub struct LocalSyncResponse {
    pub source_id: u128,
    pub job_id: u128,
    pub path: String,
    pub message: String,
}

/// What is known of a directory that is to be synced.
#[derive(Debug)]
pub struct DirectoryFacts {
    /// Whether the path exists.
    pub exists: bool,
    /// Whether the path is a directory.
    pub is_dir: bool,
    /// The last component of the path, where it is a name and valid text.
    pub name: Option<String>,
}

/// The directory that a request asks to be synced: the one it names, or the configured
/// one where it names none.
pub open spec fn path_to_sync(user: Option<u128>, body: LocalSyncRequest, configured: Option<String>) -> Result<
    Seq<char>,
    Failure,
> {
    if user is None {
        Err(unauthorized())
    } else if body.path@.len() > 0 {
        Ok(body.path@)
    } else {
        match configured {
            Some(path) => Ok(path@),
            None => Err(bad_request("No path provided and no default configured"@)),
        }
    }
}

/// The directory that a request asks to be synced. `configured` is the directory that is
/// configured for the profile of the request, or as the default where it names no
/// profile.
pub fn sync_path(user: Option<u128>, body: &LocalSyncRequest, configured: Option<String>) -> (r: Result<
    String,
    AppError,
>)
    ensures
        match r {
            Ok(path) => path_to_sync(user, *body, configured) == Ok::<Seq<char>, Failure>(path@),
            Err(e) => path_to_sync(user, *body, configured) == Err::<Seq<char>, Failure>(e@),
        },
{
    match authorized(user) {
        Ok(_) => {},
        Err(e) => {
            return Err(e);
        },
    }
    if body.path.as_str().unicode_len() > 0 {
        Ok(body.path.clone())
    } else {
        match configured {
            Some(path) => Ok(path),
            None => Err(
                AppError::BadRequest(
                    String::from_str("No path provided and no default configured"),
                ),
            ),
        }
    }
}

/// Whether a directory can be synced: it must exist and be a directory.
pub open spec fn directory_checked(path: Seq<char>, facts: DirectoryFacts) -> Result<(), Failure> {
    if !facts.exists {
        Err(not_found("Path does not exist: "@ + path))
    } else if !facts.is_dir {
        Err(bad_request("Path is not a directory: "@ + path))
    } else {
        Ok(())
    }
}

/// The name of the source for a directory: the one that the request gives, or the name of
/// the directory, or `Local Files`.
pub open spec fn source_name(body: LocalSyncRequest, facts: DirectoryFacts) -> Seq<char> {
    match body.name {
        Some(name) => name@,
        None => match facts.name {
            Some(name) => name@,
            None => "Local Files"@,
        },
    }
}

/// The configuration of the source for a directory: the path, and the profile of the
/// request or null.
pub open spec fn local_config(path: Seq<char>, profile: Option<String>) -> JsonModel {
    JsonModel::Object(
        seq![
            ("path"@, JsonModel::Text(path)),
            (
                "profile"@,
                match profile {
                    Some(profile) => JsonModel::Text(profile@),
                    None => JsonModel::Null,
                },
            ),
        ],
    )
}

/// Keeps a source for the directory `sync_path` and starts a sync of it.
///
/// A request that names no user is not authorized; a path that does not exist is not
/// found, and one that is no directory is a malformed request. None of these changes the
/// storage. A failure of the storage is passed on; where the job cannot be kept, the
/// source stays kept.
pub fn sync_local<S: Storage>(
    orchestrator: &SyncOrchestrator,
    storage: &mut S,
    user: Option<u128>,
    body: &LocalSyncRequest,
    sync_path: String,
    facts: &DirectoryFacts,
) -> (r: Result<(LocalSyncResponse, SyncRun), AppError>)
    ensures
        user is None ==> r is Err && r->Err_0@ == unauthorized(),
        user is Some && directory_checked(sync_path@, *facts) is Err ==> r is Err && Err::<
            (),
            Failure,
        >(r->Err_0@) == directory_checked(sync_path@, *facts),
        user is None || directory_checked(sync_path@, *facts) is Err ==> final(storage).state()
            == old(storage).state(),
        user is Some && directory_checked(sync_path@, *facts) is Ok && old(storage).reliable()
            ==> r is Ok,
        final(storage).reliable() == old(storage).reliable(),
        final(storage).state().documents == old(storage).state().documents,
        r matches Ok((answer, run)) ==> {
            &&& user is Some
            &&& directory_checked(sync_path@, *facts) is Ok
            &&& answer.source_id == run@.task.source.id
            &&& answer.job_id == run@.task.job_id
            &&& answer.path@ == sync_path@
            &&& answer.message@ == "Local sync started"@
            &&& run@.stage is Scheduled
            &&& run@.task.user_id == user->0
            &&& run@.task.source == DataSource::registered(
                run@.task.source.id,
                run@.task.source.created_at,
                user->0,
                source_name(*body, *facts),
                ConnectorType::LocalFile,
                local_config(sync_path@, body.profile),
            )
            &&& final(storage).state().sources == old(storage).state().sources.insert(
                run@.task.source.id,
                run@.task.source,
            )
            &&& final(storage).state().jobs == old(storage).state().jobs.insert(
                run@.task.job_id,
                SyncJob::pending(
                    run@.task.job_id,
                    final(storage).state().jobs[run@.task.job_id].started_at,
                    run@.task.source.id,
                    user->0,
                ),
            )
        },
{
    let user_id = match authorized(user) {
        Ok(id) => id,
        Err(e) => {
            return Err(e);
        },
    };
    if !facts.exists {
        return Err(
            AppError::NotFound(
                String::from_str("Path does not exist: ").concat(sync_path.as_str()),
            ),
        );
    }
    if !facts.is_dir {
        return Err(
            AppError::BadRequest(
                String::from_str("Path is not a directory: ").concat(sync_path.as_str()),
            ),
        );
    }
    let name = match &body.name {
        Some(name) => name.clone(),
        None => match &facts.name {
            Some(name) => name.clone(),
            None => String::from_str("Local Files"),
        },
    };
    let mut members: Vec<(String, JsonValue)> = Vec::new();
    members.push((String::from_str("path"), JsonValue::text(sync_path.as_str())));
    members.push(
        (
            String::from_str("profile"),
            match &body.profile {
                Some(profile) => JsonValue::text(profile.as_str()),
                None => JsonValue::Null,
            },
        ),
    );
    assert(members.deep_view() =~= local_config(sync_path@, body.profile)->Object_0);
    let source = DataSource::new(user_id, name, ConnectorType::LocalFile, JsonValue::record(members));
    let saved = match storage.save_source(source) {
        Ok(saved) => saved,
        Err(e) => {
            return Err(e);
        },
    };
    let source_id = saved.id;
    match orchestrator.start_sync(storage, saved, user_id) {
        Ok((job, run)) => Ok(
            (
                LocalSyncResponse {
                    source_id,
                    job_id: job.id,
                    path: sync_path,
                    message: String::from_str("Local sync started"),
                },
                run,
            ),
        ),
        Err(e) => Err(e),
    }
}

} // verus!
