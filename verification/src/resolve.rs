//! Where the bundled files are looked for, and what is done to the server
//! binary's permissions before it is started.

use crate::platform::{sidecar_name, sidecar_name_text, Platform};
use vstd::prelude::*;

verus! {

/// File name of the database, below the application's data directory.
pub const DATABASE_FILE: &'static str = "bord.db";

/// File name of the database schema.
pub const SCHEMA_FILE: &'static str = "schema.sql";

/// Folder below the resource directory that may hold bundled files.
pub const RESOURCES_FOLDER: &'static str = "resources";

/// Folder below the resource directory that may hold the built server.
pub const DIST_FOLDER: &'static str = "dist";

/// Permission bits that let anyone execute a file.
pub const EXECUTE_BITS: u32 = 0o111;

/// Permission bits added to a file that nobody may execute.
pub const EXECUTABLE_MODE: u32 = 0o755;

/// A directory known to the application from which a search starts.
#[derive(Clone, Copy, Debug, PartialEq, Eq, Structural)]
pub enum Root {
    /// The directory that holds the application's own executable.
    ExecutableDir,
    /// The directory of the application's bundled resources.
    ResourceDir,
}

/// A place where a bundled file may be: `file`, directly in `root` or in
/// the folder `folder` below it.
#[derive(Clone, Copy, Debug, PartialEq, Eq)]
pub struct Candidate {
    pub root: Root,
    pub folder: Option<&'static str>,
    pub file: &'static str,
}

/// A [`Candidate`] as plain mathematical data.
pub struct CandidateView {
    pub root: Root,
    pub folder: Option<Seq<char>>,
    pub file: Seq<char>,
}

impl View for Candidate {
    type V = CandidateView;

    open spec fn view(&self) -> CandidateView {
        CandidateView {
            root: self.root,
            folder: match self.folder {
                Some(f) => Some(f@),
                None => None,
            },
            file: self.file@,
        }
    }
}

/// The places searched for `file` below the resource directory, in order:
/// the directory itself, then each of `folders`.
pub open spec fn below_resources(file: Seq<char>, folders: Seq<Seq<char>>) -> Seq<CandidateView> {
    seq![CandidateView { root: Root::ResourceDir, folder: None, file }] + folders.map_values(
        |f: Seq<char>| CandidateView { root: Root::ResourceDir, folder: Some(f), file },
    )
}

/// The places searched for the server binary, in order: beside the
/// application's executable, where that directory is known; then, where the
/// resource directory is known, in it and in its folders `resources` and
/// `dist`.
pub open spec fn server_places(
    platform: Platform,
    executable_dir_known: bool,
    resource_dir_known: bool,
) -> Seq<CandidateView> {
    let name = sidecar_name_text(platform);
    let beside = if executable_dir_known {
        seq![CandidateView { root: Root::ExecutableDir, folder: None, file: name }]
    } else {
        Seq::empty()
    };
    let bundled = if resource_dir_known {
        below_resources(name, seq![RESOURCES_FOLDER@, DIST_FOLDER@])
    } else {
        Seq::empty()
    };
    beside + bundled
}

/// The places searched for the schema file, in order: where the resource
/// directory is known, in it and in its folder `resources`.
pub open spec fn schema_places(resource_dir_known: bool) -> Seq<CandidateView> {
    if resource_dir_known {
        below_resources(SCHEMA_FILE@, seq![RESOURCES_FOLDER@])
    } else {
        Seq::empty()
    }
}

/// Views of a list of candidates.
pub open spec fn views(candidates: Seq<Candidate>) -> Seq<CandidateView> {
    candidates.map_values(|c: Candidate| c@)
}

/// Lists the places to search for the server binary, in order.
pub fn server_candidates(
    platform: Platform,
    executable_dir_known: bool,
    resource_dir_known: bool,
) -> (candidates: Vec<Candidate>)
    ensures
        views(candidates@) == server_places(platform, executable_dir_known, resource_dir_known),
{
    let name = sidecar_name(platform);
    let mut candidates: Vec<Candidate> = Vec::new();
    if executable_dir_known {
        candidates.push(Candidate { root: Root::ExecutableDir, folder: None, file: name });
    }
    if resource_dir_known {
        candidates.push(Candidate { root: Root::ResourceDir, folder: None, file: name });
        candidates.push(
            Candidate { root: Root::ResourceDir, folder: Some(RESOURCES_FOLDER), file: name },
        );
        candidates.push(
            Candidate { root: Root::ResourceDir, folder: Some(DIST_FOLDER), file: name },
        );
    }
    assert(views(candidates@) =~= server_places(
        platform,
        executable_dir_known,
        resource_dir_known,
    ));
    candidates
}

/// Lists the places to search for the schema file, in order.
pub fn schema_candidates(resource_dir_known: bool) -> (candidates: Vec<Candidate>)
    ensures
        views(candidates@) == schema_places(resource_dir_known),
{
    let mut candidates: Vec<Candidate> = Vec::new();
    if resource_dir_known {
        candidates.push(Candidate { root: Root::ResourceDir, folder: None, file: SCHEMA_FILE });
        candidates.push(
            Candidate {
                root: Root::ResourceDir,
                folder: Some(RESOURCES_FOLDER),
                file: SCHEMA_FILE,
            },
        );
    }
    assert(views(candidates@) =~= schema_places(resource_dir_known));
    candidates
}

/// Whether `found` is the first place that exists, given for each place in
/// order whether it exists.
pub open spec fn is_first_existing(exists: Seq<bool>, found: Option<usize>) -> bool {
    match found {
        Some(i) => i < exists.len() && exists[i as int] && forall|j: int|
            0 <= j < i ==> !exists[j],
        None => forall|j: int| 0 <= j < exists.len() ==> !exists[j],
    }
}

/// Picks the first place that exists: `exists` says of each candidate, in
/// order, whether a file is there. `None` if none is.
pub fn first_existing(exists: &Vec<bool>) -> (found: Option<usize>)
    ensures
        is_first_existing(exists@, found),
{
    let mut i: usize = 0;
    while i < exists.len()
        invariant
            i <= exists.len(),
            forall|j: int| 0 <= j < i ==> !exists[j],
        decreases exists.len() - i,
    {
        if exists[i] {
            return Some(i);
        }
        i += 1;
    }
    None
}

/// The permission bits to give the server binary: none to change if someone
/// may already execute it, otherwise its bits with `rwxr-xr-x` added.
pub open spec fn repaired_mode(mode: u32) -> Option<u32> {
    if mode & EXECUTE_BITS == 0 {
        Some(mode | EXECUTABLE_MODE)
    } else {
        None
    }
}

/// Decides whether the server binary's permission bits must change before
/// it can be started, and to what.
pub fn executable_mode(mode: u32) -> (change: Option<u32>)
    ensures
        change == repaired_mode(mode),
{
    if mode & EXECUTE_BITS == 0 {
        Some(mode | EXECUTABLE_MODE)
    } else {
        None
    }
}

/// A repaired file can be executed by everyone and keeps every permission
/// it had; a second repair finds nothing to do.
pub proof fn law_repaired_mode_is_executable(mode: u32)
    ensures
        repaired_mode(mode) matches Some(fixed) ==> fixed & EXECUTE_BITS == EXECUTE_BITS && fixed
            & mode == mode && repaired_mode(fixed) is None,
{
    assert((mode | 0o755u32) & 0o111u32 == 0o111u32) by (bit_vector);
    assert((mode | 0o755u32) & mode == mode) by (bit_vector);
}

} // verus!
