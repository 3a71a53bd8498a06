use bord_sidecar::platform::Platform;
use bord_sidecar::resolve::{
    executable_mode, first_existing, schema_candidates, server_candidates, Candidate, Root,
    DATABASE_FILE,
};

#[test]
fn server_is_sought_beside_the_executable_first() {
    let name = "bord-server";
    assert_eq!(
        server_candidates(Platform::Posix, true, true),
        vec![
            Candidate { root: Root::ExecutableDir, folder: None, file: name },
            Candidate { root: Root::ResourceDir, folder: None, file: name },
            Candidate { root: Root::ResourceDir, folder: Some("resources"), file: name },
            Candidate { root: Root::ResourceDir, folder: Some("dist"), file: name },
        ]
    );
}

#[test]
fn server_candidates_follow_the_known_directories() {
    let name = "bord-server.exe";
    assert_eq!(
        server_candidates(Platform::Windows, true, false),
        vec![Candidate { root: Root::ExecutableDir, folder: None, file: name }]
    );
    assert_eq!(
        server_candidates(Platform::Windows, false, true),
        vec![
            Candidate { root: Root::ResourceDir, folder: None, file: name },
            Candidate { root: Root::ResourceDir, folder: Some("resources"), file: name },
            Candidate { root: Root::ResourceDir, folder: Some("dist"), file: name },
        ]
    );
    assert_eq!(server_candidates(Platform::Windows, false, false), vec![]);
}

#[test]
fn schema_is_sought_in_the_resources() {
    assert_eq!(
        schema_candidates(true),
        vec![
            Candidate { root: Root::ResourceDir, folder: None, file: "schema.sql" },
            Candidate { root: Root::ResourceDir, folder: Some("resources"), file: "schema.sql" },
        ]
    );
    assert_eq!(schema_candidates(false), vec![]);
}

#[test]
fn first_existing_takes_the_earliest() {
    assert_eq!(first_existing(&vec![]), None);
    assert_eq!(first_existing(&vec![false, false, false]), None);
    assert_eq!(first_existing(&vec![true]), Some(0));
    assert_eq!(first_existing(&vec![false, true, true]), Some(1));
    assert_eq!(first_existing(&vec![false, false, false, true]), Some(3));
}

#[test]
fn file_nobody_may_execute_is_repaired() {
    assert_eq!(executable_mode(0o644), Some(0o755));
    assert_eq!(executable_mode(0o600), Some(0o755));
    assert_eq!(executable_mode(0), Some(0o755));
    assert_eq!(executable_mode(0o100644), Some(0o100755));
    assert_eq!(executable_mode(0o4266), Some(0o4777));
}

#[test]
fn file_someone_may_execute_is_left_alone() {
    assert_eq!(executable_mode(0o755), None);
    assert_eq!(executable_mode(0o100), None);
    assert_eq!(executable_mode(0o010), None);
    assert_eq!(executable_mode(0o001), None);
    assert_eq!(executable_mode(0o100700), None);
}

#[test]
fn database_file_name() {
    assert_eq!(DATABASE_FILE, "bord.db");
}
