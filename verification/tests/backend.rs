use lockbook::backend::{
    api_url, AccountExportError, CoreError, CreateAccountError, DbState, FileMeta, GetAccountError,
    InitDbStep, LbCore, LbSyncMsg, SyncCommand, SyncPhase, WorkCalculated, WorkUnit,
};

fn id(n: u8) -> [u8; 16] {
    let mut id = [0u8; 16];
    id[15] = n;
    id
}

fn meta(n: u8, name: &str, parent: u8) -> FileMeta {
    FileMeta { id: id(n), name: name.to_string(), parent: id(parent) }
}

#[test]
fn api_url_from_environment() {
    assert_eq!(api_url(Some("http://localhost:8000".to_string())), "http://localhost:8000");
    assert_eq!(api_url(None), "http://qa.lockbook.app:8000");
}

#[test]
fn lb_core_keeps_its_path() {
    assert_eq!(LbCore::new("/home/u/.lockbook").writeable_path(), "/home/u/.lockbook");
}

#[test]
fn init_db_by_state() {
    let core = LbCore::new("/tmp");
    assert!(matches!(core.init_db(DbState::ReadyToUse), InitDbStep::Ready));
    assert!(matches!(core.init_db(DbState::Empty), InitDbStep::Ready));
    assert!(matches!(core.init_db(DbState::MigrationRequired), InitDbStep::Migrate));
    match core.init_db(DbState::StateRequiresClearing) {
        InitDbStep::Fail(m) => {
            assert_eq!(m, "Your local state cannot be migrated, please re-sync with a fresh client.")
        }
        other => panic!("unexpected step {:?}", other),
    }
}

#[test]
fn create_account_messages() {
    let core = LbCore::new("/tmp");
    assert_eq!(core.create_account("alice", Ok(())), Ok(()));
    let err = |e| core.create_account("Al ice", Err(CoreError::UiError(e))).unwrap_err();
    assert_eq!(err(CreateAccountError::UsernameTaken), "Username taken.");
    assert_eq!(err(CreateAccountError::InvalidUsername), "Username 'Al ice' is not valid (a-z || 0-9)");
    assert_eq!(err(CreateAccountError::CouldNotReachServer), "Could not reach server.");
    assert_eq!(err(CreateAccountError::AccountExistsAlready), "An account already exists.");
    assert_eq!(err(CreateAccountError::ClientUpdateRequired), "Client upgrade required.");
}

#[test]
fn import_export_and_account_outcomes() {
    let core = LbCore::new("/tmp");
    assert_eq!(core.import_account(Ok(())), Ok(()));
    assert_eq!(core.import_account(Err("AccountStringCorrupted".to_string())), Err("error importing: AccountStringCorrupted".to_string()));
    assert_eq!(core.export_account(Ok("key".to_string())), Ok("key".to_string()));
    assert_eq!(
        core.export_account(Err(CoreError::UiError(AccountExportError::NoAccount))),
        Err("Unable to load account".to_string())
    );
    assert_eq!(core.export_account(Err(CoreError::Unexpected("disk".to_string()))), Err("disk".to_string()));
    assert_eq!(core.account(Ok(5)), Ok(Some(5)));
    assert_eq!(core.account::<u8>(Err(CoreError::UiError(GetAccountError::NoAccount))), Ok(None));
    assert_eq!(
        core.account::<u8>(Err(CoreError::Unexpected("x".to_string()))),
        Err("Unable to load account.".to_string())
    );
}

#[test]
fn prefixed_paths() {
    let core = LbCore::new("/tmp");
    assert_eq!(core.create_file_at_path("alice", "notes/todo.md"), "alice/notes/todo.md");
    assert_eq!(core.file_by_path("bob", "a.md"), "bob/a.md");
}

#[test]
fn full_path_of_the_root_is_a_slash() {
    let core = LbCore::new("/tmp");
    let walk = core.full_path_for(&meta(1, "alice", 1), Some(id(1)));
    assert_eq!(walk.path(), "/");
    assert_eq!(walk.pending(), None);
}

#[test]
fn full_path_walks_up_to_the_root() {
    let core = LbCore::new("/tmp");
    let mut walk = core.full_path_for(&meta(4, "c.md", 3), Some(id(1)));
    assert_eq!(walk.path(), "/c.md");
    assert_eq!(walk.pending(), Some(id(3)));
    walk.found(Some(meta(3, "b", 2)));
    assert_eq!(walk.path(), "/b/c.md");
    assert_eq!(walk.pending(), Some(id(2)));
    walk.found(Some(meta(2, "a", 1)));
    assert_eq!(walk.pending(), Some(id(1)));
    walk.found(Some(meta(1, "alice", 1)));
    assert_eq!(walk.pending(), None);
    assert_eq!(walk.path(), "/a/b/c.md");
}

#[test]
fn full_path_stops_when_a_parent_is_missing() {
    let core = LbCore::new("/tmp");
    let mut walk = core.full_path_for(&meta(4, "c.md", 3), None);
    walk.found(None);
    assert_eq!(walk.pending(), None);
    assert_eq!(walk.path(), "/c.md");
}

#[test]
fn sync_pushes_and_pulls_then_records_the_time() {
    let core = LbCore::new("/tmp");
    let (mut sync, step) = core.sync();
    assert!(step.message.is_none());
    assert!(matches!(step.command, SyncCommand::CalculateWork));

    let work = WorkCalculated {
        work_units: vec![
            WorkUnit::LocalChange { metadata: meta(2, "a.md", 1) },
            WorkUnit::ServerChange { metadata: meta(3, "b.md", 1) },
        ],
        most_recent_update_from_server: 10,
    };
    let step = sync.work_calculated(Ok(work));
    assert!(matches!(step.command, SyncCommand::ComputePath(0)));

    let step = sync.path_computed("/a.md");
    assert!(matches!(&step.message, Some(LbSyncMsg::Doing(m)) if m == "Pushing: /a.md"));
    assert!(matches!(step.command, SyncCommand::ExecuteWork(0)));
    let step = sync.work_executed(Ok(()));
    assert!(step.message.is_none());
    assert!(matches!(step.command, SyncCommand::ComputePath(1)));

    let step = sync.path_computed("/b.md");
    assert!(matches!(&step.message, Some(LbSyncMsg::Doing(m)) if m == "Pulling: /b.md"));
    let step = sync.work_executed(Err("ServerUnreachable".to_string()));
    assert!(matches!(&step.message, Some(LbSyncMsg::Error(m)) if m == "Pulling: /b.md: ServerUnreachable"));
    assert!(matches!(step.command, SyncCommand::CalculateWork));

    let step = sync.work_calculated(Ok(WorkCalculated { work_units: vec![], most_recent_update_from_server: 25 }));
    assert!(matches!(step.command, SyncCommand::SetLastSynced(25)));
    let step = sync.last_synced_set(Ok(()));
    assert!(matches!(step.message, Some(LbSyncMsg::Done)));
    assert!(matches!(step.command, SyncCommand::Finish(Ok(()))));
    assert_eq!(sync.phase(), SyncPhase::Finished);
}

#[test]
fn sync_fails_when_work_cannot_be_calculated() {
    let core = LbCore::new("/tmp");
    let (mut sync, _) = core.sync();
    let step = sync.work_calculated(Err("NoAccount".to_string()));
    assert!(step.message.is_none());
    assert!(matches!(step.command, SyncCommand::Finish(Err(ref e)) if e == "NoAccount"));
}

#[test]
fn sync_fails_when_the_time_cannot_be_recorded() {
    let core = LbCore::new("/tmp");
    let (mut sync, _) = core.sync();
    sync.work_calculated(Ok(WorkCalculated { work_units: vec![], most_recent_update_from_server: 0 }));
    let step = sync.last_synced_set(Err("Io".to_string()));
    assert!(step.message.is_none());
    assert!(matches!(step.command, SyncCommand::Finish(Err(ref e)) if e == "Io"));
}
