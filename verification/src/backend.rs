use vstd::prelude::*;

verus! {

/// The address of the Lockbook server used when `LOCKBOOK_API_URL` is unset.
pub open spec fn default_api_url() -> Seq<char> {
    "http://qa.lockbook.app:8000"@
}

/// The address of the Lockbook server: the value of the `LOCKBOOK_API_URL`
/// environment variable when it is set (`env_value`), the QA server otherwise.
pub fn api_url(env_value: Option<String>) -> (url: String)
    ensures
        env_value matches Some(v) ==> url@ == v@,
        env_value is None ==> url@ == default_api_url(),
{
    match env_value {
        Some(path) => path,
        None => String::from_str("http://qa.lockbook.app:8000"),
    }
}

/// A message the backend sends to the user interface while it syncs.
#[derive(Debug)]
pub enum LbSyncMsg {
    /// The backend is doing what the text says.
    Doing(String),
    /// Something failed, as the text says.
    Error(String),
    /// The sync is complete.
    Done,
}

/// [`LbSyncMsg`] with its texts as sequences.
pub enum LbSyncMsgView {
    Doing(Seq<char>),
    Error(Seq<char>),
    Done,
}

impl View for LbSyncMsg {
    type V = LbSyncMsgView;

    open spec fn view(&self) -> LbSyncMsgView {
        match self {
            LbSyncMsg::Doing(s) => LbSyncMsgView::Doing(s@),
            LbSyncMsg::Error(s) => LbSyncMsgView::Error(s@),
            LbSyncMsg::Done => LbSyncMsgView::Done,
        }
    }
}

/// A file's id: the 16 bytes of its UUID.
pub type FileId = [u8; 16];

/// What the backend reads of a file's metadata.
#[derive(Debug)]
pub struct FileMeta {
    pub id: FileId,
    pub name: String,
    pub parent: FileId,
}

/// The state of the local database.
#[derive(Clone, Copy, Debug, PartialEq, Eq, Structural)]
pub enum DbState {
    ReadyToUse,
    Empty,
    MigrationRequired,
    StateRequiresClearing,
}

/// What opening the local database comes to.
#[derive(Debug)]
pub enum InitDbStep {
    /// The database can be used as it is.
    Ready,
    /// The database must be migrated first; the result of the migration is
    /// the result of opening it.
    Migrate,
    /// The database cannot be used, for the reason given.
    Fail(String),
}

/// An error of the core library: one the user interface explains, or an
/// unexpected one with its description.
#[derive(Debug)]
pub enum CoreError<E> {
    UiError(E),
    Unexpected(String),
}

/// Why an account could not be created.
#[derive(Clone, Copy, Debug, PartialEq, Eq, Structural)]
pub enum CreateAccountError {
    UsernameTaken,
    InvalidUsername,
    CouldNotReachServer,
    AccountExistsAlready,
    ClientUpdateRequired,
}

/// Why an account could not be exported.
#[derive(Clone, Copy, Debug, PartialEq, Eq, Structural)]
pub enum AccountExportError {
    NoAccount,
}

/// Why an account could not be loaded.
#[derive(Clone, Copy, Debug, PartialEq, Eq, Structural)]
pub enum GetAccountError {
    NoAccount,
}

/// The message shown when creating an account failed.
pub open spec fn create_account_message(error: CreateAccountError, username: Seq<char>) -> Seq<char> {
    match error {
        CreateAccountError::UsernameTaken => "Username taken."@,
        CreateAccountError::InvalidUsername => "Username '"@ + username
            + "' is not valid (a-z || 0-9)"@,
        CreateAccountError::CouldNotReachServer => "Could not reach server."@,
        CreateAccountError::AccountExistsAlready => "An account already exists."@,
        CreateAccountError::ClientUpdateRequired => "Client upgrade required."@,
    }
}

/// A path below a root folder: the root's name, a slash, then `path`.
pub open spec fn prefixed_path(prefix: Seq<char>, path: Seq<char>) -> Seq<char> {
    prefix + "/"@ + path
}

/// The Linux client's handle on the core library: where its data lives.
pub struct LbCore {
    writeable_path: String,
}

impl View for LbCore {
    /// The directory the core library keeps its data in.
    type V = Seq<char>;

    closed spec fn view(&self) -> Seq<char> {
        self.writeable_path@
    }
}

fn concat2(a: &str, b: &str) -> (s: String)
    ensures
        s@ == a@ + b@,
{
    let mut s = String::from_str(a);
    s.append(b);
    s
}

fn concat3(a: &str, b: &str, c: &str) -> (s: String)
    ensures
        s@ == a@ + b@ + c@,
{
    let mut s = String::from_str(a);
    s.append(b);
    s.append(c);
    s
}

/// Whether two file ids are the same.
fn same_id(a: &FileId, b: &FileId) -> (same: bool)
    ensures
        same == (a@ == b@),
{
    let mut i: usize = 0;
    while i < 16
        invariant
            i <= 16,
            forall|j: int| 0 <= j < i ==> a@[j] == b@[j],
        decreases 16 - i,
    {
        if a[i] != b[i] {
            return false;
        }
        i = i + 1;
    }
    assert(a@ =~= b@);
    true
}

/// The path of a file below the root, from the names of the files on the way
/// up to the root: the file's own name first, each name after a slash, the
/// last name visited leftmost.
pub open spec fn path_of(names: Seq<Seq<char>>) -> Seq<char>
    decreases names.len(),
{
    if names.len() == 0 {
        Seq::empty()
    } else {
        "/"@ + names.last() + path_of(names.drop_last())
    }
}

/// The walk up from a file to the root folder that spells the file's path.
/// Each step needs the parent of the file last visited, looked up by id.
pub struct PathWalk {
    root_id: FileId,
    path: String,
    pending: Option<FileId>,
    names: Ghost<Seq<Seq<char>>>,
}

/// A path walk as values.
pub struct PathWalkView {
    /// The id the walk stops at.
    pub root_id: Seq<u8>,
    /// The path spelled so far.
    pub path: Seq<char>,
    /// The id of the file to look up next; none once the walk is over.
    pub pending: Option<Seq<u8>>,
    /// The names of the files visited below the root, in the order visited.
    pub names: Seq<Seq<char>>,
}

impl View for PathWalk {
    type V = PathWalkView;

    closed spec fn view(&self) -> PathWalkView {
        PathWalkView {
            root_id: self.root_id@,
            path: self.path@,
            pending: match self.pending {
                Some(id) => Some(id@),
                None => None,
            },
            names: self.names@,
        }
    }
}

impl PathWalk {
    /// The path spelled so far; the file's full path once the walk is over.
    pub fn path(&self) -> (path: &String)
        ensures
            path@ == self@.path,
    {
        &self.path
    }

    /// The id of the file whose metadata the walk needs next, if it is not
    /// over.
    pub fn pending(&self) -> (id: Option<FileId>)
        ensures
            self@.pending matches Some(p) ==> (id matches Some(i) && i@ == p),
            self@.pending is None ==> id is None,
    {
        self.pending
    }

    /// Takes one step up with the looked-up parent (`None`: it could not be
    /// looked up, which ends the walk). Reaching the root ends the walk;
    /// another folder puts its name in front of the path.
    pub fn found(&mut self, parent: Option<FileMeta>)
        requires
            old(self)@.pending is Some,
        ensures
            final(self)@.root_id == old(self)@.root_id,
            parent is None ==> final(self)@ == (PathWalkView { pending: None, ..old(self)@ }),
            parent is Some && parent->0.id@ == old(self)@.root_id ==> final(self)@ == (PathWalkView {
                pending: None,
                ..old(self)@
            }),
            parent is Some && parent->0.id@ != old(self)@.root_id ==> final(self)@ == (PathWalkView {
                root_id: old(self)@.root_id,
                path: "/"@ + parent->0.name@ + old(self)@.path,
                pending: Some(parent->0.parent@),
                names: old(self)@.names.push(parent->0.name@),
            }),
            old(self)@.path == path_of(old(self)@.names) ==> final(self)@.path == path_of(
                final(self)@.names,
            ),
    {
        match parent {
            None => {
                self.pending = None;
            },
            Some(p) => {
                if same_id(&p.id, &self.root_id) {
                    self.pending = None;
                } else {
                    proof {
                        lemma_path_step(self.names@, p.name@);
                    }
                    self.path = concat3("/", p.name.as_str(), self.path.as_str());
                    self.pending = Some(p.parent);
                    self.names = Ghost(self.names@.push(p.name@));
                }
            },
        }
    }
}

/// Spelling the path of a file keeps it the names visited so far, joined.
pub proof fn lemma_path_step(names: Seq<Seq<char>>, name: Seq<char>)
    ensures
        path_of(names.push(name)) == "/"@ + name + path_of(names),
        path_of(seq![name]) == "/"@ + name,
{
    assert(names.push(name).drop_last() =~= names);
    assert(seq![name].drop_last() =~= Seq::<Seq<char>>::empty());
    assert(path_of(Seq::<Seq<char>>::empty()) =~= Seq::<char>::empty());
}

/// A change that syncing carries out: one made here, pushed to the server, or
/// one made on the server, pulled from it.
#[derive(Debug)]
pub enum WorkUnit {
    LocalChange { metadata: FileMeta },
    ServerChange { metadata: FileMeta },
}

/// What syncing has left to do, as the core library calculated it.
#[derive(Debug)]
pub struct WorkCalculated {
    pub work_units: Vec<WorkUnit>,
    pub most_recent_update_from_server: u64,
}

/// Where a sync is.
#[derive(Clone, Copy, Debug, PartialEq, Eq, Structural)]
pub enum SyncPhase {
    /// Waiting for the work that is left.
    CalculatingWork,
    /// Waiting for the path of the current work unit's file.
    ComputingPath,
    /// Waiting for the current work unit to be carried out.
    ExecutingWork,
    /// Waiting for the time of the last sync to be recorded.
    SettingLastSynced,
    /// Over.
    Finished,
}

/// What the client is to do next for a sync.
#[derive(Debug)]
pub enum SyncCommand {
    /// Calculate the work that is left.
    CalculateWork,
    /// Spell the path of the file of the `i`-th work unit.
    ComputePath(usize),
    /// Carry out the `i`-th work unit.
    ExecuteWork(usize),
    /// Record the time of the most recent update from the server.
    SetLastSynced(u64),
    /// The sync is over, with this result.
    Finish(Result<(), String>),
}

/// A message to send to the user interface first (if any), then a command.
#[derive(Debug)]
pub struct SyncStep {
    pub message: Option<LbSyncMsg>,
    pub command: SyncCommand,
}

/// A sync: it carries out each calculated work unit, reporting each, and
/// calculates the work again until none is left; then it records the time
/// of the last update from the server.
pub struct SyncMachine {
    phase: SyncPhase,
    local: Vec<bool>,
    index: usize,
    action: String,
}

/// A sync as values.
pub struct SyncView {
    pub phase: SyncPhase,
    /// For each work unit of the current round: whether it is a local change.
    pub local: Seq<bool>,
    /// The work unit at hand.
    pub index: nat,
    /// The text reporting the work unit at hand.
    pub action: Seq<char>,
}

impl View for SyncMachine {
    type V = SyncView;

    closed spec fn view(&self) -> SyncView {
        SyncView {
            phase: self.phase,
            local: self.local@,
            index: self.index as nat,
            action: self.action@,
        }
    }
}

/// How a work unit is reported: local changes are pushed, server changes
/// pulled.
pub open spec fn work_prefix(local: bool) -> Seq<char> {
    if local {
        "Pushing"@
    } else {
        "Pulling"@
    }
}

/// The text reporting a work unit on the file at `path`.
pub open spec fn work_action(local: bool, path: Seq<char>) -> Seq<char> {
    work_prefix(local) + ": "@ + path
}

/// What a sync's state must be: the work unit at hand is one of the round's.
pub open spec fn sync_wf(s: SyncView) -> bool {
    (s.phase == SyncPhase::ComputingPath || s.phase == SyncPhase::ExecutingWork) ==> s.index
        < s.local.len()
}

impl SyncMachine {
    /// Where the sync is.
    pub fn phase(&self) -> (phase: SyncPhase)
        ensures
            phase == self@.phase,
    {
        self.phase
    }

    /// Once the work that is left was calculated (or failed to be, with its
    /// error as debug text): ends the sync on an error, records the last sync
    /// when no work is left, and otherwise turns to the first work unit.
    pub fn work_calculated(&mut self, result: Result<WorkCalculated, String>) -> (step: SyncStep)
        requires
            old(self)@.phase == SyncPhase::CalculatingWork,
        ensures
            sync_wf(final(self)@),
            step.message is None,
            result matches Err(e) ==> final(self)@ == (SyncView { phase: SyncPhase::Finished, ..old(self)@ })
                && (step.command matches SyncCommand::Finish(Err(m)) && m@ == e@),
            result is Ok && result->Ok_0.work_units.len() == 0 ==> final(self)@ == (SyncView {
                phase: SyncPhase::SettingLastSynced,
                ..old(self)@
            }) && (step.command matches SyncCommand::SetLastSynced(t)
                && t == result->Ok_0.most_recent_update_from_server),
            result is Ok && result->Ok_0.work_units.len() > 0 ==> {
                &&& final(self)@.phase == SyncPhase::ComputingPath
                &&& final(self)@.index == 0
                &&& final(self)@.action == old(self)@.action
                &&& final(self)@.local.len() == result->Ok_0.work_units.len()
                &&& forall|i: int|
                    0 <= i < final(self)@.local.len() ==> #[trigger] final(self)@.local[i] == (
                    result->Ok_0.work_units[i] is LocalChange)
                &&& step.command matches SyncCommand::ComputePath(i) && i == 0
            },
    {
        match result {
            Err(e) => {
                self.phase = SyncPhase::Finished;
                SyncStep { message: None, command: SyncCommand::Finish(Err(e)) }
            },
            Ok(work) => {
                if work.work_units.len() == 0 {
                    self.phase = SyncPhase::SettingLastSynced;
                    return SyncStep {
                        message: None,
                        command: SyncCommand::SetLastSynced(work.most_recent_update_from_server),
                    };
                }
                let mut local: Vec<bool> = Vec::new();
                let mut i: usize = 0;
                while i < work.work_units.len()
                    invariant
                        i <= work.work_units.len(),
                        local.len() == i,
                        forall|j: int| 0 <= j < i ==> #[trigger] local[j] == (work.work_units[j] is LocalChange),
                    decreases work.work_units.len() - i,
                {
                    let is_local = match &work.work_units[i] {
                        WorkUnit::LocalChange { .. } => true,
                        WorkUnit::ServerChange { .. } => false,
                    };
                    local.push(is_local);
                    i = i + 1;
                }
                self.local = local;
                self.index = 0;
                self.phase = SyncPhase::ComputingPath;
                SyncStep { message: None, command: SyncCommand::ComputePath(0) }
            },
        }
    }

    /// Once the path of the current work unit's file is spelled: reports the
    /// work unit ("Pushing: path" or "Pulling: path") and carries it out.
    pub fn path_computed(&mut self, path: &str) -> (step: SyncStep)
        requires
            old(self)@.phase == SyncPhase::ComputingPath,
            sync_wf(old(self)@),
        ensures
            sync_wf(final(self)@),
            final(self)@ == (SyncView {
                phase: SyncPhase::ExecutingWork,
                action: work_action(old(self)@.local[old(self)@.index as int], path@),
                ..old(self)@
            }),
            step.message matches Some(LbSyncMsg::Doing(m)) && m@ == final(self)@.action,
            step.command matches SyncCommand::ExecuteWork(i) && i == old(self)@.index,
    {
        let prefix = if self.local[self.index] {
            "Pushing"
        } else {
            "Pulling"
        };
        let action = concat3(prefix, ": ", path);
        let message = action.clone();
        self.action = action;
        self.phase = SyncPhase::ExecutingWork;
        SyncStep { message: Some(LbSyncMsg::Doing(message)), command: SyncCommand::ExecuteWork(self.index) }
    }

    /// Once the current work unit was carried out (or failed, with its error
    /// as debug text): reports a failure, then turns to the next work unit,
    /// or calculates the work again after the last one.
    pub fn work_executed(&mut self, result: Result<(), String>) -> (step: SyncStep)
        requires
            old(self)@.phase == SyncPhase::ExecutingWork,
            sync_wf(old(self)@),
        ensures
            sync_wf(final(self)@),
            final(self)@.local == old(self)@.local,
            final(self)@.action == old(self)@.action,
            result is Ok ==> step.message is None,
            result matches Err(e) ==> (step.message matches Some(LbSyncMsg::Error(m)) && m@
                == old(self)@.action + ": "@ + e@),
            old(self)@.index + 1 < old(self)@.local.len() ==> {
                &&& final(self)@.phase == SyncPhase::ComputingPath
                &&& final(self)@.index == old(self)@.index + 1
                &&& step.command matches SyncCommand::ComputePath(i) && i == old(self)@.index + 1
            },
            old(self)@.index + 1 >= old(self)@.local.len() ==> {
                &&& final(self)@.phase == SyncPhase::CalculatingWork
                &&& step.command is CalculateWork
            },
    {
        let message = match result {
            Ok(()) => None,
            Err(e) => Some(LbSyncMsg::Error(concat3(self.action.as_str(), ": ", e.as_str()))),
        };
        assert(self.index < self.local.len());
        if self.index + 1 < self.local.len() {
            self.index = self.index + 1;
            self.phase = SyncPhase::ComputingPath;
            SyncStep { message, command: SyncCommand::ComputePath(self.index) }
        } else {
            self.phase = SyncPhase::CalculatingWork;
            SyncStep { message, command: SyncCommand::CalculateWork }
        }
    }

    /// Once the time of the last sync was recorded (or failed to be, with its
    /// error as debug text): reports that the sync is done, and ends it.
    pub fn last_synced_set(&mut self, result: Result<(), String>) -> (step: SyncStep)
        requires
            old(self)@.phase == SyncPhase::SettingLastSynced,
        ensures
            sync_wf(final(self)@),
            final(self)@ == (SyncView { phase: SyncPhase::Finished, ..old(self)@ }),
            result is Ok ==> (step.message matches Some(LbSyncMsg::Done)) && (step.command matches SyncCommand::Finish(Ok(()))),
            result matches Err(e) ==> step.message is None && (step.command matches SyncCommand::Finish(Err(m)) && m@ == e@),
    {
        self.phase = SyncPhase::Finished;
        match result {
            Ok(()) => SyncStep { message: Some(LbSyncMsg::Done), command: SyncCommand::Finish(Ok(())) },
            Err(e) => SyncStep { message: None, command: SyncCommand::Finish(Err(e)) },
        }
    }
}

impl LbCore {
    /// A handle whose data lives in `cfg_path`.
    pub fn new(cfg_path: &str) -> (core: LbCore)
        ensures
            core@ == cfg_path@,
    {
        LbCore { writeable_path: String::from_str(cfg_path) }
    }

    /// The directory the core library keeps its data in.
    pub fn writeable_path(&self) -> (path: &str)
        ensures
            path@ == self@,
    {
        self.writeable_path.as_str()
    }

    /// What to do with the local database in `state`: use it as it is,
    /// migrate it, or give up because it cannot be migrated.
    pub fn init_db(&self, state: DbState) -> (step: InitDbStep)
        ensures
            (state == DbState::ReadyToUse || state == DbState::Empty) ==> step is Ready,
            state == DbState::MigrationRequired ==> step is Migrate,
            state == DbState::StateRequiresClearing ==> (step matches InitDbStep::Fail(m)
                && m@ == "Your local state cannot be migrated, please re-sync with a fresh client."@),
    {
        match state {
            DbState::ReadyToUse => InitDbStep::Ready,
            DbState::Empty => InitDbStep::Ready,
            DbState::MigrationRequired => InitDbStep::Migrate,
            DbState::StateRequiresClearing => InitDbStep::Fail(
                String::from_str(
                    "Your local state cannot be migrated, please re-sync with a fresh client.",
                ),
            ),
        }
    }

    /// The outcome of creating an account for `username`, from what the core
    /// library answered. An unexpected error of the core library is not an
    /// outcome: the client stops on it.
    pub fn create_account(&self, username: &str, result: Result<(), CoreError<CreateAccountError>>) -> (outcome:
        Result<(), String>)
        requires
            !(result matches Err(CoreError::Unexpected(_))),
        ensures
            result is Ok ==> outcome is Ok,
            result matches Err(CoreError::UiError(e)) ==> (outcome matches Err(m)
                && m@ == create_account_message(e, username@)),
    {
        match result {
            Ok(_) => Ok(()),
            Err(CoreError::UiError(err)) => match err {
                CreateAccountError::UsernameTaken => Err(String::from_str("Username taken.")),
                CreateAccountError::InvalidUsername => Err(
                    concat3("Username '", username, "' is not valid (a-z || 0-9)"),
                ),
                CreateAccountError::CouldNotReachServer => Err(
                    String::from_str("Could not reach server."),
                ),
                CreateAccountError::AccountExistsAlready => Err(
                    String::from_str("An account already exists."),
                ),
                CreateAccountError::ClientUpdateRequired => Err(
                    String::from_str("Client upgrade required."),
                ),
            },
            Err(CoreError::Unexpected(_)) => unreached(),
        }
    }

    /// The outcome of importing an account, from what the core library
    /// answered (its error as debug text).
    pub fn import_account(&self, result: Result<(), String>) -> (outcome: Result<(), String>)
        ensures
            result is Ok ==> outcome is Ok,
            result matches Err(e) ==> (outcome matches Err(m) && m@ == "error importing: "@ + e@),
    {
        match result {
            Ok(_) => Ok(()),
            Err(err) => {
                let mut m = String::from_str("error importing: ");
                m.append(err.as_str());
                Err(m)
            },
        }
    }

    /// The outcome of exporting the account, from what the core library
    /// answered.
    pub fn export_account(&self, result: Result<String, CoreError<AccountExportError>>) -> (outcome:
        Result<String, String>)
        ensures
            result matches Ok(s) ==> (outcome matches Ok(t) && t@ == s@),
            result matches Err(CoreError::UiError(AccountExportError::NoAccount)) ==> (outcome matches Err(m)
                && m@ == "Unable to load account"@),
            result matches Err(CoreError::Unexpected(msg)) ==> (outcome matches Err(m) && m@ == msg@),
    {
        match result {
            Ok(acct_str) => Ok(acct_str),
            Err(CoreError::UiError(AccountExportError::NoAccount)) => Err(
                String::from_str("Unable to load account"),
            ),
            Err(CoreError::Unexpected(msg)) => Err(msg),
        }
    }

    /// The account, from what the core library answered: none when there is
    /// no account, an error when it could not be loaded.
    pub fn account<A>(&self, result: Result<A, CoreError<GetAccountError>>) -> (outcome: Result<
        Option<A>,
        String,
    >)
        ensures
            result matches Ok(a) ==> outcome == Ok::<Option<A>, String>(Some(a)),
            result matches Err(CoreError::UiError(GetAccountError::NoAccount)) ==> outcome
                == Ok::<Option<A>, String>(None),
            result matches Err(CoreError::Unexpected(_)) ==> (outcome matches Err(m)
                && m@ == "Unable to load account."@),
    {
        match result {
            Ok(acct) => Ok(Some(acct)),
            Err(CoreError::UiError(GetAccountError::NoAccount)) => Ok(None),
            Err(CoreError::Unexpected(_)) => Err(String::from_str("Unable to load account.")),
        }
    }

    /// The core library's path of a file to create at `path` below the root
    /// folder named `root_name`.
    pub fn create_file_at_path(&self, root_name: &str, path: &str) -> (full: String)
        ensures
            full@ == prefixed_path(root_name@, path@),
    {
        concat3(root_name, "/", path)
    }

    /// The core library's path of the file at `path` in the account of
    /// `username`, whose root folder is named after it.
    pub fn file_by_path(&self, username: &str, path: &str) -> (full: String)
        ensures
            full@ == prefixed_path(username@, path@),
    {
        concat3(username, "/", path)
    }

    /// Starts spelling the path of `f` below the root folder `root` (`None`:
    /// the root could not be looked up, and the nil id stands in for it). The
    /// root folder itself is `/`.
    pub fn full_path_for(&self, f: &FileMeta, root: Option<FileId>) -> (walk: PathWalk)
        ensures
            root is Some && f.id@ == root->0@ ==> walk@ == (PathWalkView {
                root_id: root->0@,
                path: "/"@,
                pending: None,
                names: Seq::empty(),
            }),
            !(root is Some && f.id@ == root->0@) ==> {
                let root_id = match root {
                    Some(r) => r@,
                    None => Seq::new(16, |_i: int| 0u8),
                };
                &&& walk@.root_id == root_id
                &&& f.id@ == root_id ==> walk@ == (PathWalkView {
                    root_id,
                    path: Seq::empty(),
                    pending: None,
                    names: Seq::empty(),
                })
                &&& f.id@ != root_id ==> walk@ == (PathWalkView {
                    root_id,
                    path: "/"@ + f.name@,
                    pending: Some(f.parent@),
                    names: seq![f.name@],
                })
            },
            walk@.pending is Some ==> walk@.path == path_of(walk@.names),
    {
        let root_id: FileId = match root {
            Some(r) => {
                if same_id(&f.id, &r) {
                    return PathWalk {
                        root_id: r,
                        path: String::from_str("/"),
                        pending: None,
                        names: Ghost(Seq::empty()),
                    };
                }
                r
            },
            None => {
                let nil = [0u8; 16];
                assert(nil@ =~= Seq::new(16, |_i: int| 0u8));
                nil
            },
        };
        if same_id(&f.id, &root_id) {
            return PathWalk {
                root_id,
                path: String::new(),
                pending: None,
                names: Ghost(Seq::empty()),
            };
        }
        proof {
            lemma_path_step(Seq::empty(), f.name@);
            assert(Seq::<Seq<char>>::empty().push(f.name@) =~= seq![f.name@]);
        }
        PathWalk {
            root_id,
            path: concat2("/", f.name.as_str()),
            pending: Some(f.parent),
            names: Ghost(Seq::empty().push(f.name@)),
        }
    }

    /// Starts a sync: the first thing to do is to calculate the work.
    pub fn sync(&self) -> (start: (SyncMachine, SyncStep))
        ensures
            start.0@ == (SyncView {
                phase: SyncPhase::CalculatingWork,
                local: Seq::empty(),
                index: 0,
                action: Seq::empty(),
            }),
            sync_wf(start.0@),
            start.1.message is None,
            start.1.command is CalculateWork,
    {
        let machine = SyncMachine {
            phase: SyncPhase::CalculatingWork,
            local: Vec::new(),
            index: 0,
            action: String::new(),
        };
        assert(machine@.local =~= Seq::<bool>::empty());
        (machine, SyncStep { message: None, command: SyncCommand::CalculateWork })
    }
}

} // verus!
