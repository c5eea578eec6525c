//! The daemon's runtime directories: which are private, and which one is this
//! project's.

use vstd::prelude::*;

use crate::error::{MainError, MainErrorView};
use crate::mq_protocol::MQResponse;
use crate::stop;
use crate::text;

verus! {

/// The directories that must be private before anything is kept below them, in
/// order; the last one holds the runtime directories. Without a runtime
/// directory of the user's session they are below `/tmp`.
pub open spec fn private_dirs(runtime_dir: Option<Seq<char>>, uid: u32) -> Seq<Seq<char>> {
    match runtime_dir {
        Some(base) => seq![text::joined_path(base, "selfci"@)],
        None => {
            let base = "/tmp/selfci-"@ + text::decimal(uid as nat);
            seq![base].push(text::joined_path(base, "selfci"@))
        },
    }
}

/// The directories that must be private, in order.
pub fn get_selfci_root_runtime_dir(runtime_dir: Option<&str>, uid: u32) -> (res: Vec<String>)
    ensures
        text::texts(res@) == private_dirs(
            match runtime_dir {
                Some(d) => Some(d@),
                None => None,
            },
            uid,
        ),
        res.len() > 0,
{
    let mut res: Vec<String> = Vec::new();
    match runtime_dir {
        Some(base) => {
            res.push(text::join_path(base, "selfci"));
            assert(text::texts(res@) =~= private_dirs(Some(base@), uid));
        },
        None => {
            let base = String::from_str("/tmp/selfci-").concat(
                text::decimal_of(uid as u64).as_str(),
            );
            let root = text::join_path(base.as_str(), "selfci");
            res.push(base);
            res.push(root);
            assert(text::texts(res@) =~= private_dirs(None, uid));
        },
    }
    res
}

/// What is known of a directory, without following links.
#[derive(Debug, Clone, Copy, PartialEq, Eq, Structural)]
pub struct DirFacts {
    pub is_dir: bool,
    pub is_symlink: bool,
    pub uid: u32,
    pub mode: u32,
}

/// Whether nobody but the user can have been at a directory.
pub open spec fn is_private(facts: DirFacts, uid: u32) -> bool {
    facts.is_dir && !facts.is_symlink && facts.uid == uid && facts.mode & 0o077 == 0
}

/// What has happened while a private directory was made.
#[derive(Debug)]
pub struct PrivateDirHistory {
    /// Whether it was made; one that existed is no failure.
    pub created: Option<Result<(), (bool, String)>>,
    pub facts: Option<Result<DirFacts, String>>,
    /// Whether its mode could be set.
    pub mode_set: Option<Result<(), String>>,
}

/// What making a private directory does next.
#[derive(Debug)]
pub enum PrivateDirStep {
    /// Make it, for the user alone.
    Create,
    ReadFacts,
    /// Set its mode to 0700. It is never widened: it was private before.
    SetMode,
    Done,
    Fail(MainError),
}

/// What a [`PrivateDirStep`] holds.
pub enum PrivateDirView {
    Create,
    ReadFacts,
    SetMode,
    Done,
    Fail(MainErrorView),
}

impl View for PrivateDirStep {
    type V = PrivateDirView;

    open spec fn view(&self) -> PrivateDirView {
        match *self {
            PrivateDirStep::Create => PrivateDirView::Create,
            PrivateDirStep::ReadFacts => PrivateDirView::ReadFacts,
            PrivateDirStep::SetMode => PrivateDirView::SetMode,
            PrivateDirStep::Done => PrivateDirView::Done,
            PrivateDirStep::Fail(e) => PrivateDirView::Fail(e@),
        }
    }
}

/// What making a private directory does next.
pub open spec fn private_dir_step(
    path: Seq<char>,
    uid: u32,
    h: PrivateDirHistory,
) -> PrivateDirView {
    match h.created {
        None => PrivateDirView::Create,
        Some(created) => if created is Err && !(created->Err_0).0 {
            PrivateDirView::Fail(
                MainErrorView::CreateWorkDirectoryFailed { path, reason: (created->Err_0).1@ },
            )
        } else {
            match h.facts {
                None => PrivateDirView::ReadFacts,
                Some(Err(e)) => PrivateDirView::Fail(MainErrorView::CreateFailed(e@)),
                Some(Ok(facts)) => if !is_private(facts, uid) {
                    PrivateDirView::Fail(
                        MainErrorView::CreateFailed(
                            "runtime directory "@ + path
                                + " must be a same-user, non-symlink directory with mode 0700"@,
                        ),
                    )
                } else {
                    match h.mode_set {
                        None => PrivateDirView::SetMode,
                        Some(Err(e)) => PrivateDirView::Fail(MainErrorView::CreateFailed(e@)),
                        Some(Ok(_)) => PrivateDirView::Done,
                    }
                },
            }
        },
    }
}

/// What making, or accepting, a private directory does next, given what has
/// happened so far.
pub fn ensure_private_runtime_directory(path: &str, uid: u32, h: &PrivateDirHistory) -> (res:
    PrivateDirStep)
    ensures
        res@ == private_dir_step(path@, uid, *h),
{
    match &h.created {
        None => return PrivateDirStep::Create,
        Some(Err((exists_already, reason))) => {
            if !*exists_already {
                return PrivateDirStep::Fail(
                    MainError::CreateWorkDirectoryFailed {
                        path: path.to_owned(),
                        reason: reason.clone(),
                    },
                );
            }
        },
        Some(Ok(_)) => {},
    }
    let facts = match &h.facts {
        None => return PrivateDirStep::ReadFacts,
        Some(Err(e)) => return PrivateDirStep::Fail(MainError::CreateFailed(e.clone())),
        Some(Ok(facts)) => *facts,
    };
    if !facts.is_dir || facts.is_symlink || facts.uid != uid || facts.mode & 0o077 != 0 {
        return PrivateDirStep::Fail(
            MainError::CreateFailed(
                String::from_str("runtime directory ").concat(path).concat(
                    " must be a same-user, non-symlink directory with mode 0700",
                ),
            ),
        );
    }
    match &h.mode_set {
        None => PrivateDirStep::SetMode,
        Some(Err(e)) => PrivateDirStep::Fail(MainError::CreateFailed(e.clone())),
        Some(Ok(_)) => PrivateDirStep::Done,
    }
}

/// The runtime directory of a daemon that is started by the given process.
pub fn get_daemon_dir_for_pid(root: &str, pid: u32) -> (res: String)
    ensures
        res@ == text::joined_path(root@, text::decimal(pid as nat)),
{
    text::join_path(root, text::decimal_of(pid as u64).as_str())
}

/// Whether two paths lead to the same place: by their canonical forms where
/// both have one, else as they are written.
pub fn paths_equal(a: &str, b: &str, a_canonical: Option<&str>, b_canonical: Option<&str>) -> (res:
    bool)
    ensures
        res == match (a_canonical, b_canonical) {
            (Some(x), Some(y)) => text::same_path(x@, y@),
            _ => text::same_path(a@, b@),
        },
{
    match (a_canonical, b_canonical) {
        (Some(x), Some(y)) => text::paths_match(x, y),
        _ => text::paths_match(a, b),
    }
}

/// The runtime directory that was named, and what its project file says.
#[derive(Debug)]
pub struct ExplicitDir {
    pub dir: String,
    pub project: ProjectFile,
}

/// What the project file of a runtime directory says.
#[derive(Debug)]
pub enum ProjectFile {
    Missing,
    Unreadable(String),
    /// It names a project: this one or another.
    Names { this_project: bool },
}

/// A runtime directory that was come across.
#[derive(Debug)]
pub enum FoundDir {
    /// Listing the directories failed here.
    Broken(String),
    /// It has no project file that can be read.
    Unknown,
    Known { dir: String, this_project: bool, verified: bool },
}

/// What was come across while looking for the daemon.
#[derive(Debug)]
pub enum FoundDirs {
    /// There is no directory to look in.
    NoRoot,
    /// It could not be listed.
    Unlistable(String),
    Dirs(Vec<FoundDir>),
}

/// The first directory of this project with a verified daemon, else the first
/// of this project.
pub open spec fn first_of_project(dirs: Seq<FoundDir>, unverified: Option<Seq<char>>) -> Result<
    Option<Seq<char>>,
    MainErrorView,
>
    decreases dirs.len(),
{
    if dirs.len() == 0 {
        Ok(unverified)
    } else {
        match dirs[0] {
            FoundDir::Broken(e) => Err(MainErrorView::CreateFailed(e@)),
            FoundDir::Unknown => first_of_project(dirs.drop_first(), unverified),
            FoundDir::Known { dir, this_project, verified } => if this_project && verified {
                Ok(Some(dir@))
            } else if this_project && unverified is None {
                first_of_project(dirs.drop_first(), Some(dir@))
            } else {
                first_of_project(dirs.drop_first(), unverified)
            },
        }
    }
}

/// The runtime directory of this project's daemon. One that was named is taken
/// unless it belongs to another project; else the daemon is looked for.
pub open spec fn project_dir(explicit: Option<ExplicitDir>, found: FoundDirs) -> Result<
    Option<Seq<char>>,
    MainErrorView,
> {
    match explicit {
        Some(e) => match e.project {
            ProjectFile::Missing => Ok(Some(e.dir@)),
            ProjectFile::Unreadable(reason) => Err(MainErrorView::CreateFailed(reason@)),
            ProjectFile::Names { this_project } => if this_project {
                Ok(Some(e.dir@))
            } else {
                Ok(None)
            },
        },
        None => match found {
            FoundDirs::NoRoot => Ok(None),
            FoundDirs::Unlistable(reason) => Err(MainErrorView::CreateFailed(reason@)),
            FoundDirs::Dirs(dirs) => first_of_project(dirs@, None),
        },
    }
}

/// A result by what it holds.
pub open spec fn dir_result(r: Result<Option<String>, MainError>) -> Result<
    Option<Seq<char>>,
    MainErrorView,
> {
    match r {
        Ok(dir) => Ok(dir.deep_view()),
        Err(e) => Err(e@),
    }
}

fn choose_dir(dirs: &Vec<FoundDir>) -> (res: Result<Option<String>, MainError>)
    ensures
        dir_result(res) == first_of_project(dirs@, None),
{
    let mut unverified: Option<String> = None;
    let mut i: usize = 0;
    assert(dirs@.skip(0) =~= dirs@);
    while i < dirs.len()
        invariant
            i <= dirs.len(),
            first_of_project(dirs@, None) == first_of_project(
                dirs@.skip(i as int),
                unverified.deep_view(),
            ),
        decreases dirs.len() - i,
    {
        assert(dirs@.skip(i as int)[0] == dirs@[i as int]);
        assert(dirs@.skip(i as int).drop_first() =~= dirs@.skip(i + 1));
        match &dirs[i] {
            FoundDir::Broken(e) => return Err(MainError::CreateFailed(e.clone())),
            FoundDir::Unknown => {},
            FoundDir::Known { dir, this_project, verified } => {
                if *this_project {
                    if *verified {
                        return Ok(Some(dir.clone()));
                    }
                    if unverified.is_none() {
                        unverified = Some(dir.clone());
                    }
                }
            },
        }
        i = i + 1;
    }
    Ok(unverified)
}

/// The runtime directory of this project's daemon.
pub fn get_project_daemon_runtime_dir(explicit: Option<ExplicitDir>, found: &FoundDirs) -> (res:
    Result<Option<String>, MainError>)
    ensures
        dir_result(res) == project_dir(explicit, *found),
{
    match explicit {
        Some(e) => match e.project {
            ProjectFile::Missing => Ok(Some(e.dir)),
            ProjectFile::Unreadable(reason) => Err(MainError::CreateFailed(reason)),
            ProjectFile::Names { this_project } => if this_project {
                Ok(Some(e.dir))
            } else {
                Ok(None)
            },
        },
        None => match found {
            FoundDirs::NoRoot => Ok(None),
            FoundDirs::Unlistable(reason) => Err(MainError::CreateFailed(reason.clone())),
            FoundDirs::Dirs(dirs) => choose_dir(dirs),
        },
    }
}

/// The daemon's process, if the PID file names it and it answers for itself.
pub fn verified_daemon_pid(pid_file: Option<&str>, hello: &Result<MQResponse, String>) -> (res:
    Option<i32>)
    ensures
        res == (match (pid_file, *hello) {
            (Some(content), Ok(MQResponse::HelloAck { pid })) => if stop::recorded_pid(content@)
                == Some(pid) {
                Some(pid)
            } else {
                None
            },
            _ => None,
        }),
{
    let recorded = match pid_file {
        Some(content) => match stop::read_pid(content) {
            Some(pid) => pid,
            None => return None,
        },
        None => return None,
    };
    match hello {
        Ok(MQResponse::HelloAck { pid }) => {
            if *pid == recorded {
                Some(recorded)
            } else {
                None
            }
        },
        _ => None,
    }
}

/// A daemon that answers is found before one that does not, wherever it stands
/// in the listing, as long as the listing does not break before it.
pub proof fn law_verified_daemon_is_found(dirs: Seq<FoundDir>, unverified: Option<Seq<char>>, i: int)
    requires
        0 <= i < dirs.len(),
        dirs[i] matches FoundDir::Known { this_project, verified, .. } && this_project && verified,
        forall|j: int| 0 <= j < i ==> !(#[trigger] dirs[j] is Broken),
    ensures
        first_of_project(dirs, unverified) matches Ok(Some(dir)) && exists|k: int|
            0 <= k <= i && (#[trigger] dirs[k] matches FoundDir::Known {
                dir: d,
                this_project,
                verified,
            } && d@ == dir && this_project && verified),
    decreases dirs.len(),
{
    if dirs[0] matches FoundDir::Known { this_project, verified, .. } && this_project && verified {
        assert(dirs[0] matches FoundDir::Known { dir, .. } && first_of_project(dirs, unverified)
            == Ok::<Option<Seq<char>>, MainErrorView>(Some(dir@)));
    } else {
        let rest = dirs.drop_first();
        let next = match dirs[0] {
            FoundDir::Known { dir, this_project, .. } => if this_project && unverified is None {
                Some(dir@)
            } else {
                unverified
            },
            _ => unverified,
        };
        assert forall|j: int| 0 <= j < i - 1 implies !(#[trigger] rest[j] is Broken) by {
            assert(rest[j] == dirs[j + 1]);
        }
        law_verified_daemon_is_found(rest, next, i - 1);
        let dir = first_of_project(rest, next)->Ok_0->0;
        let k = choose|k: int|
            0 <= k <= i - 1 && (#[trigger] rest[k] matches FoundDir::Known {
                dir: d,
                this_project,
                verified,
            } && d@ == dir && this_project && verified);
        assert(dirs[k + 1] == rest[k]);
    }
}

/// A directory that others could have been at is never used.
pub proof fn law_insecure_runtime_dir_is_refused(path: Seq<char>, uid: u32, h: PrivateDirHistory)
    ensures
        private_dir_step(path, uid, h) is SetMode || private_dir_step(path, uid, h) is Done ==> (
        h.facts matches Some(Ok(facts)) && is_private(facts, uid)),
{
}

/// Runtime directories are kept below `selfci` in the directory of the user's
/// session, or else below a directory in `/tmp` that bears the user's number,
/// which must be private first.
pub proof fn law_runtime_directories_are_the_users(base: Seq<char>, uid: u32)
    ensures
        private_dirs(Some(base), uid) =~= seq![text::joined_path(base, "selfci"@)],
        private_dirs(None, uid).len() == 2,
        private_dirs(None, uid)[0] == "/tmp/selfci-"@ + text::decimal(uid as nat),
        private_dirs(None, uid)[1] == text::joined_path(
            "/tmp/selfci-"@ + text::decimal(uid as nat),
            "selfci"@,
        ),
{
}

/// A private directory is a directory and no link, belongs to the user, and lets
/// neither the group nor others do anything.
pub proof fn law_private_means_the_users_alone(facts: DirFacts, uid: u32)
    ensures
        is_private(facts, uid) ==> facts.is_dir && !facts.is_symlink && facts.uid == uid,
        is_private(facts, uid) ==> facts.mode & 1 == 0 && facts.mode & 2 == 0 && facts.mode & 4 == 0
            && facts.mode & 8 == 0 && facts.mode & 16 == 0 && facts.mode & 32 == 0,
        facts.is_dir && !facts.is_symlink && facts.uid == uid && facts.mode == 0x1c0
            ==> is_private(facts, uid),
        facts.is_dir && !facts.is_symlink && facts.uid == uid && facts.mode & 0x3f == 0
            ==> is_private(facts, uid),
{
    let mode = facts.mode;
    assert(mode & 0x3f == 0 ==> mode & 1 == 0 && mode & 2 == 0 && mode & 4 == 0 && mode & 8 == 0
        && mode & 16 == 0 && mode & 32 == 0) by (bit_vector);
    assert(0x1c0u32 & 0x3f == 0) by (bit_vector);
}

/// Making a directory private does one thing after the other, each exactly when
/// all before it went well. One that exists is taken if it is private, and one
/// that is not is never changed.
pub proof fn law_private_directories_are_checked_first(
    path: Seq<char>,
    uid: u32,
    h: PrivateDirHistory,
)
    ensures
        ({
            let step = private_dir_step(path, uid, h);
            let exists = h.created is Some && (h.created->0 is Err ==> (h.created->0->Err_0).0);
            let private = exists && h.facts is Some && h.facts->0 is Ok && is_private(
                h.facts->0->Ok_0,
                uid,
            );
            &&& step is Create <==> h.created is None
            &&& step is ReadFacts <==> exists && h.facts is None
            &&& step is SetMode <==> private && h.mode_set is None
            &&& step is Done <==> private && h.mode_set is Some && h.mode_set->0 is Ok
            &&& h.created is Some && !exists ==> step == PrivateDirView::Fail(
                MainErrorView::CreateWorkDirectoryFailed {
                    path,
                    reason: (h.created->0->Err_0).1@,
                },
            )
            &&& exists && h.facts is Some && h.facts->0 is Err ==> step == PrivateDirView::Fail(
                MainErrorView::CreateFailed(h.facts->0->Err_0@),
            )
            &&& exists && h.facts is Some && h.facts->0 is Ok && !private ==> step
                == PrivateDirView::Fail(
                MainErrorView::CreateFailed(
                    "runtime directory "@ + path
                        + " must be a same-user, non-symlink directory with mode 0700"@,
                ),
            )
            &&& private && h.mode_set is Some && h.mode_set->0 is Err ==> step
                == PrivateDirView::Fail(MainErrorView::CreateFailed(h.mode_set->0->Err_0@))
        }),
{
}

/// The directory that is found is the first of this project whose daemon answers,
/// up to where the listing breaks; without one it is the first of this project.
/// Directories of other projects never count.
pub proof fn law_directories_are_looked_at_in_order(
    dir: String,
    verified: bool,
    e: String,
    rest: Seq<FoundDir>,
    seen: Option<Seq<char>>,
)
    ensures
        first_of_project(Seq::empty(), seen) == Ok::<Option<Seq<char>>, MainErrorView>(seen),
        first_of_project(seq![FoundDir::Broken(e)] + rest, seen) == Err::<
            Option<Seq<char>>,
            MainErrorView,
        >(MainErrorView::CreateFailed(e@)),
        first_of_project(seq![FoundDir::Unknown] + rest, seen) == first_of_project(rest, seen),
        first_of_project(
            seq![FoundDir::Known { dir, this_project: false, verified }] + rest,
            seen,
        ) == first_of_project(rest, seen),
        first_of_project(
            seq![FoundDir::Known { dir, this_project: true, verified: true }] + rest,
            seen,
        ) == Ok::<Option<Seq<char>>, MainErrorView>(Some(dir@)),
        first_of_project(
            seq![FoundDir::Known { dir, this_project: true, verified: false }] + rest,
            None,
        ) == first_of_project(rest, Some(dir@)),
        seen is Some ==> first_of_project(
            seq![FoundDir::Known { dir, this_project: true, verified: false }] + rest,
            seen,
        ) == first_of_project(rest, seen),
{
    assert((seq![FoundDir::Broken(e)] + rest)[0] == FoundDir::Broken(e));
    assert((seq![FoundDir::Unknown] + rest).drop_first() =~= rest);
    assert((seq![FoundDir::Known { dir, this_project: false, verified }] + rest).drop_first()
        =~= rest);
    assert((seq![FoundDir::Known { dir, this_project: true, verified: false }]
        + rest).drop_first() =~= rest);
}

/// A runtime directory that was named is taken unless it belongs to another
/// project or its project cannot be read. Only where none was named is one looked
/// for.
pub proof fn law_named_directories_come_first(
    explicit: Option<ExplicitDir>,
    found: FoundDirs,
)
    ensures
        explicit matches Some(named) ==> {
            &&& named.project is Missing ==> project_dir(explicit, found) == Ok::<
                Option<Seq<char>>,
                MainErrorView,
            >(Some(named.dir@))
            &&& (named.project matches ProjectFile::Unreadable(reason) ==> project_dir(
                explicit,
                found,
            ) == Err::<Option<Seq<char>>, MainErrorView>(MainErrorView::CreateFailed(reason@)))
            &&& named.project == (ProjectFile::Names { this_project: true }) ==> project_dir(
                explicit,
                found,
            ) == Ok::<Option<Seq<char>>, MainErrorView>(Some(named.dir@))
            &&& named.project == (ProjectFile::Names { this_project: false }) ==> project_dir(
                explicit,
                found,
            ) == Ok::<Option<Seq<char>>, MainErrorView>(None)
        },
        explicit is None ==> {
            &&& found is NoRoot ==> project_dir(explicit, found) == Ok::<
                Option<Seq<char>>,
                MainErrorView,
            >(None)
            &&& (found matches FoundDirs::Unlistable(reason) ==> project_dir(explicit, found)
                == Err::<Option<Seq<char>>, MainErrorView>(MainErrorView::CreateFailed(reason@)))
            &&& (found matches FoundDirs::Dirs(dirs) ==> project_dir(explicit, found)
                == first_of_project(dirs@, None))
        },
{
}

/// A daemon's process is the one that its file names, and only where that very
/// process answers for itself.
pub proof fn law_daemons_answer_for_themselves(
    pid_file: Option<&str>,
    hello: Result<MQResponse, String>,
    res: Option<i32>,
)
    requires
        call_ensures(verified_daemon_pid, (pid_file, &hello), res),
    ensures
        res matches Some(pid) ==> {
            &&& pid_file is Some && stop::recorded_pid(pid_file->0@) == Some(pid)
            &&& hello == Ok::<MQResponse, String>(MQResponse::HelloAck { pid })
        },
        res is None ==> !(pid_file is Some && hello is Ok && hello->Ok_0 is HelloAck
            && stop::recorded_pid(pid_file->0@) == Some(hello->Ok_0->HelloAck_pid)),
{
}

/// Two paths lead to the same place if their canonical forms, or where one has none
/// the paths as they are written, are the same. The directory of a daemon bears the
/// number of its process.
pub proof fn law_places_are_compared_by_canonical_form(
    a: &str,
    b: &str,
    a_canonical: Option<&str>,
    b_canonical: Option<&str>,
    res: bool,
    pid: u32,
    dir: String,
)
    requires
        call_ensures(paths_equal, (a, b, a_canonical, b_canonical), res),
        call_ensures(get_daemon_dir_for_pid, (a, pid), dir),
    ensures
        a_canonical is Some && b_canonical is Some ==> res == text::same_path(
            a_canonical->0@,
            b_canonical->0@,
        ),
        a_canonical is None || b_canonical is None ==> res == text::same_path(a@, b@),
        dir@ == text::joined_path(a@, text::decimal(pid as nat)),
{
}

} // verus!
