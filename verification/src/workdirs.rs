//! Exporting revisions into directories of their own.

use vstd::prelude::*;

use crate::config::CloneMode;
use crate::duct_util;
use crate::duct_util::{Cmd, CmdView};
use crate::error::{MainError, MainErrorView};
use crate::revision;
use crate::revision::CommitId;
use crate::script;
use crate::script::{Invocation, InvocationView, Reply, Step, StepView};
use crate::text;
use crate::vcs::VCS;

verus! {

// ---------------------------------------------------------------------------
// Lists of commands

/// How far a list of commands that must all succeed has come.
pub enum ListView {
    /// Run this one.
    Run(InvocationView),
    /// One has failed; the next reply will be the `next`th.
    Failed { message: Seq<char>, next: nat },
    /// All have succeeded; the next reply will be the `next`th.
    Done { next: nat },
}

/// How far a list of commands has come, whose first reply is the `from`th.
pub open spec fn list_step(
    commands: Seq<InvocationView>,
    replies: Seq<Reply>,
    from: nat,
) -> ListView
    decreases commands.len(),
{
    if commands.len() == 0 {
        ListView::Done { next: from }
    } else if replies.len() <= from {
        ListView::Run(commands[0])
    } else {
        match replies[from as int] {
            Reply::Failed(m) => ListView::Failed { message: m@, next: from + 1 },
            Reply::Output { .. } => list_step(commands.drop_first(), replies, from + 1),
        }
    }
}

/// How far a list of commands has come.
#[derive(Debug)]
pub enum ListProgress {
    Run(Invocation),
    Failed { message: String, next: usize },
    Done { next: usize },
}

impl View for ListProgress {
    type V = ListView;

    open spec fn view(&self) -> ListView {
        match *self {
            ListProgress::Run(inv) => ListView::Run(inv@),
            ListProgress::Failed { message, next } => ListView::Failed {
                message: message@,
                next: next as nat,
            },
            ListProgress::Done { next } => ListView::Done { next: next as nat },
        }
    }
}

/// What invocations hold.
pub open spec fn invocation_views(invocations: Seq<Invocation>) -> Seq<InvocationView> {
    invocations.map_values(|i: Invocation| i@)
}

/// How far a list of commands has come, whose first reply is the `from`th.
fn run_list(commands: Vec<Invocation>, replies: &Vec<Reply>, from: usize) -> (res: ListProgress)
    requires
        from + commands.len() <= usize::MAX,
    ensures
        res@ == list_step(invocation_views(commands@), replies@, from as nat),
        res matches ListProgress::Done { next } ==> next == from + commands.len(),
        res matches ListProgress::Failed { next, .. } ==> next <= from + commands.len(),
{
    let ghost all = invocation_views(commands@);
    let count: usize = commands.len();
    let mut left = commands;
    let mut i: usize = 0;
    assert(all.skip(0) =~= all);
    while i < count
        invariant
            i <= count,
            left.len() == count - i,
            count == commands.len(),
            all == invocation_views(commands@),
            from + count <= usize::MAX,
            all.len() == count,
            invocation_views(left@) == all.skip(i as int),
            list_step(all, replies@, from as nat) == list_step(
                all.skip(i as int),
                replies@,
                (from + i) as nat,
            ),
        decreases count - i,
    {
        let ghost rest = all.skip(i as int);
        assert(rest[0] == left@[0]@);
        if replies.len() <= from + i {
            let next = left.remove(0);
            return ListProgress::Run(next);
        }
        match &replies[from + i] {
            Reply::Failed(m) => {
                return ListProgress::Failed { message: m.clone(), next: from + i + 1 };
            },
            Reply::Output { .. } => {},
        }
        left.remove(0);
        proof {
            assert(rest.drop_first() =~= all.skip(i + 1));
            assert(invocation_views(left@) =~= all.skip(i + 1));
        }
        i = i + 1;
    }
    ListProgress::Done { next: from + count }
}

// ---------------------------------------------------------------------------
// Clones

/// The URL of a local repository. A URL, not a path, makes Git heed filters.
pub open spec fn file_url(path: Seq<char>) -> Seq<char> {
    "file://"@ + path
}

/// Git in a directory.
pub open spec fn git_in(dir: Seq<char>) -> CmdView {
    duct_util::bare_command("git"@).dir(dir)
}

/// The commands that bring one revision of a repository into a directory.
pub open spec fn clone_commands(
    url: Seq<char>,
    workdir: Seq<char>,
    revision: Seq<char>,
    mode: CloneMode,
) -> Seq<InvocationView> {
    match mode {
        CloneMode::Full => seq![].push(
            script::run_quiet_of(
                git_in(workdir).arg("clone"@).arg("--quiet"@).arg(url).arg("."@),
            ),
        ).push(
            script::run_quiet_of(git_in(workdir).arg("checkout"@).arg("--quiet"@).arg(revision)),
        ),
        CloneMode::Partial => seq![].push(
            script::run_quiet_of(
                git_in(workdir).arg("clone"@).arg("--quiet"@).arg("--filter=blob:none"@).arg(
                    "--no-checkout"@,
                ).arg(url).arg("."@),
            ),
        ).push(
            script::run_quiet_of(git_in(workdir).arg("checkout"@).arg("--quiet"@).arg(revision)),
        ),
        CloneMode::Shallow => seq![].push(
            script::run_quiet_of(git_in(workdir).arg("init"@).arg("--quiet"@)),
        ).push(
            script::run_quiet_of(
                git_in(workdir).arg("remote"@).arg("add"@).arg("origin"@).arg(url),
            ),
        ).push(
            script::run_quiet_of(
                git_in(workdir).arg("fetch"@).arg("--quiet"@).arg("--depth=1"@).arg(
                    "origin"@,
                ).arg(revision),
            ),
        ).push(
            script::run_quiet_of(
                git_in(workdir).arg("checkout"@).arg("--quiet"@).arg("FETCH_HEAD"@),
            ),
        ),
    }
}

fn git_cmd(dir: &str) -> (res: Cmd)
    ensures
        res@ == git_in(dir@),
{
    Cmd::new("git").dir(dir)
}

fn push_quiet(commands: &mut Vec<Invocation>, cmd: Cmd)
    ensures
        invocation_views(final(commands)@) == invocation_views(old(commands)@).push(
            script::run_quiet_of(cmd@),
        ),
        final(commands).len() == old(commands).len() + 1,
{
    let inv = Invocation::run_quiet(cmd);
    commands.push(inv);
    assert(invocation_views(commands@) =~= invocation_views(old(commands)@).push(inv@));
}

fn clone_revision(url: &str, workdir: &str, revision: &str, clone_mode: CloneMode) -> (res: Vec<
    Invocation,
>)
    ensures
        invocation_views(res@) == clone_commands(url@, workdir@, revision@, clone_mode),
        res.len() <= 4,
{
    let mut commands: Vec<Invocation> = Vec::new();
    assert(invocation_views(commands@) =~= seq![]);
    match clone_mode {
        CloneMode::Full => {
            push_quiet(
                &mut commands,
                git_cmd(workdir).arg("clone").arg("--quiet").arg(url).arg("."),
            );
            push_quiet(
                &mut commands,
                git_cmd(workdir).arg("checkout").arg("--quiet").arg(revision),
            );
        },
        CloneMode::Partial => {
            push_quiet(
                &mut commands,
                git_cmd(workdir).arg("clone").arg("--quiet").arg("--filter=blob:none").arg(
                    "--no-checkout",
                ).arg(url).arg("."),
            );
            push_quiet(
                &mut commands,
                git_cmd(workdir).arg("checkout").arg("--quiet").arg(revision),
            );
        },
        CloneMode::Shallow => {
            push_quiet(&mut commands, git_cmd(workdir).arg("init").arg("--quiet"));
            push_quiet(
                &mut commands,
                git_cmd(workdir).arg("remote").arg("add").arg("origin").arg(url),
            );
            push_quiet(
                &mut commands,
                git_cmd(workdir).arg("fetch").arg("--quiet").arg("--depth=1").arg("origin").arg(
                    revision,
                ),
            );
            push_quiet(
                &mut commands,
                git_cmd(workdir).arg("checkout").arg("--quiet").arg("FETCH_HEAD"),
            );
        },
    }
    commands
}

/// The commands that bring a revision of a Jujutsu repository, by way of the
/// Git repository below it, into a directory.
pub fn copy_revision_to_workdir_jj(
    workdir: &str,
    revision: &str,
    git_dir: &str,
    clone_mode: CloneMode,
) -> (res: Vec<Invocation>)
    ensures
        invocation_views(res@) == clone_commands(
            file_url(git_dir@),
            workdir@,
            revision@,
            clone_mode,
        ),
        res.len() <= 4,
{
    clone_revision(String::from_str("file://").concat(git_dir).as_str(), workdir, revision, clone_mode)
}

/// The commands that bring a revision of a Git repository into a directory.
pub fn copy_revision_to_workdir_git(
    root_dir: &str,
    workdir: &str,
    revision: &str,
    clone_mode: CloneMode,
) -> (res: Vec<Invocation>)
    ensures
        invocation_views(res@) == clone_commands(
            file_url(root_dir@),
            workdir@,
            revision@,
            clone_mode,
        ),
        res.len() <= 4,
{
    clone_revision(
        String::from_str("file://").concat(root_dir).as_str(),
        workdir,
        revision,
        clone_mode,
    )
}

// ---------------------------------------------------------------------------
// Export bookmarks

/// Begins the name of a bookmark that exports a base.
pub const BASE_BOOKMARK_PREFIX: &'static str = "selfci-export-base-";

/// Begins the name of a bookmark that exports a candidate.
pub const CANDIDATE_BOOKMARK_PREFIX: &'static str = "selfci-export-candidate-";

/// The bookmark that a line of `jj bookmark list` tells of.
pub open spec fn listed_bookmark(line: Seq<char>) -> Seq<char> {
    text::text_before(line, ':')
}

/// What follows the prefix in the name of an export bookmark.
pub open spec fn export_suffix(bookmark: Seq<char>) -> Option<Seq<char>> {
    match text::after_prefix(bookmark, BASE_BOOKMARK_PREFIX@) {
        Some(rest) => Some(rest),
        None => text::after_prefix(bookmark, CANDIDATE_BOOKMARK_PREFIX@),
    }
}

/// Whether a text is a process ID: a positive number that the platform has room for.
pub open spec fn is_pid(s: Seq<char>) -> bool {
    text::natural(s, i32::MAX as nat) matches Some(n) && n > 0
}

/// The process that made the export bookmark of a line, as the name gives it.
pub open spec fn export_pid(line: Seq<char>) -> Option<Seq<char>> {
    match export_suffix(listed_bookmark(line)) {
        Some(suffix) => {
            let pid = text::text_before(suffix, '-');
            if is_pid(pid) {
                Some(pid)
            } else {
                None
            }
        },
        None => None,
    }
}

/// What tells the bookmarks of an export from those of others: the process
/// that makes it and the time at which it does.
pub open spec fn made_suffix(pid: nat, nanos: nat) -> Seq<char> {
    text::decimal(pid) + "-"@ + text::decimal(nanos)
}

/// The suffix of the bookmarks of an export.
pub fn new_export_suffix(pid: u32, nanos: u64) -> (res: String)
    ensures
        res@ == made_suffix(pid as nat, nanos as nat),
{
    text::decimal_of(pid as u64).concat("-").concat(text::decimal_of(nanos).as_str())
}

/// The bookmark of a line, where it was left behind: its name tells of a
/// process, processes can be looked up, and that one does not exist.
pub open spec fn stale_bookmark(
    line: Seq<char>,
    processes_known: bool,
    process_exists: bool,
) -> Option<Seq<char>> {
    if export_pid(line) is Some && processes_known && !process_exists {
        Some(listed_bookmark(line))
    } else {
        None
    }
}

/// A process ID that a text gives, where it gives one.
pub fn parse_pid(s: &str) -> (res: Option<i32>)
    ensures
        res is Some <==> is_pid(s@),
        res matches Some(pid) ==> pid > 0 && pid as nat == text::natural(
            s@,
            i32::MAX as nat,
        )->0,
{
    match text::parse_natural(s, i32::MAX as u64) {
        Some(n) => if n > 0 {
            Some(n as i32)
        } else {
            None
        },
        None => None,
    }
}

/// The process whose existence decides whether the bookmark of a line was left behind.
pub fn export_bookmark_pid(line: &str) -> (res: Option<String>)
    ensures
        res.deep_view() == export_pid(line@),
{
    let bookmark = text::before(line, ':');
    let suffix = match text::strip_prefix(bookmark.as_str(), BASE_BOOKMARK_PREFIX) {
        Some(rest) => rest,
        None => match text::strip_prefix(bookmark.as_str(), CANDIDATE_BOOKMARK_PREFIX) {
            Some(rest) => rest,
            None => return None,
        },
    };
    let pid = text::before(suffix.as_str(), '-');
    match parse_pid(pid.as_str()) {
        Some(_) => Some(pid),
        None => None,
    }
}

/// The bookmark of a line, where it was left behind. `processes_known` says
/// whether processes can be looked up, and `process_exists` whether the one
/// that [`export_bookmark_pid`] gives exists.
pub fn stale_selfci_export_bookmark(line: &str, processes_known: bool, process_exists: bool) -> (res:
    Option<String>)
    ensures
        res.deep_view() == stale_bookmark(line@, processes_known, process_exists),
{
    if !processes_known {
        return None;
    }
    match export_bookmark_pid(line) {
        Some(_) => if process_exists {
            None
        } else {
            Some(text::before(line, ':'))
        },
        None => None,
    }
}

/// Whether the process of a line exists. One that nobody looked up is taken to.
pub open spec fn taken_to_exist(exist: Seq<bool>, line: int) -> bool {
    line >= exist.len() || exist[line]
}

/// The bookmarks that were left behind, given for each line whether its
/// process exists.
pub open spec fn stale_bookmarks(
    lines: Seq<Seq<char>>,
    processes_known: bool,
    exist: Seq<bool>,
) -> Seq<Seq<char>>
    decreases lines.len(),
{
    if lines.len() == 0 {
        seq![]
    } else {
        let earlier = stale_bookmarks(lines.drop_last(), processes_known, exist);
        match stale_bookmark(
            lines.last(),
            processes_known,
            taken_to_exist(exist, lines.len() - 1),
        ) {
            Some(bookmark) => earlier.push(bookmark),
            None => earlier,
        }
    }
}

/// The bookmarks to delete before an export. `exist` says for each line of the
/// listing whether the process exists that [`export_bookmark_pid`] gives for it.
pub fn stale_export_bookmarks(listing: &str, processes_known: bool, exist: &Vec<bool>) -> (res: Vec<
    String,
>)
    ensures
        text::texts(res@) == stale_bookmarks(text::lines(listing@), processes_known, exist@),
{
    let lines = text::split_lines(listing);
    let ghost all = text::lines(listing@);
    let mut res: Vec<String> = Vec::new();
    let mut i: usize = 0;
    proof {
        assert(all.take(0) =~= seq![]);
        assert(text::texts(res@) =~= seq![]);
    }
    while i < lines.len()
        invariant
            i <= lines.len(),
            text::texts(lines@) == all,
            all == text::lines(listing@),
            text::texts(res@) == stale_bookmarks(all.take(i as int), processes_known, exist@),
        decreases lines.len() - i,
    {
        let ghost before = res@;
        proof {
            assert(lines@[i as int]@ == all[i as int]);
            assert(all.take(i + 1).drop_last() =~= all.take(i as int));
            assert(all.take(i + 1).last() == all[i as int]);
        }
        let exists: bool = i >= exist.len() || exist[i];
        match stale_selfci_export_bookmark(lines[i].as_str(), processes_known, exists) {
            Some(bookmark) => {
                res.push(bookmark);
                assert(text::texts(res@) =~= text::texts(before).push(bookmark@));
            },
            None => {},
        }
        i = i + 1;
    }
    assert(all.take(i as int) =~= all);
    res
}

/// Deletes a bookmark.
pub open spec fn jj_bookmark_delete(root: Seq<char>, bookmark: Seq<char>) -> CmdView {
    duct_util::bare_command("jj"@).arg("bookmark"@).arg("delete"@).arg("--quiet"@).arg(
        bookmark,
    ).dir(root)
}

/// Whether any of `n` deletions, whose first reply is the `from`th, has succeeded.
pub open spec fn any_deleted(replies: Seq<Reply>, from: nat, n: nat) -> bool {
    exists|i: int| from <= i < from + n && #[trigger] replies[i] is Output
}

/// Deletes bookmarks, each whether or not the others can be deleted. If any
/// was, the deletion is exported too: else the next import would bring it back.
pub open spec fn cleanup_step(
    root: Seq<char>,
    bookmarks: Seq<Seq<char>>,
    replies: Seq<Reply>,
    from: nat,
) -> Option<InvocationView> {
    let n = bookmarks.len();
    if replies.len() < from + n {
        Some(
            script::run_of(
                jj_bookmark_delete(root, bookmarks[replies.len() - from]),
            ),
        )
    } else if any_deleted(replies, from, n) && replies.len() == from + n {
        Some(script::run_of(revision::jj_git_export(root)))
    } else {
        None
    }
}

/// The next command of a cleanup of bookmarks, whose first reply is the `from`th.
pub fn cleanup_jj_export_bookmarks(
    root_dir: &str,
    bookmarks: &Vec<String>,
    replies: &Vec<Reply>,
    from: usize,
) -> (res: Option<Invocation>)
    requires
        from <= replies.len(),
        from + bookmarks.len() <= usize::MAX,
    ensures
        match cleanup_step(root_dir@, text::texts(bookmarks@), replies@, from as nat) {
            Some(inv) => res matches Some(i) && i@ == inv,
            None => res is None,
        },
{
    let n: usize = bookmarks.len();
    assert(text::texts(bookmarks@).len() == n);
    if replies.len() < from + n {
        let place: usize = replies.len() - from;
        assert(text::texts(bookmarks@)[place as int] == bookmarks@[place as int]@);
        let cmd = Cmd::new("jj").arg("bookmark").arg("delete").arg("--quiet").arg(
            bookmarks[place].as_str(),
        ).dir(root_dir);
        return Some(Invocation::run(cmd));
    }
    if replies.len() > from + n {
        return None;
    }
    let mut i: usize = from;
    while i < from + n
        invariant
            from <= i <= from + n,
            from + n == replies.len(),
            n == text::texts(bookmarks@).len(),
            forall|j: int| from <= j < i ==> !(#[trigger] replies@[j] is Output),
        decreases from + n - i,
    {
        match &replies[i] {
            Reply::Output { .. } => {
                assert(replies@[i as int] is Output);
                let cmd = Cmd::new("jj").arg("git").arg("export").arg("--quiet").dir(root_dir);
                return Some(Invocation::run(cmd));
            },
            Reply::Failed(_) => {},
        }
        i = i + 1;
    }
    None
}

/// A bookmark goes only if it is one of the program's own, its name tells of a
/// process, and that process is known not to exist.
pub proof fn law_only_abandoned_exports_are_deleted(
    line: Seq<char>,
    processes_known: bool,
    process_exists: bool,
)
    ensures
        stale_bookmark(line, processes_known, process_exists) matches Some(bookmark) ==> {
            &&& processes_known && !process_exists
            &&& text::begins_with(bookmark, BASE_BOOKMARK_PREFIX@) || text::begins_with(
                bookmark,
                CANDIDATE_BOOKMARK_PREFIX@,
            )
            &&& export_pid(line) matches Some(pid) && is_pid(pid)
        },
{
}

/// The bookmarks of an export name the process that made them, so that they
/// stay for as long as it exists: that process is read back from their lines.
pub proof fn law_exports_name_their_process(pid: nat, nanos: nat, base: bool, target: Seq<char>)
    requires
        0 < pid <= i32::MAX,
    ensures
        ({
            let bookmark = export_bookmarks(made_suffix(pid, nanos))[if base {
                0
            } else {
                1
            }];
            let line = bookmark + ":"@ + target;
            &&& listed_bookmark(line) == bookmark
            &&& export_pid(line) == Some(text::decimal(pid))
            &&& stale_bookmark(line, true, true) is None
            &&& stale_bookmark(line, true, false) == Some(bookmark)
        }),
{
    reveal_strlit("selfci-export-base-");
    reveal_strlit("selfci-export-candidate-");
    reveal_strlit("-");
    reveal_strlit(":");
    let suffix = made_suffix(pid, nanos);
    let prefix = if base {
        BASE_BOOKMARK_PREFIX@
    } else {
        CANDIDATE_BOOKMARK_PREFIX@
    };
    let bookmark = prefix + suffix;
    let line = bookmark + ":"@ + target;
    text::lemma_decimal(pid);
    text::lemma_decimal(nanos);
    text::law_decimal_reads_back(pid, i32::MAX as nat);
    assert forall|j: int| 0 <= j < bookmark.len() implies line[j] != ':' by {
        let digits = j - prefix.len();
        if digits >= 0 {
            assert(line[j] == suffix[digits]);
            if digits < text::decimal(pid).len() {
                assert(text::is_digit(text::decimal(pid)[digits]));
            } else if digits > text::decimal(pid).len() {
                let later = digits - text::decimal(pid).len() - 1;
                assert(suffix[digits] == text::decimal(nanos)[later]);
                assert(text::is_digit(text::decimal(nanos)[later]));
            }
        } else {
            assert(line[j] == prefix[j]);
        }
    }
    text::lemma_text_before(line, ':', bookmark.len() as int);
    assert(line.take(bookmark.len() as int) =~= bookmark);
    assert(bookmark.take(prefix.len() as int) =~= prefix);
    assert(bookmark.skip(prefix.len() as int) =~= suffix);
    if !base {
        assert(bookmark.take(BASE_BOOKMARK_PREFIX@.len() as int)[14] == 'c');
    }
    assert forall|j: int| 0 <= j < text::decimal(pid).len() implies suffix[j] != '-' by {
        assert(text::is_digit(text::decimal(pid)[j]));
    }
    text::lemma_text_before(suffix, '-', text::decimal(pid).len() as int);
    assert(suffix.take(text::decimal(pid).len() as int) =~= text::decimal(pid));
}

// ---------------------------------------------------------------------------
// Export of a base and a candidate

/// The bookmarks of an export, told apart from others by a suffix.
pub open spec fn export_bookmarks(suffix: Seq<char>) -> Seq<Seq<char>> {
    seq![].push(BASE_BOOKMARK_PREFIX@ + suffix).push(CANDIDATE_BOOKMARK_PREFIX@ + suffix)
}

/// Gives a revision a bookmark.
pub open spec fn jj_bookmark_create(
    root: Seq<char>,
    revision: Seq<char>,
    bookmark: Seq<char>,
) -> CmdView {
    duct_util::bare_command("jj"@).arg("bookmark"@).arg("create"@).arg("--quiet"@).arg("-r"@).arg(
        revision,
    ).arg(bookmark).dir(root)
}

/// Asks where the Git repository below a Jujutsu repository is.
pub open spec fn jj_git_root(root: Seq<char>) -> CmdView {
    duct_util::bare_command("jj"@).arg("git"@).arg("root"@).dir(root)
}

/// Where the two revisions go.
pub struct ExportView {
    pub root: Seq<char>,
    pub base_dir: Seq<char>,
    pub base: Seq<char>,
    pub candidate_dir: Seq<char>,
    pub candidate: Seq<char>,
    pub clone_mode: CloneMode,
    pub suffix: Seq<char>,
}

/// What is exported, and where it goes.
#[derive(Debug)]
pub struct Export {
    pub root_dir: String,
    pub base_workdir: String,
    pub base_revision: CommitId,
    pub candidate_workdir: String,
    pub candidate_revision: CommitId,
    pub clone_mode: CloneMode,
    /// Tells the bookmarks of this export from those of others. See [`new_export_suffix`].
    pub suffix: String,
}

impl View for Export {
    type V = ExportView;

    open spec fn view(&self) -> ExportView {
        ExportView {
            root: self.root_dir@,
            base_dir: self.base_workdir@,
            base: self.base_revision@,
            candidate_dir: self.candidate_workdir@,
            candidate: self.candidate_revision@,
            clone_mode: self.clone_mode,
            suffix: self.suffix@,
        }
    }
}

/// The commands that clone both revisions from a repository.
pub open spec fn clone_both(e: ExportView, repository: Seq<char>) -> Seq<InvocationView> {
    clone_commands(file_url(repository), e.base_dir, e.base, e.clone_mode) + clone_commands(
        file_url(repository),
        e.candidate_dir,
        e.candidate,
        e.clone_mode,
    )
}

/// The commands that make both revisions reachable for a clone: without a
/// bookmark, Git would not see them.
pub open spec fn jj_publish_both(e: ExportView) -> Seq<InvocationView> {
    seq![].push(
        script::run_of(jj_bookmark_create(e.root, e.base, BASE_BOOKMARK_PREFIX@ + e.suffix)),
    ).push(
        script::run_of(
            jj_bookmark_create(e.root, e.candidate, CANDIDATE_BOOKMARK_PREFIX@ + e.suffix),
        ),
    ).push(script::run_of(revision::jj_git_export(e.root)))
}

/// The export from a Jujutsu repository, but for the cleanup after it.
pub open spec fn jj_export(e: ExportView, replies: Seq<Reply>) -> ListView {
    match list_step(jj_publish_both(e), replies, 0) {
        ListView::Run(inv) => ListView::Run(inv),
        ListView::Failed { message, next } => ListView::Failed { message, next },
        ListView::Done { next } => if replies.len() <= next {
            ListView::Run(script::read_of(jj_git_root(e.root)))
        } else {
            match replies[next as int] {
                Reply::Failed(m) => ListView::Failed { message: m@, next: next + 1 },
                Reply::Output { text, .. } => list_step(
                    clone_both(e, text::trimmed(text@)),
                    replies,
                    next + 1,
                ),
            }
        },
    }
}

/// What came of looking up processes.
#[derive(Debug)]
pub struct Processes {
    /// Whether processes can be looked up at all.
    pub known: bool,
    /// For each line of the listing, whether its process exists.
    pub exist: Vec<bool>,
}

/// What has come of the steps of an export so far.
#[derive(Debug)]
pub struct ExportHistory {
    pub listing: Option<Reply>,
    pub processes: Option<Processes>,
    pub deletions: Vec<Reply>,
    pub replies: Vec<Reply>,
}

/// The next step of an export. Each of the commands says where its reply goes.
#[derive(Debug)]
pub enum ExportStep {
    /// Run this; the reply is the listing of the bookmarks.
    List(Invocation),
    /// Say for each line of the listing whether its process exists, where it has one.
    LookUp(Vec<Option<String>>),
    /// Run this; the reply is one of the deletions.
    Delete(Invocation),
    /// Run this; the reply is one of the export's own.
    Run(Invocation),
    Done,
    Fail(MainError),
}

/// What an [`ExportStep`] stands for.
pub enum ExportStepView {
    List(InvocationView),
    LookUp(Seq<Option<Seq<char>>>),
    Delete(InvocationView),
    Run(InvocationView),
    Done,
    Fail(MainErrorView),
}

impl View for ExportStep {
    type V = ExportStepView;

    open spec fn view(&self) -> ExportStepView {
        match *self {
            ExportStep::List(inv) => ExportStepView::List(inv@),
            ExportStep::LookUp(pids) => ExportStepView::LookUp(
                pids@.map_values(|pid: Option<String>| pid.deep_view()),
            ),
            ExportStep::Delete(inv) => ExportStepView::Delete(inv@),
            ExportStep::Run(inv) => ExportStepView::Run(inv@),
            ExportStep::Done => ExportStepView::Done,
            ExportStep::Fail(e) => ExportStepView::Fail(e@),
        }
    }
}

/// The end of an export from a Jujutsu repository: after the cleanup.
pub open spec fn after_cleanup(
    e: ExportView,
    replies: Seq<Reply>,
    next: nat,
    end: ExportStepView,
) -> ExportStepView {
    match cleanup_step(e.root, export_bookmarks(e.suffix), replies, next) {
        Some(inv) => ExportStepView::Run(inv),
        None => end,
    }
}

/// Exports both revisions. With Jujutsu, the bookmarks made for it are deleted
/// whatever happens.
pub open spec fn export_step(vcs: VCS, e: ExportView, replies: Seq<Reply>) -> ExportStepView {
    match vcs {
        VCS::Git => match list_step(clone_both(e, e.root), replies, 0) {
            ListView::Run(inv) => ExportStepView::Run(inv),
            ListView::Failed { message, .. } => ExportStepView::Fail(
                MainErrorView::CommandFailed(message),
            ),
            ListView::Done { .. } => ExportStepView::Done,
        },
        VCS::Jujutsu => match jj_export(e, replies) {
            ListView::Run(inv) => ExportStepView::Run(inv),
            ListView::Failed { message, next } => after_cleanup(
                e,
                replies,
                next,
                ExportStepView::Fail(MainErrorView::CommandFailed(message)),
            ),
            ListView::Done { next } => after_cleanup(e, replies, next, ExportStepView::Done),
        },
    }
}

/// Lists the bookmarks.
pub open spec fn jj_bookmark_list(root: Seq<char>) -> CmdView {
    duct_util::bare_command("jj"@).arg("bookmark"@).arg("list"@).dir(root)
}

/// The deletion of bookmarks that exports left behind, until it is over. It is
/// over at once where they cannot be listed.
pub open spec fn stale_step(root: Seq<char>, h: ExportHistory) -> Option<ExportStepView> {
    match h.listing {
        None => Some(ExportStepView::List(script::read_of(jj_bookmark_list(root)))),
        Some(Reply::Failed(_)) => None,
        Some(Reply::Output { text: listing, .. }) => {
            let lines = text::lines(listing@);
            match h.processes {
                None => Some(
                    ExportStepView::LookUp(lines.map_values(|line: Seq<char>| export_pid(line))),
                ),
                Some(p) => match cleanup_step(
                    root,
                    stale_bookmarks(lines, p.known, p.exist@),
                    h.deletions@,
                    0,
                ) {
                    Some(inv) => Some(ExportStepView::Delete(inv)),
                    None => None,
                },
            }
        },
    }
}

/// Exports both revisions. With Jujutsu, what exports left behind goes first.
pub open spec fn copy_step(vcs: VCS, e: ExportView, h: ExportHistory) -> ExportStepView {
    let stale = match vcs {
        VCS::Jujutsu => stale_step(e.root, h),
        VCS::Git => None,
    };
    match stale {
        Some(step) => step,
        None => export_step(vcs, e, h.replies@),
    }
}

fn push_run(commands: &mut Vec<Invocation>, cmd: Cmd)
    ensures
        invocation_views(final(commands)@) == invocation_views(old(commands)@).push(
            script::run_of(cmd@),
        ),
        final(commands).len() == old(commands).len() + 1,
{
    let inv = Invocation::run(cmd);
    commands.push(inv);
    assert(invocation_views(commands@) =~= invocation_views(old(commands)@).push(inv@));
}

fn clones(e: &Export, jj_git_dir: Option<&str>) -> (res: Vec<Invocation>)
    ensures
        invocation_views(res@) == clone_both(
            e@,
            match jj_git_dir {
                Some(dir) => dir@,
                None => e@.root,
            },
        ),
        res.len() <= 8,
{
    let base = e.base_workdir.as_str();
    let candidate = e.candidate_workdir.as_str();
    let mut commands = match jj_git_dir {
        Some(dir) => copy_revision_to_workdir_jj(
            base,
            e.base_revision.as_str(),
            dir,
            e.clone_mode,
        ),
        None => copy_revision_to_workdir_git(
            e.root_dir.as_str(),
            base,
            e.base_revision.as_str(),
            e.clone_mode,
        ),
    };
    let mut more = match jj_git_dir {
        Some(dir) => copy_revision_to_workdir_jj(
            candidate,
            e.candidate_revision.as_str(),
            dir,
            e.clone_mode,
        ),
        None => copy_revision_to_workdir_git(
            e.root_dir.as_str(),
            candidate,
            e.candidate_revision.as_str(),
            e.clone_mode,
        ),
    };
    let ghost first = commands@;
    let ghost second = more@;
    commands.append(&mut more);
    assert(invocation_views(commands@) =~= invocation_views(first) + invocation_views(second));
    commands
}

fn export_from_jj(e: &Export, replies: &Vec<Reply>) -> (res: ListProgress)
    ensures
        res@ == jj_export(e@, replies@),
        res matches ListProgress::Failed { next, .. } ==> next <= 20 && next <= replies.len(),
        res matches ListProgress::Done { next } ==> next <= 20 && next <= replies.len(),
{
    let root = e.root_dir.as_str();
    let base_bookmark = BASE_BOOKMARK_PREFIX.to_owned().concat(e.suffix.as_str());
    let candidate_bookmark = CANDIDATE_BOOKMARK_PREFIX.to_owned().concat(e.suffix.as_str());
    let mut commands: Vec<Invocation> = Vec::new();
    assert(invocation_views(commands@) =~= seq![]);
    push_run(
        &mut commands,
        Cmd::new("jj").arg("bookmark").arg("create").arg("--quiet").arg("-r").arg(
            e.base_revision.as_str(),
        ).arg(base_bookmark.as_str()).dir(root),
    );
    push_run(
        &mut commands,
        Cmd::new("jj").arg("bookmark").arg("create").arg("--quiet").arg("-r").arg(
            e.candidate_revision.as_str(),
        ).arg(candidate_bookmark.as_str()).dir(root),
    );
    push_run(
        &mut commands,
        Cmd::new("jj").arg("git").arg("export").arg("--quiet").dir(root),
    );
    proof {
        lemma_list_next(jj_publish_both(e@), replies@, 0);
    }
    let next: usize = match run_list(commands, replies, 0) {
        ListProgress::Run(inv) => return ListProgress::Run(inv),
        ListProgress::Failed { message, next } => {
            return ListProgress::Failed { message, next };
        },
        ListProgress::Done { next } => next,
    };
    if replies.len() <= next {
        let cmd = Cmd::new("jj").arg("git").arg("root").dir(root);
        return ListProgress::Run(Invocation::read(cmd));
    }
    match &replies[next] {
        Reply::Failed(m) => ListProgress::Failed { message: m.clone(), next: next + 1 },
        Reply::Output { text, .. } => {
            let git_dir = text::trim(text.as_str());
            proof {
                lemma_list_next(clone_both(e@, git_dir@), replies@, (next + 1) as nat);
            }
            let commands = clones(e, Some(git_dir.as_str()));
            run_list(commands, replies, next + 1)
        },
    }
}

proof fn lemma_list_next(commands: Seq<InvocationView>, replies: Seq<Reply>, from: nat)
    requires
        from <= replies.len(),
    ensures
        list_step(commands, replies, from) matches ListView::Failed { next, .. } ==> from < next
            <= replies.len(),
        list_step(commands, replies, from) matches ListView::Done { next } ==> from <= next
            <= replies.len(),
    decreases commands.len(),
{
    if commands.len() > 0 && replies.len() > from && replies[from as int] is Output {
        lemma_list_next(commands.drop_first(), replies, from + 1);
    }
}

fn export_revisions(vcs: &VCS, e: &Export, replies: &Vec<Reply>) -> (res: ExportStep)
    ensures
        res@ == export_step(*vcs, e@, replies@),
{
    match vcs {
        VCS::Git => {
            let commands = clones(e, None);
            match run_list(commands, replies, 0) {
                ListProgress::Run(inv) => ExportStep::Run(inv),
                ListProgress::Failed { message, .. } => ExportStep::Fail(
                    MainError::CommandFailed(message),
                ),
                ListProgress::Done { .. } => ExportStep::Done,
            }
        },
        VCS::Jujutsu => {
            let (end, next): (ExportStep, usize) = match export_from_jj(e, replies) {
                ListProgress::Run(inv) => return ExportStep::Run(inv),
                ListProgress::Failed { message, next } => (
                    ExportStep::Fail(MainError::CommandFailed(message)),
                    next,
                ),
                ListProgress::Done { next } => (ExportStep::Done, next),
            };
            let mut bookmarks: Vec<String> = Vec::new();
            bookmarks.push(BASE_BOOKMARK_PREFIX.to_owned().concat(e.suffix.as_str()));
            bookmarks.push(CANDIDATE_BOOKMARK_PREFIX.to_owned().concat(e.suffix.as_str()));
            assert(text::texts(bookmarks@) =~= export_bookmarks(e@.suffix));
            match cleanup_jj_export_bookmarks(e.root_dir.as_str(), &bookmarks, replies, next) {
                Some(inv) => ExportStep::Run(inv),
                None => end,
            }
        },
    }
}

/// The processes whose existence decides which bookmarks of a listing were left behind.
fn listed_pids(listing: &str) -> (res: Vec<Option<String>>)
    ensures
        res@.map_values(|pid: Option<String>| pid.deep_view()) == text::lines(
            listing@,
        ).map_values(|line: Seq<char>| export_pid(line)),
{
    let lines = text::split_lines(listing);
    let mut res: Vec<Option<String>> = Vec::new();
    let mut i: usize = 0;
    while i < lines.len()
        invariant
            i <= lines.len(),
            i == res.len(),
            forall|j: int|
                0 <= j < i ==> (#[trigger] res@[j]).deep_view() == export_pid(lines@[j]@),
        decreases lines.len() - i,
    {
        res.push(export_bookmark_pid(lines[i].as_str()));
        i = i + 1;
    }
    proof {
        let all = text::lines(listing@);
        assert(text::texts(lines@) == all);
        assert forall|j: int| 0 <= j < all.len() implies (#[trigger] res@[j]).deep_view()
            == export_pid(all[j]) by {
            assert(all[j] == lines@[j]@);
        }
        assert(res@.map_values(|pid: Option<String>| pid.deep_view()) =~= all.map_values(
            |line: Seq<char>| export_pid(line),
        ));
    }
    res
}

/// Deletes the bookmarks that exports left behind, given what has come of it so
/// far. There is no next step once it is over, whatever has come of it.
pub fn cleanup_stale_jj_export_bookmarks(root_dir: &str, h: &ExportHistory) -> (res: Option<
    ExportStep,
>)
    ensures
        match stale_step(root_dir@, *h) {
            Some(step) => res matches Some(s) && s@ == step,
            None => res is None,
        },
{
    let listing = match &h.listing {
        None => {
            let cmd = Cmd::new("jj").arg("bookmark").arg("list").dir(root_dir);
            return Some(ExportStep::List(Invocation::read(cmd)));
        },
        Some(Reply::Failed(_)) => return None,
        Some(Reply::Output { text, .. }) => text.as_str(),
    };
    match &h.processes {
        None => Some(ExportStep::LookUp(listed_pids(listing))),
        Some(p) => {
            let stale = stale_export_bookmarks(listing, p.known, &p.exist);
            match cleanup_jj_export_bookmarks(root_dir, &stale, &h.deletions, 0) {
                Some(inv) => Some(ExportStep::Delete(inv)),
                None => None,
            }
        },
    }
}

/// Exports both revisions into their directories, given what has come of it so far.
pub fn copy_revisions_to_workdirs(vcs: &VCS, e: &Export, h: &ExportHistory) -> (res: ExportStep)
    ensures
        res@ == copy_step(*vcs, e@, *h),
{
    match vcs {
        VCS::Jujutsu => match cleanup_stale_jj_export_bookmarks(e.root_dir.as_str(), h) {
            Some(step) => step,
            None => export_revisions(vcs, e, &h.replies),
        },
        VCS::Git => export_revisions(vcs, e, &h.replies),
    }
}

proof fn lemma_stale_bookmarks(
    lines: Seq<Seq<char>>,
    processes_known: bool,
    exist: Seq<bool>,
    k: int,
) -> (line: int)
    requires
        0 <= k < stale_bookmarks(lines, processes_known, exist).len(),
    ensures
        0 <= line < lines.len(),
        stale_bookmark(lines[line], processes_known, taken_to_exist(exist, line)) == Some(
            stale_bookmarks(lines, processes_known, exist)[k],
        ),
    decreases lines.len(),
{
    let earlier = stale_bookmarks(lines.drop_last(), processes_known, exist);
    if k < earlier.len() {
        lemma_stale_bookmarks(lines.drop_last(), processes_known, exist, k)
    } else {
        lines.len() - 1
    }
}

/// Whether a command deletes the bookmark of a line of a listing that was
/// found to be left behind.
pub open spec fn deletes_abandoned(
    root: Seq<char>,
    lines: Seq<Seq<char>>,
    exist: Seq<bool>,
    line: int,
    inv: InvocationView,
) -> bool {
    &&& 0 <= line < lines.len()
    &&& line < exist.len() && !exist[line]
    &&& stale_bookmark(lines[line], true, false) matches Some(bookmark) && inv == script::run_of(
        jj_bookmark_delete(root, bookmark),
    )
}

/// What is deleted before an export was left behind: it is the bookmark of a
/// line of the listing whose process was looked up and found not to exist. Once
/// any is deleted, that is exported too. And what comes of the deletions never
/// fails the export.
pub proof fn law_cleanup_spares_live_exports(vcs: VCS, e: ExportView, h: ExportHistory)
    ensures
        copy_step(vcs, e, h) matches ExportStepView::Delete(inv) ==> {
            ||| inv == script::run_of(revision::jj_git_export(e.root))
            ||| exists|line: int| #[trigger]
                deletes_abandoned(
                    e.root,
                    text::lines(h.listing->0->text@),
                    h.processes->0.exist@,
                    line,
                    inv,
                )
        },
        copy_step(vcs, e, h) is Fail ==> copy_step(vcs, e, h) == export_step(vcs, e, h.replies@),
{
    if copy_step(vcs, e, h) is Delete {
        let lines = text::lines(h.listing->0->text@);
        let p = h.processes->0;
        let stale = stale_bookmarks(lines, p.known, p.exist@);
        if h.deletions@.len() < stale.len() {
            let line = lemma_stale_bookmarks(lines, p.known, p.exist@, h.deletions@.len() as int);
            assert(deletes_abandoned(
                e.root,
                lines,
                p.exist@,
                line,
                copy_step(vcs, e, h)->Delete_0,
            ));
        }
    }
}

proof fn lemma_list_prefix(
    commands: Seq<InvocationView>,
    replies: Seq<Reply>,
    from: nat,
    k: int,
)
    requires
        from <= replies.len(),
        k <= replies.len(),
        match list_step(commands, replies, from) {
            ListView::Run(_) => false,
            ListView::Failed { next, .. } => next <= k,
            ListView::Done { next } => next <= k,
        },
    ensures
        list_step(commands, replies.take(k), from) == list_step(commands, replies, from),
    decreases commands.len(),
{
    lemma_list_next(commands, replies, from);
    if commands.len() > 0 {
        assert(replies.len() > from);
        if replies[from as int] is Output {
            lemma_list_next(commands.drop_first(), replies, from + 1);
            lemma_list_prefix(commands.drop_first(), replies, from + 1, k);
        }
        assert(k > from);
        assert(replies.take(k)[from as int] == replies[from as int]);
    }
}

/// Where the replies of an export end and those of its cleanup begin.
pub open spec fn export_end(e: ExportView, replies: Seq<Reply>) -> nat {
    match jj_export(e, replies) {
        ListView::Run(_) => replies.len(),
        ListView::Failed { next, .. } => next,
        ListView::Done { next } => next,
    }
}

/// The bookmarks of an export are deleted on every path: an export from a
/// Jujutsu repository ends, well or badly, only after both deletions were run.
pub proof fn law_export_bookmarks_are_deleted(e: ExportView, replies: Seq<Reply>)
    requires
        !(export_step(VCS::Jujutsu, e, replies) is Run),
    ensures
        ({
            let n = export_end(e, replies) as int;
            &&& n + 2 <= replies.len()
            &&& export_step(VCS::Jujutsu, e, replies.take(n)) == ExportStepView::Run(
                script::run_of(jj_bookmark_delete(e.root, BASE_BOOKMARK_PREFIX@ + e.suffix)),
            )
            &&& export_step(VCS::Jujutsu, e, replies.take(n + 1)) == ExportStepView::Run(
                script::run_of(
                    jj_bookmark_delete(e.root, CANDIDATE_BOOKMARK_PREFIX@ + e.suffix),
                ),
            )
        }),
{
    let n = export_end(e, replies) as int;
    lemma_export_prefix(e, replies, n);
    lemma_export_prefix(e, replies, n + 1);
}

proof fn lemma_export_prefix(e: ExportView, replies: Seq<Reply>, k: int)
    requires
        !(jj_export(e, replies) is Run),
        export_end(e, replies) <= k <= replies.len(),
    ensures
        jj_export(e, replies.take(k)) == jj_export(e, replies),
{
    let first = jj_publish_both(e);
    lemma_list_next(first, replies, 0);
    match list_step(first, replies, 0) {
        ListView::Run(_) => {},
        ListView::Failed { .. } => {
            lemma_list_prefix(first, replies, 0, k);
        },
        ListView::Done { next } => {
            assert(replies.len() > next);
            match replies[next as int] {
                Reply::Failed(_) => {},
                Reply::Output { text, .. } => {
                    let second = clone_both(e, text::trimmed(text@));
                    lemma_list_next(second, replies, next + 1);
                    lemma_list_prefix(second, replies, next + 1, k);
                },
            }
            assert(next < k);
            lemma_list_prefix(first, replies, 0, k);
            assert(replies.take(k)[next as int] == replies[next as int]);
        },
    }
}

// ---------------------------------------------------------------------------
// Attestation

/// How far the comparison of a directory with its commit has come.
pub enum TreeView {
    Run(InvocationView),
    Failed(Seq<char>),
    Done(bool),
}

/// Compares a directory with a commit: all of it that is not ignored is
/// staged, and the tree that results must be that of the commit. The first
/// reply is the `from`th.
pub open spec fn tree_step(
    dir: Seq<char>,
    commit: Seq<char>,
    replies: Seq<Reply>,
    from: int,
) -> TreeView {
    if replies.len() <= from {
        TreeView::Run(script::run_quiet_of(git_in(dir).arg("add"@).arg("--all"@)))
    } else if let Reply::Failed(m) = replies[from] {
        TreeView::Failed(m@)
    } else if replies.len() <= from + 1 {
        TreeView::Run(script::read_of(git_in(dir).arg("write-tree"@)))
    } else {
        match replies[from + 1] {
            Reply::Failed(m) => TreeView::Failed(m@),
            Reply::Output { text: staged, .. } => if replies.len() <= from + 2 {
                TreeView::Run(
                    script::read_of(git_in(dir).arg("rev-parse"@).arg(commit + "^{tree}"@)),
                )
            } else {
                match replies[from + 2] {
                    Reply::Failed(m) => TreeView::Failed(m@),
                    Reply::Output { text: committed, .. } => TreeView::Done(
                        text::trimmed(staged@) == text::trimmed(committed@),
                    ),
                }
            },
        }
    }
}

/// Whether both directories still hold what was exported into them.
pub open spec fn attest_step(e: ExportView, replies: Seq<Reply>) -> StepView<bool, MainErrorView> {
    match tree_step(e.base_dir, e.base, replies, 0) {
        TreeView::Run(inv) => StepView::Run(inv),
        TreeView::Failed(m) => StepView::Fail(MainErrorView::CommandFailed(m)),
        TreeView::Done(base_same) => match tree_step(e.candidate_dir, e.candidate, replies, 3) {
            TreeView::Run(inv) => StepView::Run(inv),
            TreeView::Failed(m) => StepView::Fail(MainErrorView::CommandFailed(m)),
            TreeView::Done(candidate_same) => StepView::Done(base_same && candidate_same),
        },
    }
}

/// How far the comparison of a directory with its commit has come.
enum TreeProgress {
    Run(Invocation),
    Failed(String),
    Done(bool),
}

impl View for TreeProgress {
    type V = TreeView;

    closed spec fn view(&self) -> TreeView {
        match *self {
            TreeProgress::Run(inv) => TreeView::Run(inv@),
            TreeProgress::Failed(m) => TreeView::Failed(m@),
            TreeProgress::Done(same) => TreeView::Done(same),
        }
    }
}

fn compare_tree(dir: &str, commit: &str, replies: &Vec<Reply>, from: usize) -> (res: TreeProgress)
    requires
        from <= 3,
    ensures
        res@ == tree_step(dir@, commit@, replies@, from as int),
{
    if replies.len() <= from {
        return TreeProgress::Run(
            Invocation::run_quiet(git_cmd(dir).arg("add").arg("--all")),
        );
    }
    match &replies[from] {
        Reply::Failed(m) => return TreeProgress::Failed(m.clone()),
        Reply::Output { .. } => {},
    }
    if replies.len() <= from + 1 {
        return TreeProgress::Run(Invocation::read(git_cmd(dir).arg("write-tree")));
    }
    let staged = match &replies[from + 1] {
        Reply::Failed(m) => return TreeProgress::Failed(m.clone()),
        Reply::Output { text, .. } => text::trim(text.as_str()),
    };
    if replies.len() <= from + 2 {
        let tree = commit.to_owned().concat("^{tree}");
        return TreeProgress::Run(
            Invocation::read(git_cmd(dir).arg("rev-parse").arg(tree.as_str())),
        );
    }
    match &replies[from + 2] {
        Reply::Failed(m) => TreeProgress::Failed(m.clone()),
        Reply::Output { text, .. } => {
            let committed = text::trim(text.as_str());
            TreeProgress::Done(text::same_text(staged.as_str(), committed.as_str()))
        },
    }
}

/// Whether both directories still hold what was exported into them, given the
/// replies of the commands run so far. Ignored files are left out.
pub fn attest_workdirs(e: &Export, replies: &Vec<Reply>) -> (res: Step<bool, MainError>)
    ensures
        res@ == attest_step(e@, replies@),
{
    let base_same = match compare_tree(
        e.base_workdir.as_str(),
        e.base_revision.as_str(),
        replies,
        0,
    ) {
        TreeProgress::Run(inv) => return Step::Run(inv),
        TreeProgress::Failed(m) => return Step::Fail(MainError::CommandFailed(m)),
        TreeProgress::Done(same) => same,
    };
    match compare_tree(
        e.candidate_workdir.as_str(),
        e.candidate_revision.as_str(),
        replies,
        3,
    ) {
        TreeProgress::Run(inv) => Step::Run(inv),
        TreeProgress::Failed(m) => Step::Fail(MainError::CommandFailed(m)),
        TreeProgress::Done(same) => Step::Done(base_same && same),
    }
}

/// Whether the first `n` replies from the `from`th on tell of success.
pub open spec fn all_ran(replies: Seq<Reply>, from: nat, n: nat) -> bool {
    &&& from + n <= replies.len()
    &&& forall|i: int| from <= i < from + n ==> (#[trigger] replies[i]) is Output
}

/// A list of commands runs in its order, one after another. It is done once all
/// have run, and the first that fails ends it.
pub proof fn law_lists_run_in_order(
    commands: Seq<InvocationView>,
    replies: Seq<Reply>,
    from: nat,
    n: nat,
)
    requires
        n <= commands.len(),
        all_ran(replies, from, n),
    ensures
        n < commands.len() && replies.len() == from + n ==> list_step(commands, replies, from)
            == ListView::Run(commands[n as int]),
        n < commands.len() && replies.len() > from + n && replies[(from + n) as int] is Failed
            ==> list_step(commands, replies, from) == (ListView::Failed {
            message: replies[(from + n) as int]->Failed_0@,
            next: from + n + 1,
        }),
        n == commands.len() ==> list_step(commands, replies, from) == (ListView::Done {
            next: from + n,
        }),
    decreases n,
{
    if n > 0 {
        assert(replies[from as int] is Output);
        law_lists_run_in_order(commands.drop_first(), replies, from + 1, (n - 1) as nat);
    }
}

/// The commands that bring a revision into a directory: a whole clone or one
/// without the contents of files, from the given URL, and a checkout of exactly
/// that revision; or else a fetch of nothing but that revision and a checkout of
/// what was fetched. Each must succeed.
pub proof fn law_clones_check_the_revision_out(
    url: Seq<char>,
    dir: Seq<char>,
    revision: Seq<char>,
    mode: CloneMode,
)
    ensures
        ({
            let full = clone_commands(url, dir, revision, CloneMode::Full);
            let partial = clone_commands(url, dir, revision, CloneMode::Partial);
            let shallow = clone_commands(url, dir, revision, CloneMode::Shallow);
            &&& full.len() == 2
            &&& duct_util::is_command(
                full[0].cmd,
                "git"@,
                seq!["clone"@, "--quiet"@, url, "."@],
                dir,
            )
            &&& duct_util::is_command(
                full[1].cmd,
                "git"@,
                seq!["checkout"@, "--quiet"@, revision],
                dir,
            )
            &&& partial.len() == 2
            &&& duct_util::is_command(
                partial[0].cmd,
                "git"@,
                seq![
                    "clone"@,
                    "--quiet"@,
                    "--filter=blob:none"@,
                    "--no-checkout"@,
                    url,
                    "."@,
                ],
                dir,
            )
            &&& duct_util::is_command(
                partial[1].cmd,
                "git"@,
                seq!["checkout"@, "--quiet"@, revision],
                dir,
            )
            &&& shallow.len() == 4
            &&& duct_util::is_command(shallow[0].cmd, "git"@, seq!["init"@, "--quiet"@], dir)
            &&& duct_util::is_command(
                shallow[1].cmd,
                "git"@,
                seq!["remote"@, "add"@, "origin"@, url],
                dir,
            )
            &&& duct_util::is_command(
                shallow[2].cmd,
                "git"@,
                seq!["fetch"@, "--quiet"@, "--depth=1"@, "origin"@, revision],
                dir,
            )
            &&& duct_util::is_command(
                shallow[3].cmd,
                "git"@,
                seq!["checkout"@, "--quiet"@, "FETCH_HEAD"@],
                dir,
            )
        }),
        forall|i: int|
            0 <= i < clone_commands(url, dir, revision, mode).len() ==> !(#[trigger] clone_commands(
                url,
                dir,
                revision,
                mode,
            )[i]).unchecked,
{
}

/// An export from Git clones the base from the repository into its directory and
/// then what is tested into the other one, in the given mode. It is done once all
/// of that has succeeded, and the first failure fails it.
pub proof fn law_git_exports_clone_both(e: ExportView, replies: Seq<Reply>, n: nat)
    requires
        all_ran(replies, 0, n),
    ensures
        ({
            let url = "file://"@ + e.root;
            let base = clone_commands(url, e.base_dir, e.base, e.clone_mode);
            let tested = clone_commands(url, e.candidate_dir, e.candidate, e.clone_mode);
            &&& n < base.len() && replies.len() == n ==> export_step(VCS::Git, e, replies)
                == ExportStepView::Run(base[n as int])
            &&& base.len() <= n < base.len() + tested.len() && replies.len() == n ==> export_step(
                VCS::Git,
                e,
                replies,
            ) == ExportStepView::Run(tested[n - base.len()])
            &&& n == base.len() + tested.len() ==> export_step(VCS::Git, e, replies) is Done
            &&& n < base.len() + tested.len() && replies.len() > n && replies[n as int] is Failed
                ==> export_step(VCS::Git, e, replies) == ExportStepView::Fail(
                MainErrorView::CommandFailed(replies[n as int]->Failed_0@),
            )
        }),
{
    let both = clone_both(e, e.root);
    if n <= both.len() {
        law_lists_run_in_order(both, replies, 0, n);
    }
}

/// An export from Jujutsu first gives each of the two revisions a bookmark of its
/// own, the base and then what is tested, and makes them known to Git; without
/// these no clone would hold them. It then asks where the Git repository is.
pub proof fn law_jj_exports_bookmark_both(e: ExportView, replies: Seq<Reply>, n: nat)
    requires
        n <= 3,
        replies.len() == n,
        all_ran(replies, 0, n),
    ensures
        export_step(VCS::Jujutsu, e, replies) matches ExportStepView::Run(inv) && !inv.unchecked
            && (if n == 0 {
            duct_util::is_command(
                inv.cmd,
                "jj"@,
                seq![
                    "bookmark"@,
                    "create"@,
                    "--quiet"@,
                    "-r"@,
                    e.base,
                    "selfci-export-base-"@ + e.suffix,
                ],
                e.root,
            )
        } else if n == 1 {
            duct_util::is_command(
                inv.cmd,
                "jj"@,
                seq![
                    "bookmark"@,
                    "create"@,
                    "--quiet"@,
                    "-r"@,
                    e.candidate,
                    "selfci-export-candidate-"@ + e.suffix,
                ],
                e.root,
            )
        } else if n == 2 {
            duct_util::is_command(inv.cmd, "jj"@, seq!["git"@, "export"@, "--quiet"@], e.root)
        } else {
            duct_util::is_command(inv.cmd, "jj"@, seq!["git"@, "root"@], e.root)
        }),
{
    law_lists_run_in_order(jj_publish_both(e), replies, 0, n);
}

/// Once Jujutsu has told where its Git repository is, both revisions are cloned
/// from there, as from any Git repository, and then the bookmarks are deleted. A
/// failure fails the export, and only after the bookmarks were deleted.
pub proof fn law_jj_exports_clone_both(e: ExportView, replies: Seq<Reply>, n: nat)
    requires
        n >= 4,
        all_ran(replies, 0, n),
    ensures
        ({
            let url = "file://"@ + text::trimmed(replies[3]->text@);
            let base = clone_commands(url, e.base_dir, e.base, e.clone_mode);
            let tested = clone_commands(url, e.candidate_dir, e.candidate, e.clone_mode);
            let end = (4 + base.len() + tested.len()) as nat;
            &&& n < 4 + base.len() && replies.len() == n ==> export_step(VCS::Jujutsu, e, replies)
                == ExportStepView::Run(base[n - 4])
            &&& 4 + base.len() <= n < end && replies.len() == n ==> export_step(
                VCS::Jujutsu,
                e,
                replies,
            ) == ExportStepView::Run(tested[n - 4 - base.len()])
            &&& n == end && replies.len() > end + 2 ==> export_step(VCS::Jujutsu, e, replies)
                is Done
            &&& n < end && replies.len() > n + 3 && replies[n as int] is Failed ==> export_step(
                VCS::Jujutsu,
                e,
                replies,
            ) == ExportStepView::Fail(MainErrorView::CommandFailed(replies[n as int]->Failed_0@))
        }),
{
    law_lists_run_in_order(jj_publish_both(e), replies, 0, 3);
    assert(replies[3] is Output);
    let both = clone_both(e, text::trimmed(replies[3]->text@));
    if n <= 4 + both.len() {
        assert(all_ran(replies, 4, (n - 4) as nat));
        law_lists_run_in_order(both, replies, 4, (n - 4) as nat);
    }
}

/// A cleanup deletes the bookmarks that it was given, in their order, and exports
/// once if any could be deleted.
pub proof fn law_cleanups_delete_what_they_are_given(
    root: Seq<char>,
    bookmarks: Seq<Seq<char>>,
    replies: Seq<Reply>,
    from: nat,
)
    requires
        from <= replies.len(),
    ensures
        replies.len() < from + bookmarks.len() ==> (cleanup_step(root, bookmarks, replies, from)
            matches Some(inv) && duct_util::is_command(
            inv.cmd,
            "jj"@,
            seq!["bookmark"@, "delete"@, "--quiet"@, bookmarks[replies.len() - from]],
            root,
        )),
        replies.len() == from + bookmarks.len() && (exists|i: int|
            from <= i < replies.len() && (#[trigger] replies[i]) is Output) ==> (cleanup_step(
            root,
            bookmarks,
            replies,
            from,
        ) matches Some(inv) && duct_util::is_command(
            inv.cmd,
            "jj"@,
            seq!["git"@, "export"@, "--quiet"@],
            root,
        )),
        replies.len() == from + bookmarks.len() && (forall|i: int|
            from <= i < replies.len() ==> !((#[trigger] replies[i]) is Output)) ==> cleanup_step(
            root,
            bookmarks,
            replies,
            from,
        ) is None,
        replies.len() > from + bookmarks.len() ==> cleanup_step(root, bookmarks, replies, from)
            is None,
{
}

/// The bookmarks that an export cleans up are the two that it made.
pub proof fn law_exports_clean_up_their_own_bookmarks(suffix: Seq<char>)
    ensures
        export_bookmarks(suffix) == seq![
            "selfci-export-base-"@ + suffix,
            "selfci-export-candidate-"@ + suffix,
        ],
{
    assert(export_bookmarks(suffix) =~= seq![
        "selfci-export-base-"@ + suffix,
        "selfci-export-candidate-"@ + suffix,
    ]);
}

/// With Jujutsu, bookmarks are listed before anything else; what a line of the
/// listing names is deleted exactly where it was found to be left behind. With Git
/// there is nothing to clean up.
pub proof fn law_cleanup_comes_first(e: ExportView, h: ExportHistory)
    ensures
        h.listing is None ==> (copy_step(VCS::Jujutsu, e, h) matches ExportStepView::List(inv)
            && duct_util::is_command(inv.cmd, "jj"@, seq!["bookmark"@, "list"@], e.root)),
        h.listing matches Some(Reply::Failed(_)) ==> copy_step(VCS::Jujutsu, e, h) == export_step(
            VCS::Jujutsu,
            e,
            h.replies@,
        ),
        h.listing is Some && h.listing->0 is Output && h.processes is None ==> (copy_step(
            VCS::Jujutsu,
            e,
            h,
        ) matches ExportStepView::LookUp(pids) && ({
            let lines = text::lines(h.listing->0->text@);
            &&& pids.len() == lines.len()
            &&& forall|i: int|
                0 <= i < lines.len() ==> #[trigger] pids[i] == export_pid(lines[i])
        })),
        copy_step(VCS::Git, e, h) == export_step(VCS::Git, e, h.replies@),
{
}

/// What is left behind is found line by line, in the order of the listing: the
/// bookmarks of those lines whose process was looked up and does not exist.
pub proof fn law_left_behind_is_found_line_by_line(
    lines: Seq<Seq<char>>,
    line: Seq<char>,
    known: bool,
    exist: Seq<bool>,
)
    ensures
        stale_bookmarks(Seq::<Seq<char>>::empty(), known, exist) == Seq::<Seq<char>>::empty(),
        known && lines.len() < exist.len() && !exist[lines.len() as int] && export_pid(line) is Some
            ==> stale_bookmarks(lines.push(line), known, exist) == stale_bookmarks(
            lines,
            known,
            exist,
        ).push(text::text_before(line, ':')),
        !known || lines.len() >= exist.len() || exist[lines.len() as int] || export_pid(line)
            is None ==> stale_bookmarks(lines.push(line), known, exist) == stale_bookmarks(
            lines,
            known,
            exist,
        ),
{
    assert(lines.push(line).drop_last() =~= lines);
}

/// The process of a bookmark is the number between the program's prefix and the
/// next hyphen; other bookmarks, and numbers that are no process, give none.
pub proof fn law_bookmarks_tell_of_a_process(
    candidate: bool,
    pid: Seq<char>,
    rest: Seq<char>,
    line: Seq<char>,
)
    requires
        !pid.contains('-') && !pid.contains(':') && !rest.contains(':'),
    ensures
        ({
            let prefix = if candidate {
                "selfci-export-candidate-"@
            } else {
                "selfci-export-base-"@
            };
            let bookmark = prefix + pid + seq!['-'] + rest;
            let shown = bookmark + seq![':'] + line;
            let number = text::natural(pid, i32::MAX as nat);
            if number is Some && number->0 > 0 {
                export_pid(shown) == Some(pid)
            } else {
                export_pid(shown) is None
            }
        }),
        !text::begins_with(text::text_before(line, ':'), "selfci-export-base-"@)
            && !text::begins_with(text::text_before(line, ':'), "selfci-export-candidate-"@)
            ==> export_pid(line) is None,
{
    reveal_strlit("selfci-export-base-");
    reveal_strlit("selfci-export-candidate-");
    let prefix = if candidate {
        "selfci-export-candidate-"@
    } else {
        "selfci-export-base-"@
    };
    let bookmark = prefix + pid + seq!['-'] + rest;
    let shown = bookmark + seq![':'] + line;
    assert(!bookmark.contains(':')) by {
        if bookmark.contains(':') {
            let i = choose|i: int| 0 <= i < bookmark.len() && bookmark[i] == ':';
            if i < prefix.len() {
                assert(bookmark[i] == prefix[i]);
            } else if i < prefix.len() + pid.len() {
                assert(bookmark[i] == pid[i - prefix.len()]);
                assert(pid.contains(':'));
            } else if i == prefix.len() + pid.len() {
                assert(bookmark[i] == '-');
            } else {
                assert(bookmark[i] == rest[i - prefix.len() - pid.len() - 1]);
                assert(rest.contains(':'));
            }
        }
    }
    text::law_parts_end_at_separators(bookmark, line, ':');
    let suffix = pid + seq!['-'] + rest;
    assert(bookmark =~= prefix + suffix);
    text::law_prefixes_come_first(prefix, suffix, bookmark);
    if candidate {
        assert(bookmark[14] == 'c');
        if text::begins_with(bookmark, "selfci-export-base-"@) {
            assert(bookmark.take("selfci-export-base-"@.len() as int)[14] == 'b');
        }
    }
    text::law_parts_end_at_separators(pid, rest, '-');
}

/// Both directories are compared, each with its own commit: everything in it is
/// staged, and the tree that is written is compared with the tree of the commit.
/// They are attested exactly where both pairs of trees are the same.
#[verifier::spinoff_prover]
#[verifier::rlimit(100)]
pub proof fn law_attestation_compares_trees(e: ExportView, replies: Seq<Reply>, n: nat)
    requires
        n <= 6,
        all_ran(replies, 0, n),
    ensures
        ({
            let step = attest_step(e, replies);
            let dir = if n < 3 {
                e.base_dir
            } else {
                e.candidate_dir
            };
            let commit = if n < 3 {
                e.base
            } else {
                e.candidate
            };
            &&& replies.len() == n && n < 6 ==> (step matches StepView::Run(inv) && !inv.unchecked
                && duct_util::is_command(
                inv.cmd,
                "git"@,
                if n % 3 == 0 {
                    seq!["add"@, "--all"@]
                } else if n % 3 == 1 {
                    seq!["write-tree"@]
                } else {
                    seq!["rev-parse"@, commit + "^{tree}"@]
                },
                dir,
            ))
            &&& n < 6 && replies.len() > n && replies[n as int] is Failed ==> step is Fail
            &&& n == 6 ==> step == StepView::<bool, MainErrorView>::Done(
                text::trimmed(replies[1]->text@) == text::trimmed(replies[2]->text@)
                    && text::trimmed(replies[4]->text@) == text::trimmed(replies[5]->text@),
            )
        }),
{
    assert(n > 0 ==> replies[0] is Output);
    assert(n > 1 ==> replies[1] is Output);
    assert(n > 2 ==> replies[2] is Output);
    assert(n > 3 ==> replies[3] is Output);
    assert(n > 4 ==> replies[4] is Output);
    assert(n > 5 ==> replies[5] is Output);
}

/// What an export holds is what it was made of.
pub proof fn law_exports_hold_their_parts(e: Export)
    ensures
        e@.root == e.root_dir@,
        e@.base_dir == e.base_workdir@,
        e@.base == e.base_revision@,
        e@.candidate_dir == e.candidate_workdir@,
        e@.candidate == e.candidate_revision@,
        e@.clone_mode == e.clone_mode,
        e@.suffix == e.suffix@,
{
}

/// What tells one export from others is its process and its time, in decimal.
pub proof fn law_exports_are_told_apart(pid: nat, nanos: nat)
    ensures
        made_suffix(pid, nanos) == text::decimal(pid) + "-"@ + text::decimal(nanos),
        BASE_BOOKMARK_PREFIX@ == "selfci-export-base-"@,
        CANDIDATE_BOOKMARK_PREFIX@ == "selfci-export-candidate-"@,
{
}

/// An export from Jujutsu that could not give its revisions their bookmarks, or find
/// the Git repository, fails with that reason once its bookmarks were deleted.
pub proof fn law_jj_exports_fail_before_cloning(e: ExportView, replies: Seq<Reply>, n: nat)
    requires
        n < 4,
        all_ran(replies, 0, n),
        replies.len() > n,
        replies[n as int] is Failed,
    ensures
        ({
            let step = export_step(VCS::Jujutsu, e, replies);
            &&& replies.len() < n + 3 ==> (step matches ExportStepView::Run(inv)
                && duct_util::is_command(
                inv.cmd,
                "jj"@,
                seq![
                    "bookmark"@,
                    "delete"@,
                    "--quiet"@,
                    if replies.len() == n + 1 {
                        "selfci-export-base-"@ + e.suffix
                    } else {
                        "selfci-export-candidate-"@ + e.suffix
                    },
                ],
                e.root,
            ))
            &&& replies.len() > n + 3 ==> step == ExportStepView::Fail(
                MainErrorView::CommandFailed(replies[n as int]->Failed_0@),
            )
        }),
{
    let commands = jj_publish_both(e);
    if n < 3 {
        law_lists_run_in_order(commands, replies, 0, n);
    } else {
        law_lists_run_in_order(commands, replies, 0, 3);
    }
    assert(commands.len() == 3);
    law_exports_clean_up_their_own_bookmarks(e.suffix);
    law_cleanups_delete_what_they_are_given(
        e.root,
        export_bookmarks(e.suffix),
        replies,
        n + 1,
    );
}

/// What was found to be left behind is deleted, one after the other, and then the
/// export begins, whatever came of the deletions.
pub proof fn law_left_behind_is_deleted_before_the_export(e: ExportView, h: ExportHistory)
    requires
        h.listing is Some && h.listing->0 is Output,
        h.processes is Some,
    ensures
        ({
            let step = copy_step(VCS::Jujutsu, e, h);
            let left = stale_bookmarks(
                text::lines(h.listing->0->text@),
                h.processes->0.known,
                h.processes->0.exist@,
            );
            let n = h.deletions@.len();
            &&& n < left.len() ==> (step matches ExportStepView::Delete(inv)
                && duct_util::is_command(
                inv.cmd,
                "jj"@,
                seq!["bookmark"@, "delete"@, "--quiet"@, left[n as int]],
                e.root,
            ))
            &&& n > left.len() ==> step == export_step(VCS::Jujutsu, e, h.replies@)
            &&& left.len() == 0 ==> step == export_step(VCS::Jujutsu, e, h.replies@)
        }),
{
    let left = stale_bookmarks(
        text::lines(h.listing->0->text@),
        h.processes->0.known,
        h.processes->0.exist@,
    );
    law_cleanups_delete_what_they_are_given(e.root, left, h.deletions@, 0);
}

/// What an attestation fails with is why a command of it could not be run.
pub proof fn law_attestation_fails_with_what_went_wrong(
    e: ExportView,
    replies: Seq<Reply>,
    n: nat,
)
    requires
        n < 6,
        all_ran(replies, 0, n),
        replies.len() > n,
        replies[n as int] is Failed,
    ensures
        attest_step(e, replies) == StepView::<bool, MainErrorView>::Fail(
            MainErrorView::CommandFailed(replies[n as int]->Failed_0@),
        ),
{
    assert(n > 0 ==> replies[0] is Output);
    assert(n > 1 ==> replies[1] is Output);
    assert(n > 2 ==> replies[2] is Output);
    assert(n > 3 ==> replies[3] is Output);
    assert(n > 4 ==> replies[4] is Output);
}

} // verus!
