//! Reading what Jujutsu prints for a program to read.

use vstd::prelude::*;

use crate::error::{MergeError, MergeErrorView};
use crate::revision;
use crate::revision::{ChangeId, CommitId};
use crate::text;

verus! {

/// Whether a text is a full Jujutsu change ID: 32 lower-case letters.
pub open spec fn full_change_id(s: Seq<char>) -> bool {
    s.len() == 32 && text::all_lower(s)
}

/// Whether a text is a commit ID, full or as wide as it is displayed.
pub open spec fn wide_commit_id(s: Seq<char>) -> bool {
    12 <= s.len() <= 40 && text::all_hex(s)
}

/// Whether a text is one full Jujutsu change ID.
pub fn is_full_jj_change_id(value: &str) -> (res: bool)
    ensures
        res == full_change_id(value@),
{
    match text::lower_len(value) {
        Some(n) => n == 32,
        None => false,
    }
}

/// Whether a text is a full or display-width commit ID.
pub fn is_jj_commit_id(value: &str) -> (res: bool)
    ensures
        res == wide_commit_id(value@),
{
    match text::hex_len(value) {
        Some(n) => 12 <= n && n <= 40,
        None => false,
    }
}

/// Whether a text is a full commit ID.
pub fn is_full_jj_commit_id(value: &str) -> (res: bool)
    ensures
        res == revision::is_commit_id(value@),
{
    match text::hex_len(value) {
        Some(n) => n == 40,
        None => false,
    }
}

/// The error for output that is not of the expected shape.
pub open spec fn bad_output(output: Seq<char>) -> MergeErrorView {
    MergeErrorView::ChangeIdFailed("unexpected jj machine output: "@ + text::debug_text(output))
}

/// The error for output that is not of the expected shape.
pub fn invalid_jj_machine_output(output: &str) -> (res: MergeError)
    ensures
        res@ == bad_output(output@),
{
    MergeError::ChangeIdFailed(
        String::from_str("unexpected jj machine output: ").concat(text::debug_of(output).as_str()),
    )
}

/// The change ID that an output consists of.
pub open spec fn single_change_id(output: Seq<char>) -> Option<Seq<char>> {
    let lines = text::lines(output);
    if lines.len() == 1 && full_change_id(lines[0]) {
        Some(lines[0])
    } else {
        None
    }
}

/// The commit ID that an output consists of.
pub open spec fn single_commit_id(output: Seq<char>) -> Option<Seq<char>> {
    let lines = text::lines(output);
    if lines.len() == 1 && revision::is_commit_id(lines[0]) {
        Some(lines[0])
    } else {
        None
    }
}

/// Reads exactly one full change ID.
pub fn parse_single_full_jj_change_id(output: &str) -> (res: Result<ChangeId, MergeError>)
    ensures
        match single_change_id(output@) {
            Some(id) => res matches Ok(c) && c@ == id,
            None => res matches Err(e) && e@ == bad_output(output@),
        },
{
    let lines = text::split_lines(output);
    assert(lines@.len() == text::lines(output@).len());
    if lines.len() == 1 {
        assert(lines@[0]@ == text::lines(output@)[0]);
        if is_full_jj_change_id(lines[0].as_str()) {
            return Ok(ChangeId::new(lines[0].as_str()));
        }
    }
    Err(invalid_jj_machine_output(output))
}

/// Reads exactly one full commit ID.
pub fn parse_single_full_jj_commit_id(output: &str) -> (res: Result<CommitId, MergeError>)
    ensures
        match single_commit_id(output@) {
            Some(id) => res matches Ok(c) && c@ == id,
            None => res matches Err(e) && e@ == bad_output(output@),
        },
{
    let lines = text::split_lines(output);
    assert(lines@.len() == text::lines(output@).len());
    if lines.len() == 1 {
        assert(lines@[0]@ == text::lines(output@)[0]);
        match CommitId::new(lines[0].as_str()) {
            Ok(id) => return Ok(id),
            Err(_) => {},
        }
    }
    Err(invalid_jj_machine_output(output))
}

/// Whether each line is a full commit ID.
pub open spec fn all_commit_ids(lines: Seq<Seq<char>>) -> bool {
    forall|i: int| 0 <= i < lines.len() ==> revision::is_commit_id(#[trigger] lines[i])
}

/// The texts of commit IDs.
pub open spec fn commit_texts(ids: Seq<CommitId>) -> Seq<Seq<char>> {
    ids.map_values(|id: CommitId| id@)
}

/// Reads any number of full commit IDs, one on each line.
pub fn parse_full_jj_commit_ids(output: &str) -> (res: Result<Vec<CommitId>, MergeError>)
    ensures
        if all_commit_ids(text::lines(output@)) {
            res matches Ok(ids) && commit_texts(ids@) == text::lines(output@)
        } else {
            res matches Err(e) && e@ == bad_output(output@)
        },
{
    let lines = text::split_lines(output);
    let ghost all = text::lines(output@);
    let mut ids: Vec<CommitId> = Vec::new();
    let mut i: usize = 0;
    while i < lines.len()
        invariant
            i <= lines.len(),
            text::texts(lines@) == all,
            all == text::lines(output@),
            commit_texts(ids@) == all.take(i as int),
            forall|j: int| 0 <= j < i ==> revision::is_commit_id(#[trigger] all[j]),
        decreases lines.len() - i,
    {
        assert(lines@[i as int]@ == all[i as int]);
        match CommitId::new(lines[i].as_str()) {
            Ok(id) => {
                let ghost before = ids@;
                ids.push(id);
                proof {
                    assert(commit_texts(ids@) =~= commit_texts(before).push(id@));
                    assert(commit_texts(ids@) =~= all.take(i + 1));
                }
            },
            Err(_) => {
                return Err(invalid_jj_machine_output(output));
            },
        }
        i = i + 1;
    }
    assert(all.take(i as int) =~= all);
    Ok(ids)
}

/// Whether a line consists of a full change ID and a full commit ID.
pub open spec fn is_identity(line: Seq<char>) -> bool {
    let words = text::words(line);
    words.len() == 2 && full_change_id(words[0]) && revision::is_commit_id(words[1])
}

/// The change and the commit that a line names.
pub open spec fn identity(line: Seq<char>) -> (Seq<char>, Seq<char>) {
    (text::words(line)[0], text::words(line)[1])
}

/// The changes and commits that an output names, one revision on each line;
/// none where a line is anything else.
pub open spec fn identities(output: Seq<char>) -> Option<Seq<(Seq<char>, Seq<char>)>> {
    let lines = text::lines(output);
    if forall|i: int| 0 <= i < lines.len() ==> is_identity(#[trigger] lines[i]) {
        Some(lines.map_values(|line: Seq<char>| identity(line)))
    } else {
        None
    }
}

/// The texts of changes and commits.
pub open spec fn identity_texts(ids: Seq<(ChangeId, CommitId)>) -> Seq<(Seq<char>, Seq<char>)> {
    ids.map_values(|id: (ChangeId, CommitId)| (id.0@, id.1@))
}

/// The change and the commit that a text of two words names.
pub fn parse_identity(line: &str) -> (res: Option<(ChangeId, CommitId)>)
    ensures
        res is Some <==> is_identity(line@),
        res matches Some(id) ==> (id.0@, id.1@) == identity(line@),
{
    let words = text::split_whitespace(line);
    assert(words@.len() == text::words(line@).len());
    if words.len() != 2 {
        return None;
    }
    assert(words@[0]@ == text::words(line@)[0]);
    assert(words@[1]@ == text::words(line@)[1]);
    if !is_full_jj_change_id(words[0].as_str()) {
        return None;
    }
    match CommitId::new(words[1].as_str()) {
        Ok(id) => Some((ChangeId::new(words[0].as_str()), id)),
        Err(_) => None,
    }
}

/// Reads changes and commits, one revision on each line.
pub fn parse_full_jj_revision_ids(output: &str) -> (res: Result<
    Vec<(ChangeId, CommitId)>,
    MergeError,
>)
    ensures
        match identities(output@) {
            Some(ids) => res matches Ok(v) && identity_texts(v@) == ids,
            None => res matches Err(e) && e@ == bad_output(output@),
        },
{
    let lines = text::split_lines(output);
    let ghost all = text::lines(output@);
    let ghost wanted = all.map_values(|line: Seq<char>| identity(line));
    let mut ids: Vec<(ChangeId, CommitId)> = Vec::new();
    let mut i: usize = 0;
    while i < lines.len()
        invariant
            i <= lines.len(),
            text::texts(lines@) == all,
            all == text::lines(output@),
            wanted == all.map_values(|line: Seq<char>| identity(line)),
            identity_texts(ids@) == wanted.take(i as int),
            forall|j: int| 0 <= j < i ==> is_identity(#[trigger] all[j]),
        decreases lines.len() - i,
    {
        assert(lines@[i as int]@ == all[i as int]);
        match parse_identity(lines[i].as_str()) {
            Some(id) => {
                let ghost before = ids@;
                ids.push(id);
                proof {
                    assert(identity_texts(ids@) =~= identity_texts(before).push((id.0@, id.1@)));
                    assert(identity_texts(ids@) =~= wanted.take(i + 1));
                }
            },
            None => {
                return Err(invalid_jj_machine_output(output));
            },
        }
        i = i + 1;
    }
    assert(wanted.take(i as int) =~= wanted);
    Ok(ids)
}

/// The first line that begins with `prefix`.
pub open spec fn first_with_prefix(lines: Seq<Seq<char>>, prefix: Seq<char>) -> Option<Seq<char>>
    decreases lines.len(),
{
    if lines.len() == 0 {
        None
    } else if text::begins_with(lines[0], prefix) {
        Some(lines[0])
    } else {
        first_with_prefix(lines.drop_first(), prefix)
    }
}

/// The first line of a text that begins with `prefix`.
pub fn find_line(output: &str, prefix: &str) -> (res: Option<String>)
    ensures
        res.deep_view() == first_with_prefix(text::lines(output@), prefix@),
{
    let lines = text::split_lines(output);
    let ghost all = text::lines(output@);
    let mut i: usize = 0;
    assert(all.skip(0) =~= all);
    while i < lines.len()
        invariant
            i <= lines.len(),
            text::texts(lines@) == all,
            all == text::lines(output@),
            first_with_prefix(all, prefix@) == first_with_prefix(all.skip(i as int), prefix@),
        decreases lines.len() - i,
    {
        assert(lines@[i as int]@ == all[i as int]);
        assert(all.skip(i as int).drop_first() =~= all.skip(i + 1));
        if text::starts_with(lines[i].as_str(), prefix) {
            return Some(lines[i].clone());
        }
        i = i + 1;
    }
    None
}

/// What Jujutsu prints before the ID of an operation that it left apart.
pub const UNINTEGRATED_PREFIX: &'static str =
    "Operation left uncommitted because --no-integrate-operation was requested: ";

/// The ID of the operation that was left apart.
pub open spec fn operation_id(output: Seq<char>) -> Option<Seq<char>> {
    match first_with_prefix(text::lines(output), UNINTEGRATED_PREFIX@) {
        Some(line) => Some(line.skip(UNINTEGRATED_PREFIX@.len() as int)),
        None => None,
    }
}

proof fn lemma_first_with_prefix(lines: Seq<Seq<char>>, prefix: Seq<char>)
    ensures
        first_with_prefix(lines, prefix) matches Some(line) ==> text::begins_with(line, prefix),
    decreases lines.len(),
{
    if lines.len() > 0 {
        lemma_first_with_prefix(lines.drop_first(), prefix);
    }
}

/// The ID of the operation that `--no-integrate-operation` left apart.
pub fn parse_unintegrated_operation_id(output: &str) -> (res: Option<String>)
    ensures
        res.deep_view() == operation_id(output@),
{
    proof {
        lemma_first_with_prefix(text::lines(output@), UNINTEGRATED_PREFIX@);
    }
    match find_line(output, UNINTEGRATED_PREFIX) {
        Some(line) => text::strip_prefix(line.as_str(), UNINTEGRATED_PREFIX),
        None => None,
    }
}

/// Whether the words after `Duplicated` are a commit, `as`, a change and a commit.
pub open spec fn is_duplication(words: Seq<Seq<char>>) -> bool {
    &&& words.len() == 4
    &&& words[1] == "as"@
    &&& wide_commit_id(words[0])
    &&& full_change_id(words[2])
    &&& revision::is_commit_id(words[3])
}

/// The changes and commits that lines say were made as duplicates. The error
/// is the first line that begins like one and is none.
pub open spec fn duplications(lines: Seq<Seq<char>>) -> Result<
    Seq<(Seq<char>, Seq<char>)>,
    Seq<char>,
>
    decreases lines.len(),
{
    if lines.len() == 0 {
        Ok(seq![])
    } else {
        match duplications(lines.drop_last()) {
            Err(line) => Err(line),
            Ok(found) => match text::after_prefix(lines.last(), "Duplicated "@) {
                None => Ok(found),
                Some(rest) => {
                    let words = text::words(rest);
                    if is_duplication(words) {
                        Ok(found.push((words[2], words[3])))
                    } else {
                        Err(lines.last())
                    }
                },
            },
        }
    }
}

proof fn lemma_duplications_error_stays(lines: Seq<Seq<char>>, i: int)
    requires
        0 <= i <= lines.len(),
        duplications(lines.take(i)) is Err,
    ensures
        duplications(lines) == duplications(lines.take(i)),
    decreases lines.len() - i,
{
    if i < lines.len() {
        assert(lines.take(i + 1).drop_last() =~= lines.take(i));
        lemma_duplications_error_stays(lines, i + 1);
    } else {
        assert(lines.take(i) =~= lines);
    }
}

/// Reads what `jj duplicate` made.
pub fn parse_duplications(output: &str) -> (res: Result<Vec<(ChangeId, CommitId)>, String>)
    ensures
        match duplications(text::lines(output@)) {
            Ok(found) => res matches Ok(v) && identity_texts(v@) == found,
            Err(line) => res matches Err(l) && l@ == line,
        },
{
    let lines = text::split_lines(output);
    let ghost all = text::lines(output@);
    let mut found: Vec<(ChangeId, CommitId)> = Vec::new();
    let mut i: usize = 0;
    proof {
        assert(all.take(0) =~= seq![]);
        assert(identity_texts(found@) =~= seq![]);
    }
    while i < lines.len()
        invariant
            i <= lines.len(),
            text::texts(lines@) == all,
            all == text::lines(output@),
            duplications(all.take(i as int)) == Ok::<Seq<(Seq<char>, Seq<char>)>, Seq<char>>(
                identity_texts(found@),
            ),
        decreases lines.len() - i,
    {
        let ghost line = all[i as int];
        proof {
            assert(lines@[i as int]@ == line);
            assert(all.take(i + 1).drop_last() =~= all.take(i as int));
            assert(all.take(i + 1).last() == line);
        }
        match text::strip_prefix(lines[i].as_str(), "Duplicated ") {
            None => {},
            Some(rest) => {
                let words = text::split_whitespace(rest.as_str());
                let ghost w = text::words(rest@);
                assert(words@.len() == w.len());
                let mut valid = words.len() == 4;
                if valid {
                    assert(words@[0]@ == w[0]);
                    assert(words@[1]@ == w[1]);
                    assert(words@[2]@ == w[2]);
                    assert(words@[3]@ == w[3]);
                    valid = text::same_text(words[1].as_str(), "as") && is_jj_commit_id(
                        words[0].as_str(),
                    ) && is_full_jj_change_id(words[2].as_str());
                }
                if valid {
                    match CommitId::new(words[3].as_str()) {
                        Ok(id) => {
                            let ghost before = found@;
                            let change = ChangeId::new(words[2].as_str());
                            found.push((change, id));
                            assert(identity_texts(found@) =~= identity_texts(before).push(
                                (w[2], w[3]),
                            ));
                        },
                        Err(_) => {
                            valid = false;
                        },
                    }
                }
                if !valid {
                    proof {
                        assert(duplications(all.take(i + 1)) is Err);
                        lemma_duplications_error_stays(all, i + 1);
                    }
                    return Err(lines[i].clone());
                }
            },
        }
        i = i + 1;
    }
    assert(all.take(i as int) =~= all);
    Ok(found)
}

/// Whether the words are `Created new commit`, a change and a commit.
pub open spec fn is_creation(words: Seq<Seq<char>>) -> bool {
    &&& words.len() == 5
    &&& words[0] == "Created"@
    &&& words[1] == "new"@
    &&& words[2] == "commit"@
    &&& full_change_id(words[3])
    &&& revision::is_commit_id(words[4])
}

/// The change and the commit that a line says were created.
pub fn parse_creation(line: &str) -> (res: Option<(ChangeId, CommitId)>)
    ensures
        res is Some <==> is_creation(text::words(line@)),
        res matches Some(id) ==> id.0@ == text::words(line@)[3] && id.1@ == text::words(line@)[4],
{
    let words = text::split_whitespace(line);
    let ghost w = text::words(line@);
    assert(words@.len() == w.len());
    if words.len() != 5 {
        return None;
    }
    assert(words@[0]@ == w[0]);
    assert(words@[1]@ == w[1]);
    assert(words@[2]@ == w[2]);
    assert(words@[3]@ == w[3]);
    assert(words@[4]@ == w[4]);
    if !(text::same_text(words[0].as_str(), "Created") && text::same_text(words[1].as_str(), "new")
        && text::same_text(words[2].as_str(), "commit") && is_full_jj_change_id(words[3].as_str())) {
        return None;
    }
    match CommitId::new(words[4].as_str()) {
        Ok(id) => Some((ChangeId::new(words[3].as_str()), id)),
        Err(_) => None,
    }
}

/// The first submitted change of which the base holds another commit.
pub open spec fn first_conflict(
    base: Seq<(Seq<char>, Seq<char>)>,
    submitted: Seq<(Seq<char>, Seq<char>)>,
) -> Option<Seq<char>>
    decreases submitted.len(),
{
    if submitted.len() == 0 {
        None
    } else if conflicts(base, submitted[0]) {
        Some(submitted[0].0)
    } else {
        first_conflict(base, submitted.drop_first())
    }
}

/// Whether the base holds another commit of the same change.
pub open spec fn conflicts(base: Seq<(Seq<char>, Seq<char>)>, id: (Seq<char>, Seq<char>)) -> bool {
    exists|j: int| 0 <= j < base.len() && #[trigger] base[j].0 == id.0 && base[j].1 != id.1
}

/// The first submitted change of which the base holds another commit.
pub fn find_conflict(
    base: &Vec<(ChangeId, CommitId)>,
    submitted: &Vec<(ChangeId, CommitId)>,
) -> (res: Option<String>)
    ensures
        res.deep_view() == first_conflict(identity_texts(base@), identity_texts(submitted@)),
{
    let ghost b = identity_texts(base@);
    let ghost s = identity_texts(submitted@);
    let mut i: usize = 0;
    assert(s.skip(0) =~= s);
    while i < submitted.len()
        invariant
            i <= submitted.len(),
            b == identity_texts(base@),
            s == identity_texts(submitted@),
            first_conflict(b, s) == first_conflict(b, s.skip(i as int)),
        decreases submitted.len() - i,
    {
        let mut j: usize = 0;
        assert(s.skip(i as int).drop_first() =~= s.skip(i + 1));
        assert(s.skip(i as int)[0] == (submitted@[i as int].0@, submitted@[i as int].1@));
        while j < base.len()
            invariant
                j <= base.len(),
                i < submitted.len(),
                b == identity_texts(base@),
                s == identity_texts(submitted@),
                s.skip(i as int)[0] == (submitted@[i as int].0@, submitted@[i as int].1@),
                first_conflict(b, s) == first_conflict(b, s.skip(i as int)),
                forall|k: int|
                    0 <= k < j ==> !(#[trigger] b[k].0 == s[i as int].0 && b[k].1 != s[i as int].1),
            decreases base.len() - j,
        {
            let same_change = text::same_text(base[j].0.as_str(), submitted[i].0.as_str());
            let same_commit = text::same_text(base[j].1.as_str(), submitted[i].1.as_str());
            assert(b[j as int] == (base@[j as int].0@, base@[j as int].1@));
            if same_change && !same_commit {
                assert(b[j as int].0 == s.skip(i as int)[0].0 && b[j as int].1 != s.skip(i as int)[0].1);
                assert(conflicts(b, s.skip(i as int)[0]));
                return Some(submitted[i].0.display());
            }
            j = j + 1;
        }
        assert(!conflicts(b, s.skip(i as int)[0]));
        i = i + 1;
    }
    None
}

/// An output is one identifier exactly where it has one line and that line is the
/// identifier, whole: 32 lower-case letters for a change, 40 hexadecimal digits for
/// a commit.
pub proof fn law_single_identifiers_are_whole(output: Seq<char>)
    ensures
        single_change_id(output) matches Some(id) ==> {
            &&& text::lines(output) == seq![id]
            &&& id.len() == 32
            &&& text::all_lower(id)
        },
        text::lines(output).len() == 1 && text::lines(output)[0].len() == 32 && text::all_lower(
            text::lines(output)[0],
        ) ==> single_change_id(output) is Some,
        single_commit_id(output) matches Some(id) ==> {
            &&& text::lines(output) == seq![id]
            &&& id.len() == 40
            &&& text::all_hex(id)
        },
        text::lines(output).len() == 1 && text::lines(output)[0].len() == 40 && text::all_hex(
            text::lines(output)[0],
        ) ==> single_commit_id(output) is Some,
{
    let lines = text::lines(output);
    if lines.len() == 1 {
        assert(lines =~= seq![lines[0]]);
    }
}

/// Revisions are read one from each line, in the order of the lines, each as the
/// change and the commit that are its two words; any other line refuses them all.
pub proof fn law_revisions_are_read_in_order(output: Seq<char>)
    ensures
        identities(output) matches Some(ids) ==> {
            &&& ids.len() == text::lines(output).len()
            &&& forall|i: int|
                0 <= i < ids.len() ==> {
                    let words = text::words(text::lines(output)[i]);
                    &&& words == seq![(#[trigger] ids[i]).0, ids[i].1]
                    &&& ids[i].0.len() == 32 && text::all_lower(ids[i].0)
                    &&& ids[i].1.len() == 40 && text::all_hex(ids[i].1)
                }
        },
        identities(output) is None ==> exists|i: int|
            0 <= i < text::lines(output).len() && ({
                let words = text::words(#[trigger] text::lines(output)[i]);
                !(words.len() == 2 && words[0].len() == 32 && text::all_lower(words[0])
                    && words[1].len() == 40 && text::all_hex(words[1]))
            }),
{
    let lines = text::lines(output);
    if identities(output) is Some {
        assert forall|i: int| 0 <= i < lines.len() implies text::words(lines[i]) =~= seq![
            (#[trigger] (identities(output)->0)[i]).0,
            (identities(output)->0)[i].1,
        ] by {
            assert(is_identity(lines[i]));
        }
    }
}

/// The ID of an operation that was left apart is what follows the announcement on
/// the first line that begins with it, and there is none without such a line.
pub proof fn law_operations_are_announced(
    before: Seq<Seq<char>>,
    line: Seq<char>,
    after: Seq<Seq<char>>,
    output: Seq<char>,
)
    requires
        forall|i: int|
            0 <= i < before.len() ==> !text::begins_with(
                #[trigger] before[i],
                "Operation left uncommitted because --no-integrate-operation was requested: "@,
            ),
        text::lines(output) == before + seq![line] + after,
    ensures
        forall|id: Seq<char>|
            line
                == "Operation left uncommitted because --no-integrate-operation was requested: "@
                + id ==> operation_id(output) == Some(id),
{
    let prefix =
        "Operation left uncommitted because --no-integrate-operation was requested: "@;
    assert forall|id: Seq<char>| line == prefix + id implies operation_id(output) == Some(id) by {
        text::law_prefixes_come_first(prefix, id, line);
        lemma_first_line_found(before, line, after, prefix);
        assert(line.skip(prefix.len() as int) =~= id);
    }
}

proof fn lemma_first_line_found(
    before: Seq<Seq<char>>,
    line: Seq<char>,
    after: Seq<Seq<char>>,
    prefix: Seq<char>,
)
    requires
        forall|i: int| 0 <= i < before.len() ==> !text::begins_with(#[trigger] before[i], prefix),
        text::begins_with(line, prefix),
    ensures
        first_with_prefix(before + seq![line] + after, prefix) == Some(line),
    decreases before.len(),
{
    let all = before + seq![line] + after;
    if before.len() > 0 {
        assert(all[0] == before[0]);
        assert(all.drop_first() =~= before.drop_first() + seq![line] + after);
        lemma_first_line_found(before.drop_first(), line, after, prefix);
    } else {
        assert(all[0] == line);
    }
}

proof fn lemma_no_line_found(lines: Seq<Seq<char>>, prefix: Seq<char>)
    requires
        forall|i: int| 0 <= i < lines.len() ==> !text::begins_with(#[trigger] lines[i], prefix),
    ensures
        first_with_prefix(lines, prefix) is None,
    decreases lines.len(),
{
    if lines.len() > 0 {
        lemma_no_line_found(lines.drop_first(), prefix);
    }
}

/// Without an announcement no operation was left apart.
pub proof fn law_silence_names_no_operation(output: Seq<char>)
    requires
        forall|i: int|
            0 <= i < text::lines(output).len() ==> !text::begins_with(
                #[trigger] text::lines(output)[i],
                "Operation left uncommitted because --no-integrate-operation was requested: "@,
            ),
    ensures
        operation_id(output) is None,
{
    lemma_no_line_found(
        text::lines(output),
        "Operation left uncommitted because --no-integrate-operation was requested: "@,
    );
}

/// Duplicates are read in the order of the lines that announce them, each as the
/// change and the commit that come last on its line. A line that does not begin
/// with `Duplicated ` says nothing, and one that does and is not of that form is
/// the error.
pub proof fn law_duplicates_are_read_in_order(lines: Seq<Seq<char>>, line: Seq<char>)
    ensures
        duplications(Seq::<Seq<char>>::empty()) == Ok::<Seq<(Seq<char>, Seq<char>)>, Seq<char>>(
            Seq::empty(),
        ),
        duplications(lines) is Err ==> duplications(lines.push(line)) == duplications(lines),
        duplications(lines) matches Ok(found) ==> {
            &&& !text::begins_with(line, "Duplicated "@) ==> duplications(lines.push(line))
                == duplications(lines)
            &&& forall|rest: Seq<char>|
                line == #[trigger] ("Duplicated "@ + rest) ==> {
                    let w = text::words(rest);
                    if w.len() == 4 && 12 <= w[0].len() <= 40 && text::all_hex(w[0]) && w[1]
                        == "as"@ && w[2].len() == 32 && text::all_lower(w[2]) && w[3].len() == 40
                        && text::all_hex(w[3]) {
                        duplications(lines.push(line)) == Ok::<
                            Seq<(Seq<char>, Seq<char>)>,
                            Seq<char>,
                        >(found.push((w[2], w[3])))
                    } else {
                        duplications(lines.push(line)) == Err::<
                            Seq<(Seq<char>, Seq<char>)>,
                            Seq<char>,
                        >(line)
                    }
                }
        },
{
    assert(lines.push(line).drop_last() =~= lines);
    assert forall|rest: Seq<char>| line == #[trigger] ("Duplicated "@ + rest) implies text::after_prefix(
        line,
        "Duplicated "@,
    ) == Some(rest) by {
        text::law_prefixes_come_first("Duplicated "@, rest, line);
    }
}

/// A creation is read as the change and the commit at the end of a line of five
/// words that begins with `Created new commit`, and of no other line.
pub proof fn law_creations_name_change_and_commit(words: Seq<Seq<char>>)
    ensures
        is_creation(words) <==> words.len() == 5 && words.take(3) == seq![
            "Created"@,
            "new"@,
            "commit"@,
        ] && words[3].len() == 32 && text::all_lower(words[3]) && words[4].len() == 40
            && text::all_hex(words[4]),
{
    let three = seq!["Created"@, "new"@, "commit"@];
    if words.len() == 5 && words[0] == "Created"@ && words[1] == "new"@ && words[2] == "commit"@ {
        assert(words.take(3) =~= three);
    }
    if words.len() == 5 && words.take(3) == three {
        assert(words[0] == words.take(3)[0] && words[1] == words.take(3)[1] && words[2]
            == words.take(3)[2]);
        assert(three[0] == "Created"@ && three[1] == "new"@ && three[2] == "commit"@);
    }
}

/// A conflict is reported exactly where some submitted change stands in the base
/// as another commit, and what is reported is such a change.
pub proof fn law_conflicts_are_other_commits_of_a_change(
    base: Seq<(Seq<char>, Seq<char>)>,
    submitted: Seq<(Seq<char>, Seq<char>)>,
)
    ensures
        first_conflict(base, submitted) is Some <==> exists|i: int, j: int|
            0 <= i < base.len() && 0 <= j < submitted.len() && (#[trigger] base[i]).0 == (
            #[trigger] submitted[j]).0 && base[i].1 != submitted[j].1,
        first_conflict(base, submitted) matches Some(change) ==> exists|i: int, j: int|
            0 <= i < base.len() && 0 <= j < submitted.len() && (#[trigger] base[i]).0 == (
            #[trigger] submitted[j]).0 && base[i].1 != submitted[j].1 && submitted[j].0 == change,
    decreases submitted.len(),
{
    if submitted.len() > 0 {
        let rest = submitted.drop_first();
        law_conflicts_are_other_commits_of_a_change(base, rest);
        if conflicts(base, submitted[0]) {
            let i = choose|i: int|
                0 <= i < base.len() && #[trigger] base[i].0 == submitted[0].0 && base[i].1
                    != submitted[0].1;
            assert(base[i].0 == submitted[0].0 && base[i].1 != submitted[0].1);
        } else {
            if first_conflict(base, rest) is Some {
                let (i, j) = choose|i: int, j: int|
                    0 <= i < base.len() && 0 <= j < rest.len() && (#[trigger] base[i]).0 == (
                    #[trigger] rest[j]).0 && base[i].1 != rest[j].1 && rest[j].0 == first_conflict(
                        base,
                        rest,
                    )->0;
                assert(rest[j] == submitted[j + 1]);
                assert(base[i].0 == submitted[j + 1].0 && base[i].1 != submitted[j + 1].1);
            }
            assert forall|i: int, j: int|
                0 <= i < base.len() && 0 <= j < submitted.len() && (#[trigger] base[i]).0 == (
                #[trigger] submitted[j]).0 && base[i].1 != submitted[j].1 implies first_conflict(
                base,
                rest,
            ) is Some by {
                if j > 0 {
                    assert(rest[j - 1] == submitted[j]);
                }
            }
        }
    }
}

/// What is reported as a conflict is the first submitted change that stands in the
/// base as another commit, in the order of the submission.
pub proof fn law_the_first_conflict_is_reported(
    base: Seq<(Seq<char>, Seq<char>)>,
    submitted: Seq<(Seq<char>, Seq<char>)>,
    k: int,
    at: int,
)
    requires
        0 <= k < submitted.len(),
        0 <= at < base.len(),
        base[at].0 == submitted[k].0,
        base[at].1 != submitted[k].1,
        forall|i: int, j: int|
            0 <= i < base.len() && 0 <= j < k && (#[trigger] base[i]).0 == (
            #[trigger] submitted[j]).0 ==> base[i].1 == submitted[j].1,
    ensures
        first_conflict(base, submitted) == Some(submitted[k].0),
    decreases k,
{
    if k == 0 {
        assert(base[at].0 == submitted[0].0);
        assert(conflicts(base, submitted[0]));
    } else {
        if conflicts(base, submitted[0]) {
            let i = choose|i: int|
                0 <= i < base.len() && #[trigger] base[i].0 == submitted[0].0 && base[i].1
                    != submitted[0].1;
            assert(base[i].1 == submitted[0].1);
        }
        let rest = submitted.drop_first();
        assert forall|i: int, j: int|
            0 <= i < base.len() && 0 <= j < k - 1 && (#[trigger] base[i]).0 == (
            #[trigger] rest[j]).0 implies base[i].1 == rest[j].1 by {
            assert(rest[j] == submitted[j + 1]);
        }
        law_the_first_conflict_is_reported(base, rest, k - 1, at);
    }
}

/// A line names a change and a commit exactly if these are its two words, both
/// whole, and an output of another shape is quoted as it is.
pub proof fn law_lines_name_change_and_commit(line: Seq<char>)
    ensures
        is_identity(line) <==> text::words(line).len() == 2 && text::words(line)[0].len() == 32
            && text::all_lower(text::words(line)[0]) && text::words(line)[1].len() == 40
            && text::all_hex(text::words(line)[1]),
        identity(line) == (text::words(line)[0], text::words(line)[1]),
        full_change_id(line) <==> line.len() == 32 && text::all_lower(line),
        wide_commit_id(line) <==> 12 <= line.len() <= 40 && text::all_hex(line),
        bad_output(line) == MergeErrorView::ChangeIdFailed(
            "unexpected jj machine output: "@ + text::debug_text(line),
        ),
{
}

} // verus!
