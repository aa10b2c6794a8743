//! Decision logic of atomic spool delivery.
//!
//! One spool attempt runs a fixed sequence of filesystem steps: create a
//! unique temporary file, open it for writing, write the whole text, then
//! rename it into the spool directory. The filesystem work itself lives
//! with the caller; this module decides, after each step, whether to go on
//! to the next step or to stop with the error that names the step that
//! failed. It also holds the path arithmetic of the rename: the base name
//! of the temporary path, and the destination path under the spool
//! directory.

use vstd::prelude::*;

verus! {

/// Why a spool attempt failed. Each variant names the step that failed;
/// no failure is retried and none falls back to a non-atomic copy.
#[derive(Clone, Copy, Debug, PartialEq, Eq, Structural)]
pub enum SpoolError {
    FailedToCreateTmpFile,
    FailedToOpenTmpFileForWriting,
    FailedToWriteToTmpFile,
    FailedToMoveToSpool,
}

/// The steps of one spool attempt, in the order they run. `Delivered` is
/// the terminal success state: the spool directory holds the complete
/// file.
#[derive(Clone, Copy, Debug, PartialEq, Eq, Structural)]
pub enum SpoolStep {
    CreateTmpFile,
    OpenTmpFile,
    WriteText,
    MoveToSpool,
    Delivered,
}

/// The step that follows a successful one. `Delivered` is terminal and
/// stays put.
pub open spec fn next_of(step: SpoolStep) -> SpoolStep {
    match step {
        SpoolStep::CreateTmpFile => SpoolStep::OpenTmpFile,
        SpoolStep::OpenTmpFile => SpoolStep::WriteText,
        SpoolStep::WriteText => SpoolStep::MoveToSpool,
        SpoolStep::MoveToSpool => SpoolStep::Delivered,
        SpoolStep::Delivered => SpoolStep::Delivered,
    }
}

/// The error that surfaces when a step fails. A failed rename — cross-
/// device, permission, or an undeterminable base name — is always
/// `FailedToMoveToSpool`.
pub open spec fn error_of(step: SpoolStep) -> SpoolError {
    match step {
        SpoolStep::CreateTmpFile => SpoolError::FailedToCreateTmpFile,
        SpoolStep::OpenTmpFile => SpoolError::FailedToOpenTmpFileForWriting,
        SpoolStep::WriteText => SpoolError::FailedToWriteToTmpFile,
        SpoolStep::MoveToSpool => SpoolError::FailedToMoveToSpool,
        SpoolStep::Delivered => SpoolError::FailedToMoveToSpool,
    }
}

/// Decides what follows one filesystem step of a spool attempt: the next
/// step when it succeeded, or the error named after it when it failed.
pub fn advance(step: SpoolStep, succeeded: bool) -> (r: Result<SpoolStep, SpoolError>)
    ensures
        succeeded ==> r == Ok::<SpoolStep, SpoolError>(next_of(step)),
        !succeeded ==> r == Err::<SpoolStep, SpoolError>(error_of(step)),
{
    if succeeded {
        Ok(
            match step {
                SpoolStep::CreateTmpFile => SpoolStep::OpenTmpFile,
                SpoolStep::OpenTmpFile => SpoolStep::WriteText,
                SpoolStep::WriteText => SpoolStep::MoveToSpool,
                SpoolStep::MoveToSpool => SpoolStep::Delivered,
                SpoolStep::Delivered => SpoolStep::Delivered,
            },
        )
    } else {
        Err(
            match step {
                SpoolStep::CreateTmpFile => SpoolError::FailedToCreateTmpFile,
                SpoolStep::OpenTmpFile => SpoolError::FailedToOpenTmpFileForWriting,
                SpoolStep::WriteText => SpoolError::FailedToWriteToTmpFile,
                SpoolStep::MoveToSpool => SpoolError::FailedToMoveToSpool,
                SpoolStep::Delivered => SpoolError::FailedToMoveToSpool,
            },
        )
    }
}

/// The suffix of a path after its last `/`: the whole path when it holds
/// no `/`, empty when it ends in one.
pub open spec fn after_last_slash(s: Seq<char>) -> Seq<char>
    decreases s.len(),
{
    if s.len() == 0 {
        s
    } else if s.last() == '/' {
        Seq::empty()
    } else {
        after_last_slash(s.drop_last()) + seq![s.last()]
    }
}

proof fn lemma_after_last_slash_subrange(s: Seq<char>, k: int)
    requires
        0 <= k <= s.len(),
        k > 0 ==> s[k - 1] == '/',
        forall|j: int| k <= j < s.len() ==> s[j] != '/',
    ensures
        after_last_slash(s) == s.subrange(k, s.len() as int),
    decreases s.len(),
{
    if s.len() == 0 {
        assert(after_last_slash(s) =~= s.subrange(k, s.len() as int));
    } else if k == s.len() {
        assert(s.last() == '/');
        assert(after_last_slash(s) =~= s.subrange(k, s.len() as int));
    } else {
        assert(s.last() != '/');
        let t = s.drop_last();
        lemma_after_last_slash_subrange(t, k);
        assert(t.subrange(k, t.len() as int) + seq![s.last()] =~= s.subrange(
            k,
            s.len() as int,
        ));
    }
}

/// The base name of a path: what follows its last `/` (the whole path when
/// there is none). `None` when that suffix is empty — the rename step has
/// no name to carry into the spool directory then.
pub fn base_name(path: &str) -> (r: Option<String>)
    ensures
        match r {
            Some(name) => name@ == after_last_slash(path@) && name@.len() > 0,
            None => after_last_slash(path@).len() == 0,
        },
{
    let len = path.unicode_len();
    let mut start: usize = 0;
    let mut i: usize = 0;
    while i < len
        invariant
            i <= len,
            len == path@.len(),
            start <= i,
            start > 0 ==> path@[start - 1] == '/',
            forall|j: int| start <= j < i ==> path@[j] != '/',
        decreases len - i,
    {
        if path.get_char(i) == '/' {
            start = i + 1;
        }
        i += 1;
    }
    proof {
        lemma_after_last_slash_subrange(path@, start as int);
    }
    if start == len {
        None
    } else {
        Some(path.substring_char(start, len).to_owned())
    }
}

/// The destination path of the rename: `<dir>/<name>`.
pub fn join_path(dir: &str, name: &str) -> (r: String)
    ensures
        r@ == dir@ + "/"@ + name@,
{
    let mut r = dir.to_owned();
    r.append("/");
    r.append(name);
    r
}

} // verus!
