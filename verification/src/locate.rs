//! The search for the compose file: from the working directory upward,
//! one probe of the filesystem at a time.

use crate::error::CommandError;
use crate::path::{FsPath, PathView};
use vstd::prelude::*;

verus! {

/// Where the compose file lies, if the stack is checked out in `dir`:
/// `infra/docker-compose.yml` below it.
pub open spec fn config_in(dir: PathView) -> PathView {
    dir.child("infra"@).child("docker-compose.yml"@)
}

/// The compose file that a search from `dir` upward finds, where `files` are
/// the regular files that exist: that of the nearest directory, `dir` itself
/// included, that holds one.
pub open spec fn located(dir: PathView, files: Set<PathView>) -> Option<PathView>
    decreases dir.names.len(),
{
    if files.contains(config_in(dir)) {
        Some(config_in(dir))
    } else if dir.names.len() == 0 {
        None
    } else {
        located(dir.parent()->0, files)
    }
}

/// A search under way: `dir` is the directory to be looked into next.
#[derive(Debug, PartialEq, Eq)]
pub struct Search {
    pub dir: FsPath,
}

/// What a search does next.
#[derive(Debug)]
pub enum SearchStep {
    /// Probe the candidate of this search and answer it.
    Probe(Search),
    /// The search is over.
    Done(Result<FsPath, CommandError>),
}

/// A `SearchStep` as a mathematical value.
pub enum SearchStepView {
    Probe { dir: PathView },
    Found { file: PathView },
    NotFound,
}

impl View for SearchStep {
    type V = SearchStepView;

    open spec fn view(&self) -> SearchStepView {
        match self {
            SearchStep::Probe(next) => SearchStepView::Probe { dir: next.dir@ },
            SearchStep::Done(Ok(file)) => SearchStepView::Found { file: file@ },
            SearchStep::Done(Err(_)) => SearchStepView::NotFound,
        }
    }
}

/// The step that follows the answer `is_file` to the probe in `dir`.
pub open spec fn next_step(dir: PathView, is_file: bool) -> SearchStepView {
    if is_file {
        SearchStepView::Found { file: config_in(dir) }
    } else if dir.names.len() == 0 {
        SearchStepView::NotFound
    } else {
        SearchStepView::Probe { dir: dir.parent()->0 }
    }
}

/// What a search that stands at `step` ends in, where `files` are the
/// regular files that exist.
pub open spec fn outcome_from(step: SearchStepView, files: Set<PathView>) -> Option<PathView> {
    match step {
        SearchStepView::Probe { dir } => located(dir, files),
        SearchStepView::Found { file } => Some(file),
        SearchStepView::NotFound => None,
    }
}

impl Search {
    /// Starts a search in the working directory.
    pub fn begin(cwd: FsPath) -> (search: Search)
        ensures
            search.dir@ == cwd@,
    {
        Search { dir: cwd }
    }

    /// The path to probe: the compose file's place below the directory that
    /// the search has reached.
    pub fn candidate(&self) -> (file: FsPath)
        ensures
            file@ == config_in(self.dir@),
    {
        self.dir.child("infra").child("docker-compose.yml")
    }

    /// Takes the answer to the probe of `candidate`: whether a regular file
    /// is there. The search ends with that file, goes on in the parent
    /// directory, or ends without a file at the root.
    pub fn advance(self, is_file: bool) -> (step: SearchStep)
        ensures
            step@ == next_step(self.dir@, is_file),
            step matches SearchStep::Done(Err(e)) ==> e == CommandError::NotFound,
            forall|files: Set<PathView>|
                files.contains(config_in(self.dir@)) == is_file ==> outcome_from(step@, files)
                    == located(self.dir@, files),
    {
        if is_file {
            SearchStep::Done(Ok(self.candidate()))
        } else {
            match self.dir.parent() {
                Some(up) => SearchStep::Probe(Search { dir: up }),
                None => SearchStep::Done(Err(CommandError::NotFound)),
            }
        }
    }
}

/// A search finds the compose file of the nearest directory that holds one:
/// where the directory `k` levels up holds it and none nearer does, the
/// search from `cwd` ends with that file.
pub proof fn lemma_located_nearest(cwd: PathView, files: Set<PathView>, k: nat)
    requires
        k <= cwd.names.len(),
        files.contains(config_in(cwd.ancestor(k))),
        forall|j: nat| j < k ==> !files.contains(#[trigger] config_in(cwd.ancestor(j))),
    ensures
        located(cwd, files) == Some(config_in(cwd.ancestor(k))),
    decreases k,
{
    assert(cwd.ancestor(0) == cwd) by {
        assert(cwd.names.take(cwd.names.len() as int) =~= cwd.names);
    }
    if k > 0 {
        let up = cwd.parent()->0;
        assert forall|j: nat| j <= up.names.len() implies up.ancestor(j) == cwd.ancestor(j + 1) by {
            assert(up.names.take(up.names.len() - j) =~= cwd.names.take(cwd.names.len() - (j + 1)));
        }
        assert(!files.contains(config_in(cwd.ancestor(0))));
        assert forall|j: nat| j < k - 1 implies !files.contains(
            #[trigger] config_in(up.ancestor(j)),
        ) by {
            assert(!files.contains(config_in(cwd.ancestor(j + 1))));
        }
        lemma_located_nearest(up, files, (k - 1) as nat);
    }
}

/// A search fails exactly when no directory from `cwd` up to the root holds
/// the compose file.
pub proof fn lemma_located_none(cwd: PathView, files: Set<PathView>)
    ensures
        located(cwd, files) is None <==> forall|k: nat|
            k <= cwd.names.len() ==> !files.contains(#[trigger] config_in(cwd.ancestor(k))),
    decreases cwd.names.len(),
{
    assert(cwd.ancestor(0) == cwd) by {
        assert(cwd.names.take(cwd.names.len() as int) =~= cwd.names);
    }
    if cwd.names.len() > 0 {
        let up = cwd.parent()->0;
        assert forall|j: nat| j <= up.names.len() implies up.ancestor(j) == cwd.ancestor(j + 1) by {
            assert(up.names.take(up.names.len() - j) =~= cwd.names.take(cwd.names.len() - (j + 1)));
        }
        lemma_located_none(up, files);
        if located(cwd, files) is None {
            assert forall|k: nat| k <= cwd.names.len() implies !files.contains(
                #[trigger] config_in(cwd.ancestor(k)),
            ) by {
                if k > 0 {
                    let j = (k - 1) as nat;
                    assert(up.ancestor(j) == cwd.ancestor(j + 1));
                    assert(!files.contains(config_in(up.ancestor(j))));
                }
            }
        } else if !files.contains(config_in(cwd)) {
            let j = choose|j: nat|
                j <= up.names.len() && files.contains(#[trigger] config_in(up.ancestor(j)));
            assert(files.contains(config_in(cwd.ancestor(j + 1))));
        } else {
            assert(files.contains(config_in(cwd.ancestor(0))));
        }
    } else {
        if located(cwd, files) is None {
            assert forall|k: nat| k <= cwd.names.len() implies !files.contains(
                #[trigger] config_in(cwd.ancestor(k)),
            ) by {
                assert(k == 0);
            }
        } else {
            assert(files.contains(config_in(cwd.ancestor(0))));
        }
    }
}

/// A search that succeeds ends with the compose file of some directory from
/// `cwd` up to the root, and that file exists.
pub proof fn lemma_located_exists(cwd: PathView, files: Set<PathView>)
    requires
        located(cwd, files) is Some,
    ensures
        files.contains(located(cwd, files)->0),
        exists|k: nat|
            k <= cwd.names.len() && located(cwd, files) == Some(
                #[trigger] config_in(cwd.ancestor(k)),
            ),
    decreases cwd.names.len(),
{
    assert(cwd.ancestor(0) == cwd) by {
        assert(cwd.names.take(cwd.names.len() as int) =~= cwd.names);
    }
    if files.contains(config_in(cwd)) {
        assert(located(cwd, files) == Some(config_in(cwd.ancestor(0))));
    } else {
        let up = cwd.parent()->0;
        lemma_located_exists(up, files);
        let j = choose|j: nat|
            j <= up.names.len() && located(up, files) == Some(
                #[trigger] config_in(up.ancestor(j)),
            );
        assert(up.ancestor(j) == cwd.ancestor(j + 1)) by {
            assert(up.names.take(up.names.len() - j) =~= cwd.names.take(cwd.names.len() - (j + 1)));
        }
        assert(located(cwd, files) == Some(config_in(cwd.ancestor(j + 1))));
    }
}

/// Searching twice gives the same answer as long as nothing changed where
/// the search looks: two states of the filesystem that agree on the compose
/// file of every directory from `cwd` up to the root give the same outcome.
pub proof fn lemma_located_repeatable(cwd: PathView, first: Set<PathView>, second: Set<PathView>)
    requires
        forall|k: nat|
            k <= cwd.names.len() ==> first.contains(#[trigger] config_in(cwd.ancestor(k)))
                == second.contains(config_in(cwd.ancestor(k))),
    ensures
        located(cwd, first) == located(cwd, second),
    decreases cwd.names.len(),
{
    assert(cwd.ancestor(0) == cwd) by {
        assert(cwd.names.take(cwd.names.len() as int) =~= cwd.names);
    }
    assert(first.contains(config_in(cwd.ancestor(0))) == second.contains(
        config_in(cwd.ancestor(0)),
    ));
    if cwd.names.len() > 0 {
        let up = cwd.parent()->0;
        assert forall|j: nat| j <= up.names.len() implies first.contains(
            #[trigger] config_in(up.ancestor(j)),
        ) == second.contains(config_in(up.ancestor(j))) by {
            assert(up.names.take(up.names.len() - j) =~= cwd.names.take(cwd.names.len() - (j + 1)));
            assert(up.ancestor(j) == cwd.ancestor(j + 1));
            assert(first.contains(config_in(cwd.ancestor(j + 1))) == second.contains(
                config_in(cwd.ancestor(j + 1)),
            ));
        }
        lemma_located_repeatable(up, first, second);
    }
}

} // verus!
