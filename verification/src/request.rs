//! Typed requests to the `git` executable and their argument lists.

use vstd::prelude::*;

verus! {

/// The texts held by a sequence of strings.
pub open spec fn texts(items: Seq<String>) -> Seq<Seq<char>> {
    items.map_values(|s: String| s@)
}

/// One invocation of `git`, as a value.
#[derive(Clone, Debug, PartialEq, Eq)]
pub enum GitRequest {
    /// Is the working directory inside a working tree?
    CheckRepo,
    /// What is the name of the current branch?
    CurrentBranch,
    /// Does the working tree hold uncommitted changes?
    Changes,
    /// Pull from a remote.
    Pull { remote: String },
    /// Stage the given paths.
    Add { paths: Vec<String> },
    /// Commit what is staged under the given message.
    Commit { message: String },
    /// Push a branch to a remote.
    Push { remote: String, branch: String },
    /// Create a branch and switch to it.
    CreateBranch { name: String },
    /// Switch to an existing branch.
    SwitchBranch { name: String },
    /// Delete a branch.
    DeleteBranch { name: String },
}

/// Mathematical model of a [`GitRequest`].
pub ghost enum RequestView {
    CheckRepo,
    CurrentBranch,
    Changes,
    Pull { remote: Seq<char> },
    Add { paths: Seq<Seq<char>> },
    Commit { message: Seq<char> },
    Push { remote: Seq<char>, branch: Seq<char> },
    CreateBranch { name: Seq<char> },
    SwitchBranch { name: Seq<char> },
    DeleteBranch { name: Seq<char> },
}

impl RequestView {
    /// The arguments handed to `git`, the program name excluded.
    pub open spec fn args(self) -> Seq<Seq<char>> {
        match self {
            RequestView::CheckRepo => seq!["rev-parse"@, "--is-inside-work-tree"@],
            RequestView::CurrentBranch => seq!["rev-parse"@, "--abbrev-ref"@, "HEAD"@],
            RequestView::Changes => seq!["status"@, "--porcelain"@],
            RequestView::Pull { remote } => seq!["pull"@, remote],
            RequestView::Add { paths } => seq!["add"@] + paths,
            RequestView::Commit { message } => seq!["commit"@, "-m"@, message],
            RequestView::Push { remote, branch } => seq!["push"@, remote, branch],
            RequestView::CreateBranch { name } => seq!["checkout"@, "-b"@, name],
            RequestView::SwitchBranch { name } => seq!["checkout"@, name],
            RequestView::DeleteBranch { name } => seq!["branch"@, "-d"@, name],
        }
    }

    /// Whether running the request can change the repository or a remote.
    pub open spec fn mutates(self) -> bool {
        !(self is CheckRepo || self is CurrentBranch || self is Changes)
    }
}

impl View for GitRequest {
    type V = RequestView;

    open spec fn view(&self) -> RequestView {
        match self {
            GitRequest::CheckRepo => RequestView::CheckRepo,
            GitRequest::CurrentBranch => RequestView::CurrentBranch,
            GitRequest::Changes => RequestView::Changes,
            GitRequest::Pull { remote } => RequestView::Pull { remote: remote@ },
            GitRequest::Add { paths } => RequestView::Add { paths: texts(paths@) },
            GitRequest::Commit { message } => RequestView::Commit { message: message@ },
            GitRequest::Push { remote, branch } => RequestView::Push {
                remote: remote@,
                branch: branch@,
            },
            GitRequest::CreateBranch { name } => RequestView::CreateBranch { name: name@ },
            GitRequest::SwitchBranch { name } => RequestView::SwitchBranch { name: name@ },
            GitRequest::DeleteBranch { name } => RequestView::DeleteBranch { name: name@ },
        }
    }
}

/// Copies a list of strings.
pub fn clone_texts(items: &Vec<String>) -> (copy: Vec<String>)
    ensures
        texts(copy@) == texts(items@),
{
    let mut copy: Vec<String> = Vec::new();
    let mut i: usize = 0;
    while i < items.len()
        invariant
            i <= items.len(),
            copy.len() == i,
            forall|j: int| 0 <= j < i ==> copy@[j]@ == items@[j]@,
        decreases items.len() - i,
    {
        copy.push(items[i].clone());
        i = i + 1;
    }
    assert(texts(copy@) =~= texts(items@));
    copy
}

impl GitRequest {
    /// Whether running the request can change the repository or a remote.
    pub fn mutates(&self) -> (b: bool)
        ensures
            b == self@.mutates(),
    {
        match self {
            GitRequest::CheckRepo => false,
            GitRequest::CurrentBranch => false,
            GitRequest::Changes => false,
            _ => true,
        }
    }

    /// The arguments to hand to `git` for this request.
    pub fn args(&self) -> (list: Vec<String>)
        ensures
            texts(list@) == self@.args(),
    {
        let mut list: Vec<String> = Vec::new();
        match self {
            GitRequest::CheckRepo => {
                list.push("rev-parse".to_owned());
                list.push("--is-inside-work-tree".to_owned());
            },
            GitRequest::CurrentBranch => {
                list.push("rev-parse".to_owned());
                list.push("--abbrev-ref".to_owned());
                list.push("HEAD".to_owned());
            },
            GitRequest::Changes => {
                list.push("status".to_owned());
                list.push("--porcelain".to_owned());
            },
            GitRequest::Pull { remote } => {
                list.push("pull".to_owned());
                list.push(remote.clone());
            },
            GitRequest::Add { paths } => {
                list.push("add".to_owned());
                let mut i: usize = 0;
                while i < paths.len()
                    invariant
                        i <= paths.len(),
                        list.len() == i + 1,
                        list@[0]@ == "add"@,
                        forall|j: int| 0 <= j < i ==> list@[j + 1]@ == paths@[j]@,
                    decreases paths.len() - i,
                {
                    list.push(paths[i].clone());
                    i = i + 1;
                }
            },
            GitRequest::Commit { message } => {
                list.push("commit".to_owned());
                list.push("-m".to_owned());
                list.push(message.clone());
            },
            GitRequest::Push { remote, branch } => {
                list.push("push".to_owned());
                list.push(remote.clone());
                list.push(branch.clone());
            },
            GitRequest::CreateBranch { name } => {
                list.push("checkout".to_owned());
                list.push("-b".to_owned());
                list.push(name.clone());
            },
            GitRequest::SwitchBranch { name } => {
                list.push("checkout".to_owned());
                list.push(name.clone());
            },
            GitRequest::DeleteBranch { name } => {
                list.push("branch".to_owned());
                list.push("-d".to_owned());
                list.push(name.clone());
            },
        }
        assert(texts(list@) =~= self@.args());
        list
    }
}

} // verus!
