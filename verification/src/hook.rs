//! The push notification that the hosting service sends for each push.

use vstd::prelude::*;
use vstd::string::*;
use crate::text::{concat2, starts_with};

verus! {

/// The repository that a push went to.
#[derive(Debug, PartialEq, Eq)]
pub struct GitlabRepository {
    pub name: String,
    pub homepage: String,
    pub git_http_url: String,
}

/// A push notification. `checkout_sha` is absent when a branch was deleted.
#[derive(Debug, PartialEq, Eq)]
pub struct GitlabHook {
    pub object_kind: String,
    pub checkout_sha: Option<String>,
    pub project_id: u32,
    pub ref_: String,
    pub repository: GitlabRepository,
}

/// The prefix that a reference to a branch begins with.
pub open spec fn heads_prefix() -> Seq<char> {
    "refs/heads/"@
}

/// The branch that a reference names, if it names one.
pub open spec fn branch_of(reference: Seq<char>) -> Option<Seq<char>> {
    if heads_prefix().is_prefix_of(reference) {
        Some(reference.skip(11))
    } else {
        None
    }
}

/// The reference without `refs/heads/` where it names a branch, else whole.
pub open spec fn short_ref_of(reference: Seq<char>) -> Seq<char> {
    match branch_of(reference) {
        Some(b) => b,
        None => reference,
    }
}

/// At most the first eight characters of a commit name.
pub open spec fn abbreviated(sha: Seq<char>) -> Seq<char> {
    if sha.len() >= 8 {
        sha.take(8)
    } else {
        sha
    }
}

/// The one-line description of a notification: repository, short reference
/// and abbreviated commit.
pub open spec fn hook_description(
    name: Seq<char>,
    reference: Seq<char>,
    sha: Option<Seq<char>>,
) -> Seq<char> {
    name + " ("@ + short_ref_of(reference) + " - "@ + (match sha {
        Some(s) => abbreviated(s),
        None => "<deleted>"@,
    }) + ")"@
}

impl GitlabRepository {
    /// A copy with the same texts.
    pub fn duplicate(&self) -> (r: GitlabRepository)
        ensures
            r == *self,
    {
        GitlabRepository {
            name: self.name.clone(),
            homepage: self.homepage.clone(),
            git_http_url: self.git_http_url.clone(),
        }
    }
}

impl GitlabHook {
    /// Whether the notification reports the deletion of a branch.
    pub fn is_delete(&self) -> (r: bool)
        ensures
            r == (self.checkout_sha is None),
    {
        self.checkout_sha.is_none()
    }

    /// The commit that was pushed.
    pub fn pushed_sha(&self) -> (r: &str)
        requires
            self.checkout_sha is Some,
        ensures
            r@ == self.checkout_sha->0@,
    {
        match &self.checkout_sha {
            Some(s) => s.as_str(),
            None => "",
        }
    }

    /// Where the repository can be cloned from.
    pub fn url(&self) -> (r: &str)
        ensures
            r@ == self.repository.git_http_url@,
    {
        self.repository.git_http_url.as_str()
    }

    /// The branch that was pushed to, if the reference names a branch.
    pub fn branch_name(&self) -> (r: Option<&str>)
        ensures
            crate::text::opt_str_text(r) == branch_of(self.ref_@),
    {
        proof {
            reveal_strlit("refs/heads/");
        }
        if starts_with(self.ref_.as_str(), "refs/heads/") {
            let n = self.ref_.as_str().unicode_len();
            let b = self.ref_.as_str().substring_char(11, n);
            Some(b)
        } else {
            None
        }
    }

    /// The branch name where there is one, else the whole reference.
    pub fn short_ref(&self) -> (r: &str)
        ensures
            r@ == short_ref_of(self.ref_@),
    {
        match self.branch_name() {
            Some(b) => b,
            None => self.ref_.as_str(),
        }
    }

    /// A one-line description for messages.
    pub fn desc(&self) -> (r: String)
        ensures
            r@ == hook_description(
                self.repository.name@,
                self.ref_@,
                crate::text::opt_text(self.checkout_sha),
            ),
    {
        let mut r = concat2(self.repository.name.as_str(), " (");
        r.append(self.short_ref());
        r.append(" - ");
        match &self.checkout_sha {
            Some(s) => {
                let n = s.as_str().unicode_len();
                if n >= 8 {
                    r.append(s.as_str().substring_char(0, 8));
                } else {
                    r.append(s.as_str());
                }
            },
            None => {
                r.append("<deleted>");
            },
        }
        r.append(")");
        r
    }

    /// A copy with the same contents.
    pub fn duplicate(&self) -> (r: GitlabHook)
        ensures
            r == *self,
    {
        GitlabHook {
            object_kind: self.object_kind.clone(),
            checkout_sha: match &self.checkout_sha {
                Some(s) => Some(s.clone()),
                None => None,
            },
            project_id: self.project_id,
            ref_: self.ref_.clone(),
            repository: self.repository.duplicate(),
        }
    }
}

} // verus!
