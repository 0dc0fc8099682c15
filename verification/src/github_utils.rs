//! A repository on GitHub.

use vstd::prelude::*;
use vstd::string::*;

verus! {

/// A repository on GitHub.
#[derive(Clone, Debug, PartialEq, Eq)]
pub struct Repo {
    pub user: String,
    pub repo: String,
}

impl Repo {
    /// The repository `owner` of the user `name`.
    pub fn new(name: &str, owner: &str) -> (r: Self)
        ensures
            r.user@ == name@,
            r.repo@ == owner@,
    {
        Self { user: name.to_owned(), repo: owner.to_owned() }
    }

    /// The address at which the tags of the repository are listed.
    pub fn tags_url(&self) -> (url: String)
        ensures
            url@ == "https://api.github.com/repos/"@ + self.user@ + seq!['/'] + self.repo@ + "/tags"@,
    {
        let mut url = "https://api.github.com/repos/".to_owned();
        url.append(self.user.as_str());
        url.push('/');
        url.append(self.repo.as_str());
        url.append("/tags");
        url
    }
}

} // verus!
