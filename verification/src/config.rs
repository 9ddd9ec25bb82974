//! The repositories that the dashboard is configured for.

use vstd::prelude::*;

verus! {

/// One repository and the token that gives access to it.
#[derive(Debug, PartialEq, Eq)]
pub struct Repo {
    pub token: String,
    pub owner: String,
    pub repo: String,
}

/// A `Repo` as a mathematical value.
pub struct Credential {
    pub token: Seq<char>,
    pub owner: Seq<char>,
    pub repo: Seq<char>,
}

impl View for Repo {
    type V = Credential;

    open spec fn view(&self) -> Credential {
        Credential { token: self.token@, owner: self.owner@, repo: self.repo@ }
    }
}

/// The configuration: the repositories, in the order in which they were
/// written.
#[derive(Debug, PartialEq, Eq)]
pub struct Config {
    pub repos: Vec<Repo>,
}

/// The views of a sequence of repositories.
pub open spec fn credentials(repos: Seq<Repo>) -> Seq<Credential> {
    repos.map_values(|repo: Repo| repo@)
}

/// Whether no two of the repositories have the owner and the name in common.
pub open spec fn distinct_repositories(repos: Seq<Credential>) -> bool {
    forall|i: int, k: int|
        0 <= i < k < repos.len() ==> !((#[trigger] repos[i]).owner == (#[trigger] repos[k]).owner
            && repos[i].repo == repos[k].repo)
}

impl Config {
    /// The content of a configuration file that was just created: one
    /// repository, with a token still to be filled in.
    pub fn default_config() -> (r: String)
        ensures
            r@ == "[[repos]]\ntoken = 'INSERT_TOKEN_HERE'\nowner = 'andreaswachs'\nrepo = 'lazyworkflows'\n"@,
    {
        String::from_str(
            "[[repos]]\ntoken = 'INSERT_TOKEN_HERE'\nowner = 'andreaswachs'\nrepo = 'lazyworkflows'\n",
        )
    }

    /// The directory of the dashboard's configuration under the directory
    /// `base`.
    pub fn config_dir_in(base: &str) -> (r: String)
        ensures
            r@ == joined(base@, "lazyworkflows"@),
    {
        join(base, "lazyworkflows")
    }

    /// The configuration file under the directory `base`.
    pub fn config_file_in(base: &str) -> (r: String)
        ensures
            r@ == config_file_under(base@),
    {
        let dir = Config::config_dir_in(base);
        join(dir.as_str(), "config.toml")
    }

    /// The directory of the dashboard's configuration, under the directory
    /// that the platform keeps for configuration. `None` where the platform
    /// names no such directory, or none that is text.
    pub fn config_dir_path() -> (r: Option<String>)
        ensures
            r matches Some(path) ==> path@.len() > 0 && exists|base: Seq<char>|
                path@ == joined(base, "lazyworkflows"@),
    {
        match platform_config_dir() {
            Some(base) => {
                proof {
                    reveal_strlit("lazyworkflows");
                }
                Some(Config::config_dir_in(base.as_str()))
            },
            None => None,
        }
    }

    /// The configuration file, under the directory that the platform keeps
    /// for configuration. `None` where the platform names no such directory,
    /// or none that is text.
    pub fn config_file_path() -> (r: Option<String>)
        ensures
            r matches Some(path) ==> path@.len() > 0 && exists|base: Seq<char>|
                path@ == config_file_under(base),
    {
        match platform_config_dir() {
            Some(base) => {
                proof {
                    reveal_strlit("config.toml");
                }
                Some(Config::config_file_in(base.as_str()))
            },
            None => None,
        }
    }
}

/// A directory's path with a name under it: a `/` stands between the two
/// unless the path is empty or ends in one.
pub open spec fn joined(dir: Seq<char>, name: Seq<char>) -> Seq<char> {
    if dir.len() == 0 || dir.last() == '/' {
        dir + name
    } else {
        dir + seq!['/'] + name
    }
}

/// The configuration file under the directory `base`.
pub open spec fn config_file_under(base: Seq<char>) -> Seq<char> {
    joined(joined(base, "lazyworkflows"@), "config.toml"@)
}

/// A directory's path with a name under it.
pub fn join(dir: &str, name: &str) -> (r: String)
    ensures
        r@ == joined(dir@, name@),
{
    let n: usize = dir.unicode_len();
    let mut path = String::from_str(dir);
    if n > 0 && dir.get_char(n - 1) != '/' {
        proof {
            reveal_strlit("/");
        }
        path.append("/");
    }
    path.append(name);
    path
}

/// `dirs::config_dir`, as text. Trusted to return; nothing is claimed of
/// what it returns, which is for the platform and the environment to say.
#[verifier::external_body]
fn platform_config_dir() -> Option<String> {
    match dirs::config_dir() {
        Some(path) => path.into_os_string().into_string().ok(),
        None => None,
    }
}

} // verus!
