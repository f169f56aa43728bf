//! Where repositories and link targets live.
use vstd::prelude::*;

use crate::error::DotmanError;

verus! {

/// The store's location on a standard installation.
pub const DEFAULT_STORE: &'static str = "/usr/local/share/dotman";

/// `name` placed under the directory `dir`.
pub open spec fn joined(dir: Seq<char>, name: Seq<char>) -> Seq<char> {
    if dir.len() > 0 && dir.last() == '/' {
        dir + name
    } else {
        dir + seq!['/'] + name
    }
}

/// The path of `name` under the directory `dir`, with one `/` between them.
pub fn join_path(dir: &str, name: &str) -> (r: String)
    ensures
        r@ == joined(dir@, name@),
{
    let mut r = String::from_str(dir);
    let n = dir.unicode_len();
    if n == 0 || dir.get_char(n - 1) != '/' {
        let sep = "/";
        proof {
            reveal_strlit("/");
        }
        r.append(sep);
    }
    r.append(name);
    r
}

/// The two roots that the commands work under: the store of repositories and
/// the user's configuration directory.
pub struct Layout {
    pub store: String,
    pub config: String,
}

impl Layout {
    /// The layout for a store at `store` and a user whose home directory is
    /// `home`, if one could be determined; the configuration root is
    /// `<home>/.config`.
    pub fn new(store: &str, home: Option<&str>) -> (r: Result<Layout, DotmanError>)
        ensures
            home is None <==> r == Err::<Layout, DotmanError>(DotmanError::NoHomeDirectory),
            home is Some <==> r is Ok,
            r matches Ok(l) ==> l.store@ == store@ && l.config@ == joined(
                home->Some_0@,
                seq!['.', 'c', 'o', 'n', 'f', 'i', 'g'],
            ),
    {
        match home {
            None => Err(DotmanError::NoHomeDirectory),
            Some(h) => {
                let dot_config = ".config";
                proof {
                    reveal_strlit(".config");
                }
                Ok(Layout { store: String::from_str(store), config: join_path(h, dot_config) })
            },
        }
    }

    /// Where the repository `name` is stored.
    pub fn repo_path(&self, name: &str) -> (r: String)
        ensures
            r@ == joined(self.store@, name@),
    {
        join_path(self.store.as_str(), name)
    }

    /// Where the configuration entry `target_name` lives.
    pub fn link_target(&self, target_name: &str) -> (r: String)
        ensures
            r@ == joined(self.config@, target_name@),
    {
        join_path(self.config.as_str(), target_name)
    }
}

} // verus!
