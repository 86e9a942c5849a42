//! The well-known directories that the migration works on, and the paths
//! derived from them.

use vstd::prelude::*;
use crate::text::{join_path, joined};

verus! {

/// The resolved directories. Built once, read-only afterwards.
#[derive(Clone, Debug)]
pub struct Paths {
    pub home: String,
    pub config: String,
    pub documents: String,
    /// Where the downloaded bundle is staged.
    pub repo: String,
    /// The configuration file that the settings stage patches.
    pub hypr_config: String,
    /// Where wallpapers are installed.
    pub wallpapers: String,
}

/// The fields that follow from the four well-known directories.
pub open spec fn paths_from(
    p: Paths,
    home: Seq<char>,
    config: Seq<char>,
    documents: Seq<char>,
    downloads: Seq<char>,
) -> bool {
    &&& p.home@ == home
    &&& p.config@ == config
    &&& p.documents@ == documents
    &&& p.repo@ == joined(downloads, "dotfiles"@)
    &&& p.hypr_config@ == joined(config, "hypr/hyprland.conf"@)
    &&& p.wallpapers@ == joined(documents, "wallpapers"@)
}

/// The backup location under the documents directory.
pub open spec fn backup_dir_of(documents: Seq<char>) -> Seq<char> {
    joined(documents, "config_backup"@)
}

impl Paths {
    /// Derives every path from the four well-known directories; `None` when
    /// any of them is unknown.
    pub fn from_dirs(
        home: Option<String>,
        config: Option<String>,
        documents: Option<String>,
        downloads: Option<String>,
    ) -> (r: Option<Paths>)
        ensures
            r is Some <==> (home is Some && config is Some && documents is Some
                && downloads is Some),
            r is Some ==> paths_from(
                r->Some_0,
                home->Some_0@,
                config->Some_0@,
                documents->Some_0@,
                downloads->Some_0@,
            ),
    {
        match (home, config, documents, downloads) {
            (Some(home), Some(config), Some(documents), Some(downloads)) => {
                let repo = join_path(&downloads, "dotfiles");
                let hypr_config = join_path(&config, "hypr/hyprland.conf");
                let wallpapers = join_path(&documents, "wallpapers");
                Some(Paths { home, config, documents, repo, hypr_config, wallpapers })
            },
            _ => None,
        }
    }

    /// The backup location.
    pub fn backup(&self) -> (r: String)
        ensures
            r@ == backup_dir_of(self.documents@),
    {
        join_path(&self.documents, "config_backup")
    }
}

} // verus!
