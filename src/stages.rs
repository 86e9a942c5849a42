//! The stages around the merge: fetching the bundle, the wallpaper, the
//! command-line utilities, and removing the staged bundle at the end.
//! Each takes what the caller observed on disk and returns its steps.

use vstd::prelude::*;
use crate::action::{ActionView, FsAction, plan_view};
use crate::text::{join_path, joined};

verus! {

/// The configuration bundle.
pub const BUNDLE_URL: &'static str = "https://github.com/3rfaan/arch-everforest";

/// The default wallpaper.
pub const WALLPAPER_URL: &'static str =
    "https://raw.githubusercontent.com/Apeiros-46B/everforest-walls/main/close_up/flowers.png";

/// Fish-like autosuggestions for zsh.
pub const AUTOSUGGESTIONS_URL: &'static str = "https://github.com/zsh-users/zsh-autosuggestions";

/// Syntax highlighting for zsh.
pub const SYNTAX_HIGHLIGHTING_URL: &'static str =
    "https://github.com/zsh-users/zsh-syntax-highlighting.git";

/// File icons for ranger.
pub const DEVICONS_URL: &'static str = "https://github.com/alexanderjeurissen/ranger_devicons";

/// Whether a fetch stage found its result already in place.
#[derive(Clone, Copy, Debug, PartialEq, Eq, Structural)]
pub enum DownloadStatus {
    Success,
    Existing,
}

/// A stage's steps and the status it reports once they have run.
pub struct StagePlan {
    pub actions: Vec<FsAction>,
    pub status: DownloadStatus,
}

/// `step` where `cond` holds, else nothing.
pub open spec fn step_if(cond: bool, step: ActionView) -> Seq<ActionView> {
    if cond {
        seq![step]
    } else {
        Seq::empty()
    }
}

/// Ensure the configuration root, then fetch the bundle unless it is
/// already staged.
pub open spec fn clone_steps(
    config: Seq<char>,
    repo: Seq<char>,
    config_exists: bool,
    repo_exists: bool,
) -> Seq<ActionView> {
    step_if(!config_exists, ActionView::CreateDirAll(config)) + step_if(
        !repo_exists,
        ActionView::Fetch(BUNDLE_URL@, repo),
    )
}

/// The wallpaper file inside the wallpaper directory.
pub open spec fn wallpaper_file(wallpapers: Seq<char>) -> Seq<char> {
    joined(wallpapers, "flowers.png"@)
}

/// Ensure the wallpaper directory, then download the wallpaper unless it
/// is there.
pub open spec fn wallpaper_steps(wallpapers: Seq<char>, dir_exists: bool, file_exists: bool) -> Seq<
    ActionView,
> {
    step_if(!dir_exists, ActionView::CreateDirAll(wallpapers)) + step_if(
        !file_exists,
        ActionView::Download(WALLPAPER_URL@, wallpaper_file(wallpapers)),
    )
}

/// Where the command-line utilities go.
#[derive(Clone, Debug, PartialEq, Eq)]
pub struct UtilityPaths {
    pub zsh: String,
    pub autosuggestions: String,
    pub syntax_highlighting: String,
    pub devicons: String,
}

/// The utility locations for the home directory `home` and the
/// configuration directory `config`.
pub open spec fn utility_paths_of(p: UtilityPaths, home: Seq<char>, config: Seq<char>) -> bool {
    &&& p.zsh@ == joined(home, ".zsh"@)
    &&& p.autosuggestions@ == joined(joined(home, ".zsh"@), "zsh-autosuggestions"@)
    &&& p.syntax_highlighting@ == joined(joined(home, ".zsh"@), "zsh-syntax-highlighting"@)
    &&& p.devicons@ == joined(config, "ranger/plugins/ranger_devicons"@)
}

/// Ensure the zsh plugin directory, then fetch each utility that is missing.
pub open spec fn utility_steps(p: UtilityPaths, exists: [bool; 4]) -> Seq<ActionView> {
    step_if(!exists[0], ActionView::CreateDirAll(p.zsh@)) + step_if(
        !exists[1],
        ActionView::Fetch(AUTOSUGGESTIONS_URL@, p.autosuggestions@),
    ) + step_if(!exists[2], ActionView::Fetch(SYNTAX_HIGHLIGHTING_URL@, p.syntax_highlighting@))
        + step_if(!exists[3], ActionView::Fetch(DEVICONS_URL@, p.devicons@))
}

/// Ensures the configuration root `config` and fetches the bundle into
/// `repo`, given what exists.
pub fn clone_repo(config: &str, repo: &str, config_exists: bool, repo_exists: bool) -> (r: StagePlan)
    ensures
        plan_view(r.actions@) == clone_steps(config@, repo@, config_exists, repo_exists),
        r.status == (if repo_exists {
            DownloadStatus::Existing
        } else {
            DownloadStatus::Success
        }),
{
    let mut actions: Vec<FsAction> = Vec::new();
    if !config_exists {
        actions.push(FsAction::CreateDirAll(config.to_owned()));
    }
    if repo_exists {
        assert(plan_view(actions@) =~= clone_steps(config@, repo@, config_exists, repo_exists));
        return StagePlan { actions, status: DownloadStatus::Existing };
    }
    actions.push(FsAction::Fetch { url: BUNDLE_URL.to_owned(), dest: repo.to_owned() });
    assert(plan_view(actions@) =~= clone_steps(config@, repo@, config_exists, repo_exists));
    StagePlan { actions, status: DownloadStatus::Success }
}

/// The wallpaper file inside `wallpapers`.
pub fn wallpaper_path(wallpapers: &str) -> (r: String)
    ensures
        r@ == wallpaper_file(wallpapers@),
{
    join_path(wallpapers, "flowers.png")
}

/// Ensures the wallpaper directory and downloads the wallpaper into it,
/// given what exists.
pub fn install_wallpaper(wallpapers: &str, dir_exists: bool, file_exists: bool) -> (r: StagePlan)
    ensures
        plan_view(r.actions@) == wallpaper_steps(wallpapers@, dir_exists, file_exists),
        r.status == (if file_exists {
            DownloadStatus::Existing
        } else {
            DownloadStatus::Success
        }),
{
    let mut actions: Vec<FsAction> = Vec::new();
    if !dir_exists {
        actions.push(FsAction::CreateDirAll(wallpapers.to_owned()));
    }
    if file_exists {
        assert(plan_view(actions@) =~= wallpaper_steps(wallpapers@, dir_exists, file_exists));
        return StagePlan { actions, status: DownloadStatus::Existing };
    }
    let file = wallpaper_path(wallpapers);
    actions.push(FsAction::Download { url: WALLPAPER_URL.to_owned(), dest: file });
    assert(plan_view(actions@) =~= wallpaper_steps(wallpapers@, dir_exists, file_exists));
    StagePlan { actions, status: DownloadStatus::Success }
}

/// The utility locations for `home` and `config`.
pub fn utility_paths(home: &str, config: &str) -> (r: UtilityPaths)
    ensures
        utility_paths_of(r, home@, config@),
{
    let zsh = join_path(home, ".zsh");
    let autosuggestions = join_path(zsh.as_str(), "zsh-autosuggestions");
    let syntax_highlighting = join_path(zsh.as_str(), "zsh-syntax-highlighting");
    let devicons = join_path(config, "ranger/plugins/ranger_devicons");
    UtilityPaths { zsh, autosuggestions, syntax_highlighting, devicons }
}

/// Fetches the missing command-line utilities; `exists` tells, in the
/// order of the fields of `paths`, which locations exist.
pub fn install_cli_utilities(paths: &UtilityPaths, exists: [bool; 4]) -> (r: StagePlan)
    ensures
        plan_view(r.actions@) == utility_steps(*paths, exists),
        r.status == DownloadStatus::Success,
{
    let mut actions: Vec<FsAction> = Vec::new();
    if !exists[0] {
        actions.push(FsAction::CreateDirAll(paths.zsh.clone()));
    }
    if !exists[1] {
        actions.push(
            FsAction::Fetch {
                url: AUTOSUGGESTIONS_URL.to_owned(),
                dest: paths.autosuggestions.clone(),
            },
        );
    }
    if !exists[2] {
        actions.push(
            FsAction::Fetch {
                url: SYNTAX_HIGHLIGHTING_URL.to_owned(),
                dest: paths.syntax_highlighting.clone(),
            },
        );
    }
    if !exists[3] {
        actions.push(FsAction::Fetch { url: DEVICONS_URL.to_owned(), dest: paths.devicons.clone() });
    }
    assert(plan_view(actions@) =~= utility_steps(*paths, exists));
    StagePlan { actions, status: DownloadStatus::Success }
}

/// Removes the staged bundle at `repo` if it exists.
pub fn after_install(repo: &str, repo_exists: bool) -> (r: Vec<FsAction>)
    ensures
        plan_view(r@) == step_if(repo_exists, ActionView::RemoveDirAll(repo@)),
{
    let mut actions: Vec<FsAction> = Vec::new();
    if repo_exists {
        actions.push(FsAction::RemoveDirAll(repo.to_owned()));
    }
    assert(plan_view(actions@) =~= step_if(repo_exists, ActionView::RemoveDirAll(repo@)));
    actions
}

} // verus!
