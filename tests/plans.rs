use dotfiles_installer::action::{DirEntryInfo, FsAction};
use dotfiles_installer::backup::{create_backup, BackupStart};
use dotfiles_installer::cleanup::{cleanup, cleanup_repo, CleanupPlan, SalvageRule};
use dotfiles_installer::paths::Paths;
use dotfiles_installer::stages::{
    after_install, clone_repo, install_cli_utilities, install_wallpaper, utility_paths,
    DownloadStatus, BUNDLE_URL, DEVICONS_URL, WALLPAPER_URL,
};
use dotfiles_installer::text::{join_path, same_text};
use dotfiles_installer::tree::{copy_recursively, TreeCopy};

fn entry(name: &str, is_dir: bool) -> DirEntryInfo {
    DirEntryInfo { name: name.to_string(), is_dir }
}

#[test]
fn paths_from_dirs_derives_everything() {
    let p = Paths::from_dirs(
        Some("/h".to_string()),
        Some("/h/.config".to_string()),
        Some("/h/Documents".to_string()),
        Some("/h/Downloads".to_string()),
    )
    .unwrap();
    assert_eq!(p.home, "/h");
    assert_eq!(p.repo, "/h/Downloads/dotfiles");
    assert_eq!(p.hypr_config, "/h/.config/hypr/hyprland.conf");
    assert_eq!(p.wallpapers, "/h/Documents/wallpapers");
    assert_eq!(p.backup(), "/h/Documents/config_backup");
}

#[test]
fn paths_from_dirs_needs_every_directory() {
    let p = Paths::from_dirs(Some("/h".to_string()), None, Some("/d".to_string()), Some("/w".to_string()));
    assert!(p.is_none());
}

#[test]
fn text_helpers() {
    assert_eq!(join_path("/a", "b"), "/a/b");
    assert!(same_text("ärger", "ärger"));
    assert!(!same_text("ab", "abc"));
    assert!(!same_text("ab", "ac"));
}

#[test]
fn copy_recursively_one_level() {
    let steps = copy_recursively("/s", "/d", &vec![entry("f", false), entry("sub", true)]);
    assert_eq!(
        steps,
        vec![
            FsAction::CopyFile { from: "/s/f".to_string(), to: "/d/f".to_string() },
            FsAction::CreateDirAll("/d/sub".to_string()),
        ]
    );
}

#[test]
fn tree_walk_queues_subdirectories() {
    let mut walk = TreeCopy::new("/s", "/d");
    assert_eq!(walk.next_dir(), Some(("/s".to_string(), "/d".to_string())));
    let steps = walk.visit("/s", "/d", &vec![entry("a", true), entry("b", false)]);
    assert_eq!(steps.len(), 2);
    assert_eq!(walk.next_dir(), Some(("/s/a".to_string(), "/d/a".to_string())));
    assert_eq!(walk.next_dir(), None);
}

#[test]
fn cleanup_entry_steps() {
    let plan = cleanup_repo("/h", "/r");
    assert_eq!(
        cleanup(&plan, &entry("zsh", true)),
        vec![
            FsAction::CopyFile { from: "/r/zsh/.zshrc".to_string(), to: "/h/.zshrc".to_string() },
            FsAction::RemoveDirAll("/r/zsh".to_string()),
        ]
    );
    assert_eq!(cleanup(&plan, &entry("logo.png", false)), vec![FsAction::RemoveFile("/r/logo.png".to_string())]);
    assert_eq!(cleanup(&plan, &entry("kitty", true)), vec![]);
}

#[test]
fn cleanup_salvage_without_exclusion_keeps_entry() {
    let plan = CleanupPlan {
        root: "/r".to_string(),
        exclusions: vec![],
        salvage: vec![SalvageRule {
            entry: "pic.jpg".to_string(),
            inner: "".to_string(),
            dest: "/w/pic.jpg".to_string(),
        }],
    };
    assert_eq!(
        cleanup(&plan, &entry("pic.jpg", false)),
        vec![FsAction::CopyFile { from: "/r/pic.jpg/".to_string(), to: "/w/pic.jpg".to_string() }]
    );
}

#[test]
fn create_backup_plans_copy() {
    match create_backup("/c", "/docs", false) {
        BackupStart::Copy { actions, mut walk } => {
            assert_eq!(actions, vec![FsAction::CreateDir("/docs/config_backup".to_string())]);
            assert_eq!(walk.next_dir(), Some(("/c".to_string(), "/docs/config_backup".to_string())));
        }
        BackupStart::Existing => panic!("expected a copy"),
    }
}

#[test]
fn clone_repo_plans() {
    let p = clone_repo("/c", "/r", false, false);
    assert_eq!(p.status, DownloadStatus::Success);
    assert_eq!(
        p.actions,
        vec![
            FsAction::CreateDirAll("/c".to_string()),
            FsAction::Fetch { url: BUNDLE_URL.to_string(), dest: "/r".to_string() },
        ]
    );
    let p = clone_repo("/c", "/r", true, true);
    assert_eq!(p.status, DownloadStatus::Existing);
    assert!(p.actions.is_empty());
}

#[test]
fn install_wallpaper_plans() {
    let p = install_wallpaper("/w", true, false);
    assert_eq!(p.status, DownloadStatus::Success);
    assert_eq!(
        p.actions,
        vec![FsAction::Download { url: WALLPAPER_URL.to_string(), dest: "/w/flowers.png".to_string() }]
    );
    let p = install_wallpaper("/w", false, true);
    assert_eq!(p.status, DownloadStatus::Existing);
    assert_eq!(p.actions, vec![FsAction::CreateDirAll("/w".to_string())]);
}

#[test]
fn install_cli_utilities_plans() {
    let paths = utility_paths("/h", "/c");
    assert_eq!(paths.zsh, "/h/.zsh");
    assert_eq!(paths.autosuggestions, "/h/.zsh/zsh-autosuggestions");
    assert_eq!(paths.devicons, "/c/ranger/plugins/ranger_devicons");
    let p = install_cli_utilities(&paths, [true, true, true, false]);
    assert_eq!(p.status, DownloadStatus::Success);
    assert_eq!(
        p.actions,
        vec![FsAction::Fetch { url: DEVICONS_URL.to_string(), dest: "/c/ranger/plugins/ranger_devicons".to_string() }]
    );
    let p = install_cli_utilities(&paths, [false, false, false, false]);
    assert_eq!(p.actions.len(), 4);
    assert_eq!(p.actions[0], FsAction::CreateDirAll("/h/.zsh".to_string()));
}

#[test]
fn after_install_removes_bundle() {
    assert_eq!(after_install("/r", true), vec![FsAction::RemoveDirAll("/r".to_string())]);
    assert_eq!(after_install("/r", false), vec![]);
}
