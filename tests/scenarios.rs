use std::collections::BTreeMap;

use dotfiles_installer::action::{DirEntryInfo, FsAction};
use dotfiles_installer::backup::{create_backup, BackupStart};
use dotfiles_installer::cleanup::{cleanup, cleanup_repo};
use dotfiles_installer::patch::{patch, PatchRule};
use dotfiles_installer::settings::{ENV_LINE_PATTERN, ENV_LINE_TEMPLATE};
use dotfiles_installer::tree::{copy_config_dirs_recursively, TreeCopy};

#[derive(Clone, Debug, PartialEq)]
enum Node {
    Dir,
    File(String),
}

type Fs = BTreeMap<String, Node>;

fn parent(p: &str) -> String {
    match p.rfind('/') {
        Some(i) => p[..i].to_string(),
        None => String::new(),
    }
}

fn run_step(fs: &mut Fs, a: &FsAction) -> Result<(), String> {
    match a {
        FsAction::CreateDir(p) => {
            if fs.contains_key(p) {
                return Err(format!("{} exists", p));
            }
            fs.insert(p.clone(), Node::Dir);
        }
        FsAction::CreateDirAll(p) => match fs.get(p) {
            Some(Node::File(_)) => return Err(format!("{} is a file", p)),
            _ => {
                fs.insert(p.clone(), Node::Dir);
            }
        },
        FsAction::CopyFile { from, to } => {
            let content = match fs.get(from) {
                Some(Node::File(c)) => c.clone(),
                _ => return Err(format!("{} is not a file", from)),
            };
            if fs.get(&parent(to)) != Some(&Node::Dir) && !parent(to).is_empty() {
                return Err(format!("no directory for {}", to));
            }
            if fs.get(to) == Some(&Node::Dir) {
                return Err(format!("{} is a directory", to));
            }
            fs.insert(to.clone(), Node::File(content));
        }
        FsAction::RemoveDirAll(p) => {
            let prefix = format!("{}/", p);
            fs.retain(|k, _| k != p && !k.starts_with(&prefix));
        }
        FsAction::RemoveFile(p) => {
            fs.remove(p);
        }
        FsAction::WriteFile { path, contents } => {
            fs.insert(path.clone(), Node::File(contents.clone()));
        }
        FsAction::Fetch { dest, .. } => {
            fs.insert(dest.clone(), Node::Dir);
        }
        FsAction::Download { dest, .. } => {
            fs.insert(dest.clone(), Node::File("image".to_string()));
        }
    }
    Ok(())
}

fn run_plan(fs: &mut Fs, plan: &[FsAction]) -> Result<(), String> {
    for a in plan {
        run_step(fs, a)?;
    }
    Ok(())
}

fn list(fs: &Fs, dir: &str) -> Vec<DirEntryInfo> {
    let prefix = format!("{}/", dir);
    fs.iter()
        .filter_map(|(k, v)| {
            let rest = k.strip_prefix(&prefix)?;
            if rest.contains('/') {
                None
            } else {
                Some(DirEntryInfo { name: rest.to_string(), is_dir: *v == Node::Dir })
            }
        })
        .collect()
}

fn run_walk(fs: &mut Fs, walk: &mut TreeCopy) -> Result<(), String> {
    while let Some((from, to)) = walk.next_dir() {
        let entries = list(fs, &from);
        let steps = walk.visit(&from, &to, &entries);
        run_plan(fs, &steps)?;
    }
    Ok(())
}

fn file(fs: &mut Fs, p: &str, c: &str) {
    fs.insert(p.to_string(), Node::File(c.to_string()));
}

fn dir(fs: &mut Fs, p: &str) {
    fs.insert(p.to_string(), Node::Dir);
}

#[test]
fn merge_keeps_destination_only_files() {
    let mut fs = Fs::new();
    dir(&mut fs, "/src");
    file(&mut fs, "/src/b", "bee");
    dir(&mut fs, "/src/sub");
    file(&mut fs, "/src/sub/c", "sea");
    dir(&mut fs, "/dest");
    file(&mut fs, "/dest/a", "ay");
    let (first, mut walk) = copy_config_dirs_recursively("/src", "/dest");
    run_plan(&mut fs, &first).unwrap();
    run_walk(&mut fs, &mut walk).unwrap();
    assert_eq!(fs.get("/dest/a"), Some(&Node::File("ay".to_string())));
    assert_eq!(fs.get("/dest/b"), Some(&Node::File("bee".to_string())));
    assert_eq!(fs.get("/dest/sub"), Some(&Node::Dir));
    assert_eq!(fs.get("/dest/sub/c"), Some(&Node::File("sea".to_string())));
}

#[test]
fn merge_overwrites_same_named_file() {
    let mut fs = Fs::new();
    dir(&mut fs, "/src");
    file(&mut fs, "/src/a", "new");
    dir(&mut fs, "/dest");
    file(&mut fs, "/dest/a", "old");
    let (first, mut walk) = copy_config_dirs_recursively("/src", "/dest");
    run_plan(&mut fs, &first).unwrap();
    run_walk(&mut fs, &mut walk).unwrap();
    assert_eq!(fs.get("/dest/a"), Some(&Node::File("new".to_string())));
}

#[test]
fn merge_file_against_directory_is_an_error() {
    let mut fs = Fs::new();
    dir(&mut fs, "/src");
    file(&mut fs, "/src/x", "file");
    dir(&mut fs, "/dest");
    dir(&mut fs, "/dest/x");
    let (first, mut walk) = copy_config_dirs_recursively("/src", "/dest");
    run_plan(&mut fs, &first).unwrap();
    assert!(run_walk(&mut fs, &mut walk).is_err());
}

#[test]
fn salvage_runs_before_delete() {
    let mut fs = Fs::new();
    dir(&mut fs, "/home");
    dir(&mut fs, "/stage");
    dir(&mut fs, "/stage/zsh");
    file(&mut fs, "/stage/zsh/.zshrc", "prompt");
    file(&mut fs, "/stage/README.md", "readme");
    dir(&mut fs, "/stage/hypr");
    file(&mut fs, "/stage/hypr/hyprland.conf", "conf");
    let plan = cleanup_repo("/home", "/stage");
    for entry in list(&fs, "/stage") {
        let steps = cleanup(&plan, &entry);
        run_plan(&mut fs, &steps).unwrap();
    }
    assert_eq!(fs.get("/home/.zshrc"), Some(&Node::File("prompt".to_string())));
    assert_eq!(fs.get("/stage/zsh"), None);
    assert_eq!(fs.get("/stage/zsh/.zshrc"), None);
    assert_eq!(fs.get("/stage/README.md"), None);
    assert_eq!(fs.get("/stage/hypr/hyprland.conf"), Some(&Node::File("conf".to_string())));
}

#[test]
fn backup_twice_is_already_satisfied() {
    let mut fs = Fs::new();
    dir(&mut fs, "/cfg");
    file(&mut fs, "/cfg/kitty.conf", "font");
    dir(&mut fs, "/docs");
    let exists = fs.contains_key("/docs/config_backup");
    match create_backup("/cfg", "/docs", exists) {
        BackupStart::Copy { actions, mut walk } => {
            run_plan(&mut fs, &actions).unwrap();
            run_walk(&mut fs, &mut walk).unwrap();
        }
        BackupStart::Existing => panic!("no backup existed yet"),
    }
    assert_eq!(fs.get("/docs/config_backup/kitty.conf"), Some(&Node::File("font".to_string())));
    let snapshot = fs.clone();
    let exists = fs.contains_key("/docs/config_backup");
    assert!(matches!(create_backup("/cfg", "/docs", exists), BackupStart::Existing));
    assert_eq!(fs, snapshot);
}

#[test]
fn patch_write_failure_leaves_target() {
    let mut fs = Fs::new();
    dir(&mut fs, "/cfg");
    file(&mut fs, "/cfg/hyprland.conf", "#env = A,1\n");
    let before = fs.clone();
    let rules = vec![PatchRule::RegexLineRewrite(
        ENV_LINE_PATTERN.to_string(),
        ENV_LINE_TEMPLATE.to_string(),
    )];
    let plan = patch("/cfg/hyprland.conf", &rules, &vec!["#env = A,1".to_string()]).unwrap();
    // The write of the scratch file stops halfway and fails.
    match &plan.actions[0] {
        FsAction::WriteFile { path, contents } => {
            assert_ne!(path, "/cfg/hyprland.conf");
            let half = contents[..contents.len() / 2].to_string();
            fs.insert(path.clone(), Node::File(half));
        }
        other => panic!("unexpected first step {:?}", other),
    }
    assert_eq!(fs.get("/cfg/hyprland.conf"), before.get("/cfg/hyprland.conf"));
}

#[test]
fn patch_success_swaps_in_and_removes_scratch() {
    let mut fs = Fs::new();
    dir(&mut fs, "/cfg");
    file(&mut fs, "/cfg/hyprland.conf", "#env = A,1\r\nkb_layout = us\n");
    let rules = vec![
        PatchRule::LiteralLineReplace("kb_layout = us".to_string(), "kb_layout = de".to_string()),
        PatchRule::RegexLineRewrite(ENV_LINE_PATTERN.to_string(), ENV_LINE_TEMPLATE.to_string()),
    ];
    let lines = vec!["#env = A,1".to_string(), "kb_layout = us".to_string()];
    let plan = patch("/cfg/hyprland.conf", &rules, &lines).unwrap();
    assert!(plan.changed);
    run_plan(&mut fs, &plan.actions).unwrap();
    assert_eq!(
        fs.get("/cfg/hyprland.conf"),
        Some(&Node::File("env = A,1\nkb_layout = de\n".to_string()))
    );
    assert_eq!(fs.get("/cfg/hyprland.conf.tmp"), None);
}
