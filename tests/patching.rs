use dotfiles_installer::patch::{compile_rules, patch, patch_line, patch_lines, PatchError, PatchRule};
use dotfiles_installer::settings::{
    change_settings, settings_patch, update_hypr_config, SettingsDialog, ENV_LINE_PATTERN,
    ENV_LINE_TEMPLATE,
};
use dotfiles_installer::action::FsAction;

fn env_rule() -> PatchRule {
    PatchRule::RegexLineRewrite(ENV_LINE_PATTERN.to_string(), ENV_LINE_TEMPLATE.to_string())
}

fn layout_rule() -> PatchRule {
    PatchRule::LiteralLineReplace("kb_layout = us".to_string(), "kb_layout = de".to_string())
}

#[test]
fn literal_rule_rewrites_layout_line() {
    let rules = compile_rules(&vec![layout_rule()]).ok().unwrap();
    assert_eq!(patch_line(&rules, "kb_layout = us"), "kb_layout = de");
    assert_eq!(patch_line(&rules, "    kb_layout = us # keep"), "    kb_layout = de # keep");
}

#[test]
fn literal_rule_replaces_every_occurrence() {
    let rules = compile_rules(&vec![PatchRule::LiteralLineReplace("a".to_string(), "bb".to_string())])
        .ok()
        .unwrap();
    assert_eq!(patch_line(&rules, "banana"), "bbbnbbnbb");
}

#[test]
fn regex_rule_uncomments_env_line() {
    let rules = compile_rules(&vec![env_rule()]).ok().unwrap();
    assert_eq!(
        patch_line(&rules, "#env = WLR_NO_HARDWARE_CURSORS,1"),
        "env = WLR_NO_HARDWARE_CURSORS,1"
    );
    assert_eq!(patch_line(&rules, "#env = "), "#env = ");
    assert_eq!(patch_line(&rules, " #env = X,1"), " #env = X,1");
}

#[test]
fn unmatched_line_passes_unchanged() {
    let rules = compile_rules(&vec![layout_rule(), env_rule()]).ok().unwrap();
    assert_eq!(patch_line(&rules, "monitor = ,preferred,auto,1  "), "monitor = ,preferred,auto,1  ");
    let text = patch_lines(&rules, &vec!["gaps_in = 5  ".to_string()]);
    assert_eq!(text.contents, "gaps_in = 5  \n");
    assert!(!text.changed);
}

#[test]
fn rules_apply_cumulatively_in_order() {
    let rules = compile_rules(&vec![
        PatchRule::LiteralLineReplace("#env".to_string(), "#env = x #env".to_string()),
        env_rule(),
    ])
    .ok()
    .unwrap();
    assert_eq!(patch_line(&rules, "#env"), "env = x #env");
}

#[test]
fn patch_lines_renders_with_newlines() {
    let rules = compile_rules(&vec![layout_rule(), env_rule()]).ok().unwrap();
    let lines = vec![
        "kb_layout = us".to_string(),
        "#env = WLR_NO_HARDWARE_CURSORS,1".to_string(),
        "".to_string(),
    ];
    let text = patch_lines(&rules, &lines);
    assert_eq!(text.contents, "kb_layout = de\nenv = WLR_NO_HARDWARE_CURSORS,1\n\n");
    assert!(text.changed);
}

#[test]
fn invalid_pattern_is_reported() {
    let rules = vec![layout_rule(), PatchRule::RegexLineRewrite("(".to_string(), "$1".to_string())];
    assert_eq!(compile_rules(&rules).err(), Some(PatchError::InvalidPattern(1)));
    assert_eq!(patch("/f", &rules, &vec![]).err(), Some(PatchError::InvalidPattern(1)));
}

#[test]
fn patch_plan_uses_scratch_file() {
    let plan = patch("/c/h.conf", &vec![layout_rule()], &vec!["kb_layout = us".to_string()]).unwrap();
    assert_eq!(
        plan.actions,
        vec![
            FsAction::WriteFile {
                path: "/c/h.conf.tmp".to_string(),
                contents: "kb_layout = de\n".to_string()
            },
            FsAction::CopyFile { from: "/c/h.conf.tmp".to_string(), to: "/c/h.conf".to_string() },
            FsAction::RemoveFile("/c/h.conf.tmp".to_string()),
        ]
    );
    assert!(plan.changed);
    let same = patch("/c/h.conf", &vec![layout_rule()], &vec!["x".to_string()]).unwrap();
    assert!(!same.changed);
}

#[test]
fn update_hypr_config_chooses_rules() {
    assert_eq!(update_hypr_config(true, false, "us"), None);
    assert_eq!(update_hypr_config(false, false, "us"), None);
    assert_eq!(update_hypr_config(true, false, "de"), Some(vec![layout_rule()]));
    assert_eq!(update_hypr_config(false, true, "us"), Some(vec![env_rule()]));
    assert_eq!(update_hypr_config(true, true, "de"), Some(vec![layout_rule(), env_rule()]));
    assert_eq!(settings_patch(&None, false), None);
    assert_eq!(settings_patch(&Some("de".to_string()), true), Some(vec![layout_rule(), env_rule()]));
}

#[test]
fn settings_dialog_walks_through_questions() {
    let s = change_settings(&SettingsDialog::AskLayoutChange, "maybe");
    assert_eq!(s.next, SettingsDialog::AskLayoutChange);
    let s = change_settings(&SettingsDialog::AskLayoutChange, "y");
    assert_eq!(s.next, SettingsDialog::AskLayoutCode);
    let s = change_settings(&s.next, "l");
    assert!(s.show_layouts);
    assert_eq!(s.next, SettingsDialog::AskLayoutCode);
    let s = change_settings(&s.next, "zz");
    assert!(!s.show_layouts);
    assert_eq!(s.next, SettingsDialog::AskLayoutCode);
    let s = change_settings(&s.next, "de");
    assert_eq!(s.next, SettingsDialog::AskNvidia { layout: Some("de".to_string()) });
    let s = change_settings(&s.next, "no");
    assert_eq!(s.next, SettingsDialog::Done { layout: Some("de".to_string()), nvidia: false });
}

#[test]
fn settings_dialog_quit_keeps_layout() {
    let s = change_settings(&SettingsDialog::AskLayoutCode, "q");
    assert_eq!(s.next, SettingsDialog::AskNvidia { layout: None });
    let s = change_settings(&s.next, "yes");
    assert_eq!(s.next, SettingsDialog::Done { layout: None, nvidia: true });
    let s = change_settings(&SettingsDialog::AskLayoutChange, "");
    assert_eq!(s.next, SettingsDialog::AskNvidia { layout: None });
}

#[test]
fn regex_rule_needs_whole_line_match() {
    let rules = compile_rules(&vec![PatchRule::RegexLineRewrite("env(.*)".to_string(), "ENV$1".to_string())])
        .ok()
        .unwrap();
    assert_eq!(patch_line(&rules, "#env = A,1"), "#env = A,1");
    assert_eq!(patch_line(&rules, "env = A,1"), "ENV = A,1");
}

#[test]
fn alternation_is_kept_whole_when_anchored() {
    let rules = compile_rules(&vec![PatchRule::RegexLineRewrite("a|ab".to_string(), "X".to_string())])
        .ok()
        .unwrap();
    assert_eq!(patch_line(&rules, "ab"), "X");
    assert_eq!(patch_line(&rules, "abc"), "abc");
}

#[test]
fn unbalanced_pattern_is_invalid_even_if_wrapping_would_close_it() {
    let rules = vec![PatchRule::RegexLineRewrite(")(".to_string(), "".to_string())];
    assert_eq!(compile_rules(&rules).err(), Some(PatchError::InvalidPattern(0)));
}
