use dotfiles_installer::input::trim_text;
use dotfiles_installer::text::text_contains;
use dotfiles_installer::input::{installation_prompt, normalize_answer, parse_input, Installation, UserInput};
use dotfiles_installer::layouts::{get_kb_layout_code, get_kb_layouts, is_kb_layout_code, KBLayout, LayoutPromptStep};
use dotfiles_installer::backup::{backup_failure_answer, BackupStatus};

#[test]
fn parse_input_yes_no_other() {
    assert_eq!(parse_input("y"), UserInput::Yes);
    assert_eq!(parse_input("yes"), UserInput::Yes);
    assert_eq!(parse_input("n"), UserInput::No);
    assert_eq!(parse_input("no"), UserInput::No);
    assert_eq!(parse_input(""), UserInput::No);
    assert_eq!(parse_input("maybe"), UserInput::Other);
    assert_eq!(parse_input("Y"), UserInput::Other);
}

#[test]
fn normalize_answer_trims_and_lowers() {
    assert_eq!(normalize_answer("  YeS \n"), "yes");
    assert_eq!(normalize_answer("\n"), "");
    assert_eq!(parse_input(&normalize_answer(" N\r\n")), UserInput::No);
}

#[test]
fn installation_prompt_decides() {
    assert_eq!(installation_prompt("yes"), Some(Installation::Proceed));
    assert_eq!(installation_prompt(""), Some(Installation::Exit));
    assert_eq!(installation_prompt("what"), None);
}

#[test]
fn kb_layouts_table_is_ordered_by_code() {
    let table = get_kb_layouts();
    assert_eq!(table.len(), 98);
    assert!(table.windows(2).all(|w| w[0].0 < w[1].0));
    assert!(table.contains(&("de", "German")));
    assert!(table.contains(&("us", "English (US)")));
}

#[test]
fn kb_layout_codes_are_recognised() {
    assert!(is_kb_layout_code("de"));
    assert!(is_kb_layout_code("ch"));
    assert!(!is_kb_layout_code("xx"));
    assert!(!is_kb_layout_code(""));
}

#[test]
fn layout_prompt_steps() {
    assert_eq!(get_kb_layout_code("q"), LayoutPromptStep::Done(KBLayout::Default));
    assert_eq!(get_kb_layout_code("quit"), LayoutPromptStep::Done(KBLayout::Default));
    assert_eq!(get_kb_layout_code("l"), LayoutPromptStep::ShowList);
    assert_eq!(get_kb_layout_code("list"), LayoutPromptStep::ShowList);
    assert_eq!(
        get_kb_layout_code("fr"),
        LayoutPromptStep::Done(KBLayout::Change("fr".to_string()))
    );
    assert_eq!(get_kb_layout_code("nowhere"), LayoutPromptStep::AskAgain);
}

#[test]
fn backup_failure_answers() {
    assert_eq!(backup_failure_answer("y"), Some(Ok(BackupStatus::NoBackup)));
    assert_eq!(backup_failure_answer("no"), Some(Err(())));
    assert_eq!(backup_failure_answer(""), Some(Err(())));
    assert_eq!(backup_failure_answer("perhaps"), None);
}

#[test]
fn trim_handles_unicode_white_space() {
    assert_eq!(trim_text("\u{a0}\u{3000} yes\t\u{2029}"), "yes");
    assert_eq!(trim_text(" \n\r "), "");
    assert_eq!(trim_text("a b"), "a b");
    assert_eq!(trim_text("\u{200b}x"), "\u{200b}x");
    assert_eq!(normalize_answer("\u{85}NO\u{a0}"), "no");
}

#[test]
fn text_contains_finds_substrings() {
    assert!(text_contains("kb_layout = us", "layout = u"));
    assert!(text_contains("abc", ""));
    assert!(text_contains("", ""));
    assert!(!text_contains("ab", "abc"));
    assert!(!text_contains("aab", "abb"));
    assert!(text_contains("ärger", "rge"));
}
