//! The settings dialog and the rewrite rules that its answers call for.

use vstd::prelude::*;
use crate::input::{UserInput, answer_meaning, parse_input};
use crate::layouts::{KBLayout, LayoutPromptStep, LayoutStepView, get_kb_layout_code, layout_step};
use crate::patch::{PatchRule, RuleView, rules_view};
use crate::text::same_text;

verus! {

/// The line of the configuration file that sets the keyboard layout.
pub const DEFAULT_LAYOUT_LINE: &'static str = "kb_layout = us";

/// The start of a layout line, before the code.
pub const LAYOUT_LINE_PREFIX: &'static str = "kb_layout = ";

/// A commented-out `env = ...` line; the capture is the line without `#`.
pub const ENV_LINE_PATTERN: &'static str = "^#(env = .+)$";

/// Keeps the capture of `ENV_LINE_PATTERN`.
pub const ENV_LINE_TEMPLATE: &'static str = "$1";

/// Whether the settings file was rewritten.
#[derive(Clone, Copy, Debug, PartialEq, Eq, Structural)]
pub enum HyprConfig {
    Modified,
    Default,
}

/// The state of the settings dialog.
#[derive(Clone, Debug, PartialEq, Eq)]
pub enum SettingsDialog {
    /// Asking whether to change the keyboard layout.
    AskLayoutChange,
    /// Asking for the layout code.
    AskLayoutCode,
    /// Asking about the graphics card; `layout` is the chosen code, if any.
    AskNvidia { layout: Option<String> },
    /// Every question answered.
    Done { layout: Option<String>, nvidia: bool },
}

/// The dialog state with text as characters.
pub enum DialogView {
    AskLayoutChange,
    AskLayoutCode,
    AskNvidia(Option<Seq<char>>),
    Done(Option<Seq<char>>, bool),
}

/// A code as characters.
pub open spec fn code_view(c: Option<String>) -> Option<Seq<char>> {
    match c {
        Some(s) => Some(s@),
        None => None,
    }
}

impl View for SettingsDialog {
    type V = DialogView;

    open spec fn view(&self) -> DialogView {
        match self {
            SettingsDialog::AskLayoutChange => DialogView::AskLayoutChange,
            SettingsDialog::AskLayoutCode => DialogView::AskLayoutCode,
            SettingsDialog::AskNvidia { layout } => DialogView::AskNvidia(code_view(*layout)),
            SettingsDialog::Done { layout, nvidia } => DialogView::Done(code_view(*layout), *nvidia),
        }
    }
}

/// The dialog after one more answer, and whether the table of layouts is
/// to be shown before the next question.
pub struct SettingsStep {
    pub next: SettingsDialog,
    pub show_layouts: bool,
}

/// One answer of the dialog: the state it leads to, and whether to show
/// the table of layouts.
pub open spec fn dialog_step(s: DialogView, input: Seq<char>) -> (DialogView, bool) {
    match s {
        DialogView::AskLayoutChange => match answer_meaning(input) {
            UserInput::Yes => (DialogView::AskLayoutCode, false),
            UserInput::No => (DialogView::AskNvidia(None), false),
            UserInput::Other => (DialogView::AskLayoutChange, false),
        },
        DialogView::AskLayoutCode => match layout_step(input) {
            LayoutStepView::Keep => (DialogView::AskNvidia(None), false),
            LayoutStepView::Change(c) => (DialogView::AskNvidia(Some(c)), false),
            LayoutStepView::ShowList => (DialogView::AskLayoutCode, true),
            LayoutStepView::AskAgain => (DialogView::AskLayoutCode, false),
        },
        DialogView::AskNvidia(layout) => match answer_meaning(input) {
            UserInput::Yes => (DialogView::Done(layout, true), false),
            UserInput::No => (DialogView::Done(layout, false), false),
            UserInput::Other => (DialogView::AskNvidia(layout), false),
        },
        DialogView::Done(layout, nvidia) => (DialogView::Done(layout, nvidia), false),
    }
}

/// The rules for the chosen settings: none at all when the layout stays
/// `us` and the graphics card needs nothing; otherwise the layout rule
/// where a layout was chosen, then the rule that enables the commented
/// `env` lines where the card asks for it.
pub open spec fn settings_rules(
    change_kb_layout: bool,
    nvidia: bool,
    code: Seq<char>,
) -> Option<Seq<RuleView>> {
    if code == "us"@ && !nvidia {
        None
    } else {
        let layout: Seq<RuleView> = if change_kb_layout {
            seq![RuleView::Literal(DEFAULT_LAYOUT_LINE@, LAYOUT_LINE_PREFIX@ + code)]
        } else {
            Seq::empty()
        };
        let env: Seq<RuleView> = if nvidia {
            seq![RuleView::Rewrite(ENV_LINE_PATTERN@, ENV_LINE_TEMPLATE@)]
        } else {
            Seq::empty()
        };
        Some(layout + env)
    }
}

/// One answer of the settings dialog, normalised.
pub fn change_settings(state: &SettingsDialog, input: &str) -> (r: SettingsStep)
    ensures
        (r.next@, r.show_layouts) == dialog_step(state@, input@),
{
    match state {
        SettingsDialog::AskLayoutChange => {
            let next = match parse_input(input) {
                UserInput::Yes => SettingsDialog::AskLayoutCode,
                UserInput::No => SettingsDialog::AskNvidia { layout: None },
                UserInput::Other => SettingsDialog::AskLayoutChange,
            };
            SettingsStep { next, show_layouts: false }
        },
        SettingsDialog::AskLayoutCode => match get_kb_layout_code(input) {
            LayoutPromptStep::Done(KBLayout::Default) => SettingsStep {
                next: SettingsDialog::AskNvidia { layout: None },
                show_layouts: false,
            },
            LayoutPromptStep::Done(KBLayout::Change(c)) => SettingsStep {
                next: SettingsDialog::AskNvidia { layout: Some(c) },
                show_layouts: false,
            },
            LayoutPromptStep::ShowList => SettingsStep {
                next: SettingsDialog::AskLayoutCode,
                show_layouts: true,
            },
            LayoutPromptStep::AskAgain => SettingsStep {
                next: SettingsDialog::AskLayoutCode,
                show_layouts: false,
            },
        },
        SettingsDialog::AskNvidia { layout } => {
            let next = match parse_input(input) {
                UserInput::Yes => SettingsDialog::Done { layout: layout.clone(), nvidia: true },
                UserInput::No => SettingsDialog::Done { layout: layout.clone(), nvidia: false },
                UserInput::Other => SettingsDialog::AskNvidia { layout: layout.clone() },
            };
            SettingsStep { next, show_layouts: false }
        },
        SettingsDialog::Done { layout, nvidia } => SettingsStep {
            next: SettingsDialog::Done { layout: layout.clone(), nvidia: *nvidia },
            show_layouts: false,
        },
    }
}

/// The rules that the chosen settings call for; `None` when the file is
/// to stay as it is.
pub fn update_hypr_config(
    change_kb_layout: bool,
    change_nvidia_env_vars: bool,
    layout_code: &str,
) -> (r: Option<Vec<PatchRule>>)
    ensures
        match settings_rules(change_kb_layout, change_nvidia_env_vars, layout_code@) {
            None => r is None,
            Some(rules) => r is Some && rules_view(r->Some_0@) == rules,
        },
{
    if same_text(layout_code, "us") && !change_nvidia_env_vars {
        return None;
    }
    let mut rules: Vec<PatchRule> = Vec::new();
    if change_kb_layout {
        let mut new_line = LAYOUT_LINE_PREFIX.to_owned();
        new_line.append(layout_code);
        rules.push(PatchRule::LiteralLineReplace(DEFAULT_LAYOUT_LINE.to_owned(), new_line));
    }
    if change_nvidia_env_vars {
        rules.push(
            PatchRule::RegexLineRewrite(ENV_LINE_PATTERN.to_owned(), ENV_LINE_TEMPLATE.to_owned()),
        );
    }
    let ghost expected = settings_rules(change_kb_layout, change_nvidia_env_vars, layout_code@);
    assert(rules_view(rules@) =~= expected->Some_0);
    Some(rules)
}

/// The rules for a finished dialog; `None` when nothing is to change.
pub fn settings_patch(layout: &Option<String>, nvidia: bool) -> (r: Option<Vec<PatchRule>>)
    ensures
        match settings_rules(layout is Some, nvidia, chosen_code(code_view(*layout))) {
            None => r is None,
            Some(rules) => r is Some && rules_view(r->Some_0@) == rules,
        },
{
    match layout {
        Some(code) => update_hypr_config(true, nvidia, code.as_str()),
        None => update_hypr_config(false, nvidia, "us"),
    }
}

/// The layout code in effect: the chosen one, else `us`.
pub open spec fn chosen_code(layout: Option<Seq<char>>) -> Seq<char> {
    match layout {
        Some(c) => c,
        None => "us"@,
    }
}

} // verus!
