//! Line-level rewriting of a text configuration file, and the plan that
//! swaps the rewritten file in only once it is complete.

use vstd::prelude::*;
use crate::action::{ActionView, FsAction, plan_view, target_of};
use crate::pattern::{Pattern, regex_compiles, regex_finds, regex_replaced};
use crate::text::{has_substring, replace_all, text_contains, text_replace};

verus! {

/// A rewrite applied to every line.
#[derive(Clone, Debug, PartialEq, Eq)]
pub enum PatchRule {
    /// Where the line holds the first text, every occurrence of it is
    /// replaced by the second.
    LiteralLineReplace(String, String),
    /// Where the pattern matches the line, its first match is replaced by
    /// the template, `$n` standing for capture group `n`.
    RegexLineRewrite(String, String),
}

/// A rule with its text as character sequences.
pub enum RuleView {
    Literal(Seq<char>, Seq<char>),
    Rewrite(Seq<char>, Seq<char>),
}

impl View for PatchRule {
    type V = RuleView;

    open spec fn view(&self) -> RuleView {
        match self {
            PatchRule::LiteralLineReplace(old, new) => RuleView::Literal(old@, new@),
            PatchRule::RegexLineRewrite(pattern, template) => RuleView::Rewrite(pattern@, template@),
        }
    }
}

/// Why a set of rules cannot be applied.
#[derive(Clone, Copy, Debug, PartialEq, Eq, Structural)]
pub enum PatchError {
    /// The pattern of the rule at this position does not compile.
    InvalidPattern(usize),
}

/// The rules of a list, as views.
pub open spec fn rules_view(rules: Seq<PatchRule>) -> Seq<RuleView> {
    rules.map_values(|r: PatchRule| r@)
}

/// The rule's pattern is a regular expression that does not compile.
pub open spec fn rule_invalid(rule: RuleView) -> bool {
    match rule {
        RuleView::Literal(_, _) => false,
        RuleView::Rewrite(pattern, _) => !regex_compiles(pattern) || !regex_compiles(
            whole_line(pattern),
        ),
    }
}

/// The pattern anchored so that it must match the whole line.
pub open spec fn whole_line(pattern: Seq<char>) -> Seq<char> {
    "^(?:"@ + pattern + ")$"@
}

/// The rule changes the line only where it fires.
pub open spec fn rule_fires(rule: RuleView, line: Seq<char>) -> bool {
    match rule {
        RuleView::Literal(old, _) => has_substring(line, old),
        RuleView::Rewrite(pattern, _) => regex_finds(whole_line(pattern), line),
    }
}

/// One rule applied to one line.
pub open spec fn apply_rule(rule: RuleView, line: Seq<char>) -> Seq<char> {
    if !rule_fires(rule, line) {
        line
    } else {
        match rule {
            RuleView::Literal(old, new) => replace_all(line, old, new),
            RuleView::Rewrite(pattern, template) => regex_replaced(
                whole_line(pattern),
                line,
                template,
            ),
        }
    }
}

/// The rules applied to one line in their order, each to the result of
/// the ones before it.
pub open spec fn apply_rules(rules: Seq<RuleView>, line: Seq<char>) -> Seq<char>
    decreases rules.len(),
{
    if rules.len() == 0 {
        line
    } else {
        apply_rule(rules.last(), apply_rules(rules.drop_last(), line))
    }
}

/// Lines written out, each ended by a single newline.
pub open spec fn rendered(lines: Seq<Seq<char>>) -> Seq<char>
    decreases lines.len(),
{
    if lines.len() == 0 {
        Seq::empty()
    } else {
        rendered(lines.drop_last()) + lines.last() + seq!['\n']
    }
}

/// The file that a patch of `path` is first written to.
pub open spec fn scratch_of(path: Seq<char>) -> Seq<char> {
    path + ".tmp"@
}

/// The steps that put `contents` in place of the file at `path`: write
/// the whole scratch file, copy it over the target, remove it.
pub open spec fn swap_plan(path: Seq<char>, contents: Seq<char>) -> Seq<ActionView> {
    seq![
        ActionView::WriteFile(scratch_of(path), contents),
        ActionView::CopyFile(scratch_of(path), path),
        ActionView::RemoveFile(scratch_of(path)),
    ]
}

enum CompiledRule {
    Literal(String, String),
    /// The anchored pattern, the template, and the pattern as written.
    Rewrite(Pattern, String, String),
}

spec fn anchored_as_written(r: CompiledRule) -> bool {
    match r {
        CompiledRule::Literal(_, _) => true,
        CompiledRule::Rewrite(p, _, source) => p@ == whole_line(source@),
    }
}

impl View for CompiledRule {
    type V = RuleView;

    closed spec fn view(&self) -> RuleView {
        match self {
            CompiledRule::Literal(old, new) => RuleView::Literal(old@, new@),
            CompiledRule::Rewrite(_, template, source) => RuleView::Rewrite(source@, template@),
        }
    }
}

/// Rules whose patterns have been compiled, in their declared order.
pub struct CompiledRules {
    rules: Vec<CompiledRule>,
}

impl CompiledRules {
    /// Each regular expression is the anchored form of its pattern.
    #[verifier::type_invariant]
    spec fn inv(&self) -> bool {
        forall|i: int| 0 <= i < self.rules@.len() ==> anchored_as_written(#[trigger] self.rules@[i])
    }
}

impl View for CompiledRules {
    type V = Seq<RuleView>;

    closed spec fn view(&self) -> Seq<RuleView> {
        self.rules@.map_values(|r: CompiledRule| r@)
    }
}

/// Compiles the patterns of `rules`; fails on the first one that does not
/// compile.
pub fn compile_rules(rules: &Vec<PatchRule>) -> (r: Result<CompiledRules, PatchError>)
    ensures
        r is Ok <==> (forall|i: int| 0 <= i < rules@.len() ==> !rule_invalid(#[trigger] rules@[i]@)),
        r is Ok ==> r->Ok_0@ == rules_view(rules@),
        r matches Err(PatchError::InvalidPattern(k)) ==> {
            &&& k < rules@.len()
            &&& rule_invalid(rules@[k as int]@)
            &&& forall|i: int| 0 <= i < k ==> !rule_invalid(#[trigger] rules@[i]@)
        },
{
    let mut out: Vec<CompiledRule> = Vec::new();
    let mut i: usize = 0;
    while i < rules.len()
        invariant
            i <= rules@.len(),
            out@.len() == i,
            forall|j: int| 0 <= j < i ==> (#[trigger] out@[j])@ == rules@[j]@,
            forall|j: int| 0 <= j < i ==> anchored_as_written(#[trigger] out@[j]),
            forall|j: int| 0 <= j < i ==> !rule_invalid(#[trigger] rules@[j]@),
        decreases rules@.len() - i,
    {
        match &rules[i] {
            PatchRule::LiteralLineReplace(old, new) => {
                out.push(CompiledRule::Literal(old.clone(), new.clone()));
            },
            PatchRule::RegexLineRewrite(pattern, template) => {
                if Pattern::compile(pattern.as_str()).is_err() {
                    assert(rule_invalid(rules@[i as int]@));
                    return Err(PatchError::InvalidPattern(i));
                }
                let mut anchored = "^(?:".to_owned();
                anchored.append(pattern.as_str());
                anchored.append(")$");
                match Pattern::compile(anchored.as_str()) {
                    Ok(p) => out.push(CompiledRule::Rewrite(p, template.clone(), pattern.clone())),
                    Err(_) => {
                        assert(rule_invalid(rules@[i as int]@));
                        return Err(PatchError::InvalidPattern(i));
                    },
                }
            },
        }
        i += 1;
    }
    let r = CompiledRules { rules: out };
    assert(r@ =~= rules_view(rules@));
    Ok(r)
}

/// Applies every rule, in order, to one line.
pub fn patch_line(rules: &CompiledRules, line: &str) -> (r: String)
    ensures
        r@ == apply_rules(rules@, line@),
{
    proof {
        use_type_invariant(rules);
    }
    let ghost all = rules@;
    let mut cur = line.to_owned();
    let mut i: usize = 0;
    while i < rules.rules.len()
        invariant
            all == rules@,
            all == rules.rules@.map_values(|r: CompiledRule| r@),
            forall|j: int|
                0 <= j < rules.rules@.len() ==> anchored_as_written(#[trigger] rules.rules@[j]),
            i <= rules.rules@.len(),
            cur@ == apply_rules(all.subrange(0, i as int), line@),
        decreases rules.rules@.len() - i,
    {
        proof {
            assert(all.subrange(0, i + 1).drop_last() =~= all.subrange(0, i as int));
        }
        let next = match &rules.rules[i] {
            CompiledRule::Literal(old, new) => {
                if text_contains(cur.as_str(), old.as_str()) {
                    text_replace(cur.as_str(), old.as_str(), new.as_str())
                } else {
                    cur
                }
            },
            CompiledRule::Rewrite(pattern, template, _) => {
                assert(anchored_as_written(rules.rules@[i as int]));
                if pattern.is_match(cur.as_str()) {
                    pattern.replace(cur.as_str(), template.as_str())
                } else {
                    cur
                }
            },
        };
        cur = next;
        i += 1;
    }
    assert(all.subrange(0, i as int) =~= all);
    cur
}

/// Every line of `lines` with the rules applied.
pub open spec fn patched_lines(rules: Seq<RuleView>, lines: Seq<Seq<char>>) -> Seq<Seq<char>> {
    lines.map_values(|l: Seq<char>| apply_rules(rules, l))
}

/// The text of each line.
pub open spec fn lines_view(lines: Seq<String>) -> Seq<Seq<char>> {
    lines.map_values(|l: String| l@)
}

/// Some line comes out different from how it went in.
pub open spec fn some_line_changed(rules: Seq<RuleView>, lines: Seq<Seq<char>>) -> bool {
    exists|i: int| 0 <= i < lines.len() && apply_rules(rules, #[trigger] lines[i]) != lines[i]
}

/// A rewritten file, and whether any line of it changed.
pub struct PatchedText {
    pub contents: String,
    pub changed: bool,
}

/// The plan that puts a rewritten file in place, and whether any line of
/// it changed.
pub struct PatchPlan {
    pub actions: Vec<FsAction>,
    pub changed: bool,
}

/// Applies the rules to every line and joins the results, each line ended
/// by a single newline.
pub fn patch_lines(rules: &CompiledRules, lines: &Vec<String>) -> (r: PatchedText)
    ensures
        r.contents@ == rendered(patched_lines(rules@, lines_view(lines@))),
        r.changed == some_line_changed(rules@, lines_view(lines@)),
{
    let ghost ls = lines_view(lines@);
    let ghost out = patched_lines(rules@, ls);
    let mut contents = String::new();
    let mut changed = false;
    let mut i: usize = 0;
    while i < lines.len()
        invariant
            ls == lines_view(lines@),
            out == patched_lines(rules@, ls),
            i <= lines@.len(),
            contents@ == rendered(out.subrange(0, i as int)),
            changed <==> exists|j: int| 0 <= j < i && apply_rules(rules@, #[trigger] ls[j]) != ls[j],
        decreases lines@.len() - i,
    {
        let line = patch_line(rules, lines[i].as_str());
        proof {
            assert(out.subrange(0, i + 1).drop_last() =~= out.subrange(0, i as int));
            assert(ls[i as int] == lines@[i as int]@);
        }
        if !(line == lines[i]) {
            changed = true;
        }
        contents.append(line.as_str());
        contents.append("\n");
        proof {
            reveal_strlit("\n");
        }
        i += 1;
    }
    assert(out.subrange(0, i as int) =~= out);
    PatchedText { contents, changed }
}

/// Rewrites the file at `path`, whose lines are `lines`, by `rules`. On
/// success the plan writes the whole result to a scratch file next to it,
/// copies that over the target and removes it.
pub fn patch(
    path: &str,
    rules: &Vec<PatchRule>,
    lines: &Vec<String>,
) -> (r: Result<PatchPlan, PatchError>)
    ensures
        r is Ok <==> (forall|i: int| 0 <= i < rules@.len() ==> !rule_invalid(#[trigger] rules@[i]@)),
        r matches Err(PatchError::InvalidPattern(k)) ==> {
            &&& k < rules@.len()
            &&& rule_invalid(rules@[k as int]@)
            &&& forall|i: int| 0 <= i < k ==> !rule_invalid(#[trigger] rules@[i]@)
        },
        r matches Ok(plan) ==> {
            &&& plan_view(plan.actions@) == swap_plan(
                path@,
                rendered(patched_lines(rules_view(rules@), lines_view(lines@))),
            )
            &&& plan.changed == some_line_changed(rules_view(rules@), lines_view(lines@))
        },
{
    let compiled = compile_rules(rules)?;
    let text = patch_lines(&compiled, lines);
    let mut scratch = path.to_owned();
    scratch.append(".tmp");
    let actions = vec![
        FsAction::WriteFile { path: scratch.clone(), contents: text.contents },
        FsAction::CopyFile { from: scratch.clone(), to: path.to_owned() },
        FsAction::RemoveFile(scratch),
    ];
    assert(plan_view(actions@) =~= swap_plan(
        path@,
        rendered(patched_lines(rules_view(rules@), lines_view(lines@))),
    ));
    Ok(PatchPlan { actions, changed: text.changed })
}

/// The swap never touches the target file before the scratch file is
/// complete: the first step writes the whole new text to the scratch
/// file, which is not the target, and the only step that writes the
/// target is the copy that follows it. A failure while writing the
/// scratch file therefore leaves the target as it was.
pub proof fn lemma_patch_swaps_after_write(path: Seq<char>, contents: Seq<char>)
    ensures
        swap_plan(path, contents)[0] == ActionView::WriteFile(scratch_of(path), contents),
        target_of(swap_plan(path, contents)[0]) != path,
        forall|i: int|
            0 <= i < swap_plan(path, contents).len() && target_of(
                #[trigger] swap_plan(path, contents)[i],
            ) == path ==> i == 1 && swap_plan(path, contents)[i] == ActionView::CopyFile(
                scratch_of(path),
                path,
            ),
{
    reveal_strlit(".tmp");
    assert(scratch_of(path).len() != path.len());
}

/// A line on which no rule fires comes out unchanged.
pub proof fn lemma_unmatched_line_unchanged(rules: Seq<RuleView>, line: Seq<char>)
    requires
        forall|i: int| 0 <= i < rules.len() ==> !rule_fires(#[trigger] rules[i], line),
    ensures
        apply_rules(rules, line) == line,
    decreases rules.len(),
{
    if rules.len() > 0 {
        let front = rules.drop_last();
        assert forall|i: int| 0 <= i < front.len() implies !rule_fires(#[trigger] front[i], line) by {
            assert(front[i] == rules[i]);
        }
        lemma_unmatched_line_unchanged(front, line);
        assert(!rule_fires(rules[rules.len() - 1], line));
    }
}

} // verus!
