//! What holds of the library as a whole, proved from the definitions that
//! the contracts of its functions use.

use crate::dotfiles::{
    body_of, cells_of, parsed, row_of, rows_of, DotView, DotsView, FlagsView, Op,
};
use crate::link::{
    link_step, linkable, plan, plan_of, task_of, LinkAction, LinkEvent, LinkState, LinkTaskView,
};
use crate::path::{absolute, has_parent, joined, resolved, stripped, without_separators};
use crate::text::{is_space, trim_end, trimmed};
use crate::validate::{
    diagnostic_of, errors_of, expected_source, observed, report, report_of, source_error,
    EntryKind, ValidationError,
};
use vstd::prelude::*;

verus! {

/// Removing the separators at the end leaves a beginning of the path, and
/// nothing but separators is removed.
pub proof fn lemma_without_separators(path: Seq<char>)
    ensures
        without_separators(path).len() <= path.len(),
        without_separators(path) == path.take(without_separators(path).len() as int),
        without_separators(path).len() > 0 ==> without_separators(path).last() != '/',
        forall|i: int| without_separators(path).len() <= i < path.len() ==> path[i] == '/',
    decreases path.len(),
{
    if path.len() > 0 && path.last() == '/' {
        let shorter = path.drop_last();
        lemma_without_separators(shorter);
        let kept = without_separators(shorter);
        assert forall|i: int| kept.len() <= i < path.len() implies path[i] == '/' by {
            if i < shorter.len() {
                assert(shorter[i] == path[i]);
            }
        }
    }
}

/// A path in normal form stays as it is: normalising twice is normalising
/// once.
pub proof fn lemma_stripped_is_normal(path: Seq<char>)
    ensures
        stripped(stripped(path)) == stripped(path),
{
    lemma_without_separators(path);
    let kept = without_separators(path);
    if kept.len() == 0 && path.len() > 0 {
        let root = seq!['/'];
        assert(without_separators(root) == Seq::<char>::empty()) by {
            assert(without_separators(root.drop_last()) == Seq::<char>::empty());
        }
    }
}

/// Normalising an absolute path gives an absolute path.
pub proof fn lemma_stripped_stays_absolute(path: Seq<char>)
    requires
        absolute(path),
    ensures
        absolute(stripped(path)),
{
    lemma_without_separators(path);
}

/// An absolute path resolves to itself in normal form, whatever the base.
pub proof fn lemma_absolute_ignores_base(raw: Seq<char>, base: Seq<char>, other: Seq<char>)
    requires
        absolute(raw),
    ensures
        resolved(raw, base) == stripped(raw),
        resolved(raw, base) == resolved(raw, other),
{
}

/// A relative path resolves to the base, a separator and the path, in
/// normal form.
pub proof fn lemma_relative_lies_under_base(raw: Seq<char>, base: Seq<char>)
    requires
        !absolute(raw),
    ensures
        resolved(raw, base) == stripped(base + seq!['/'] + raw),
{
}

/// Against an absolute base every path resolves to an absolute path.
pub proof fn lemma_resolved_is_absolute(raw: Seq<char>, base: Seq<char>)
    requires
        absolute(base),
    ensures
        absolute(resolved(raw, base)),
{
    if absolute(raw) {
        lemma_stripped_stays_absolute(raw);
    } else {
        let whole = joined(base, raw);
        lemma_stripped_stays_absolute(whole);
    }
}

/// Trimming the end of a text that starts with something other than
/// whitespace leaves that start in place.
pub proof fn lemma_trim_end_keeps_the_start(s: Seq<char>)
    requires
        s.len() > 0,
        !is_space(s[0]),
    ensures
        trim_end(s).len() > 0,
        trim_end(s)[0] == s[0],
    decreases s.len(),
{
    if is_space(s.last()) {
        lemma_trim_end_keeps_the_start(s.drop_last());
    }
}

/// An absolute path stays absolute when the whitespace around it is
/// removed.
pub proof fn lemma_trimmed_stays_absolute(path: Seq<char>)
    requires
        absolute(path),
    ensures
        absolute(trimmed(path)),
{
    lemma_trim_end_keeps_the_start(path);
}

/// A line with fewer than five fields declares nothing.
pub proof fn lemma_short_row_declares_nothing(line: Seq<char>, index: nat, flags: FlagsView)
    requires
        cells_of(line).len() < 5,
    ensures
        row_of(line, index, flags) is None,
{
}

/// Every declaration is the one that the row at its own line makes, and the
/// declarations stand in the order of their rows.
pub proof fn lemma_rows_keep_their_lines(rows: Seq<Seq<char>>, flags: FlagsView, n: nat)
    requires
        n <= rows.len(),
    ensures
        rows_of(rows, flags, n).len() <= n,
        forall|k: int|
            0 <= k < rows_of(rows, flags, n).len() ==> {
                let dot = #[trigger] rows_of(rows, flags, n)[k];
                &&& dot.line < n
                &&& row_of(rows[dot.line as int], dot.line, flags) == Some(dot)
            },
        forall|j: int, k: int|
            0 <= j < k < rows_of(rows, flags, n).len() ==> (#[trigger] rows_of(
                rows,
                flags,
                n,
            )[j]).line < (#[trigger] rows_of(rows, flags, n)[k]).line,
    decreases n,
{
    if n > 0 {
        lemma_rows_keep_their_lines(rows, flags, (n - 1) as nat);
    }
}

/// A manifest without rows after its header declares nothing.
pub proof fn lemma_no_rows_no_declarations(text: Seq<char>, flags: FlagsView)
    requires
        body_of(text, flags.headers).len() == 0,
    ensures
        parsed(text, flags) == Seq::<DotView>::empty(),
{
}

/// Under absolute prefixes every declaration of a manifest has an absolute
/// source and an absolute destination.
pub proof fn lemma_parsed_paths_are_absolute(rows: Seq<Seq<char>>, flags: FlagsView, n: nat)
    requires
        n <= rows.len(),
        absolute(flags.source_prefix),
        absolute(flags.destination_prefix),
    ensures
        forall|k: int|
            0 <= k < rows_of(rows, flags, n).len() ==> {
                let dot = #[trigger] rows_of(rows, flags, n)[k];
                absolute(dot.source) && absolute(dot.dest)
            },
    decreases n,
{
    if n > 0 {
        lemma_parsed_paths_are_absolute(rows, flags, (n - 1) as nat);
        let fields = cells_of(rows[n - 1]);
        if fields.len() >= 5 {
            let source = resolved(trimmed(fields[2]), flags.source_prefix);
            let dest = resolved(trimmed(fields[3]), flags.destination_prefix);
            lemma_resolved_is_absolute(trimmed(fields[2]), flags.source_prefix);
            lemma_resolved_is_absolute(trimmed(fields[3]), flags.destination_prefix);
            lemma_trimmed_stays_absolute(source);
            lemma_trimmed_stays_absolute(dest);
            lemma_stripped_stays_absolute(trimmed(dest));
        }
    }
}

/// A declaration that is to be ignored is judged without its source: the
/// operation needs no entry there, and whatever the source leads to, the
/// same is found wrong with the declaration.
pub proof fn lemma_ignored_source_is_not_consulted(dot: DotView, one: EntryKind, other: EntryKind)
    requires
        dot.operation == Op::Ignore,
    ensures
        expected_source(dot.operation) is None,
        source_error(dot.operation, one) is None,
        errors_of(dot, one) == errors_of(dot, other),
{
}

/// A declaration with an unknown operation always fails, and the first
/// thing wrong with it is its operation, whatever its source and its
/// destination are.
pub proof fn lemma_invalid_always_fails(
    filename: Seq<char>,
    headers: bool,
    dot: DotView,
    found: EntryKind,
)
    requires
        dot.operation == Op::Invalid,
    ensures
        errors_of(dot, found).len() > 0,
        errors_of(dot, found)[0] == ValidationError::UnrecognizedOperation,
        diagnostic_of(filename, headers, dot, found) is Some,
{
}

/// The report has one diagnostic for each failing declaration among those
/// judged, so it is empty exactly when nothing is wrong with any of them.
pub proof fn lemma_report_counts_failures(dots: DotsView, sources: Seq<EntryKind>, n: nat)
    requires
        n <= dots.dotfiles.len(),
    ensures
        report_of(dots, sources, n).len() <= n,
        report_of(dots, sources, n).len() == 0 <==> forall|i: int|
            0 <= i < n ==> (#[trigger] errors_of(dots.dotfiles[i], observed(sources, i))).len()
                == 0,
    decreases n,
{
    if n > 0 {
        lemma_report_counts_failures(dots, sources, (n - 1) as nat);
    }
}

/// A manifest passes exactly when nothing is wrong with any declaration.
pub proof fn lemma_manifest_passes_iff_all_pass(dots: DotsView, sources: Seq<EntryKind>)
    ensures
        report(dots, sources).len() == 0 <==> forall|i: int|
            0 <= i < dots.dotfiles.len() ==> (#[trigger] errors_of(
                dots.dotfiles[i],
                observed(sources, i),
            )).len() == 0,
{
    lemma_report_counts_failures(dots, sources, dots.dotfiles.len());
}

/// A manifest without declarations passes, and nothing is to be linked.
pub proof fn lemma_empty_manifest(dots: DotsView, sources: Seq<EntryKind>)
    requires
        dots.dotfiles.len() == 0,
    ensures
        report(dots, sources) == Seq::<Seq<char>>::empty(),
        plan(dots) == Seq::<LinkTaskView>::empty(),
{
}

/// A manifest that holds a declaration with an unknown operation fails,
/// whatever the filesystem holds.
pub proof fn lemma_invalid_fails_the_manifest(dots: DotsView, sources: Seq<EntryKind>, i: int)
    requires
        0 <= i < dots.dotfiles.len(),
        dots.dotfiles[i].operation == Op::Invalid,
    ensures
        report(dots, sources).len() > 0,
{
    lemma_manifest_passes_iff_all_pass(dots, sources);
    assert(errors_of(dots.dotfiles[i], observed(sources, i)).len() > 0);
}

/// Every task stands for a declaration that asks for a link, and the tasks
/// follow the order of the declarations. No task is made for a declaration
/// that is to be ignored or whose operation is unknown.
pub proof fn lemma_plan_holds_only_links(dots: DotsView, n: nat)
    requires
        n <= dots.dotfiles.len(),
    ensures
        plan_of(dots, n).len() <= n,
        forall|k: int|
            0 <= k < plan_of(dots, n).len() ==> {
                let task = #[trigger] plan_of(dots, n)[k];
                &&& linkable(task.operation)
                &&& task.operation != Op::Ignore
                &&& task.operation != Op::Invalid
                &&& exists|i: int|
                    0 <= i < n && linkable(dots.dotfiles[i].operation) && task == task_of(
                        dots,
                        #[trigger] dots.dotfiles[i],
                    )
            },
    decreases n,
{
    if n > 0 {
        lemma_plan_holds_only_links(dots, (n - 1) as nat);
        let before = plan_of(dots, (n - 1) as nat);
        let dot = dots.dotfiles[n - 1];
        assert forall|k: int| 0 <= k < plan_of(dots, n).len() implies {
            let task = #[trigger] plan_of(dots, n)[k];
            &&& linkable(task.operation)
            &&& task.operation != Op::Ignore
            &&& task.operation != Op::Invalid
            &&& exists|i: int|
                0 <= i < n && linkable(dots.dotfiles[i].operation) && task == task_of(
                    dots,
                    #[trigger] dots.dotfiles[i],
                )
        } by {
            let task = plan_of(dots, n)[k];
            if k < before.len() {
                let i = choose|i: int|
                    0 <= i < n - 1 && linkable(dots.dotfiles[i].operation) && before[k] == task_of(
                        dots,
                        #[trigger] dots.dotfiles[i],
                    );
                assert(0 <= i < n && task == task_of(dots, dots.dotfiles[i]));
            } else {
                assert(task == task_of(dots, dot));
            }
        }
    }
}

/// The number of tasks among the first `n` declarations.
pub open spec fn links_among(dots: DotsView, n: nat) -> nat
    decreases n,
{
    if n == 0 {
        0
    } else {
        links_among(dots, (n - 1) as nat) + if linkable(dots.dotfiles[n - 1].operation) {
            1nat
        } else {
            0nat
        }
    }
}

/// There is one task for each declaration that asks for a link.
pub proof fn lemma_plan_covers_every_link(dots: DotsView, n: nat)
    requires
        n <= dots.dotfiles.len(),
    ensures
        plan_of(dots, n).len() == links_among(dots, n),
    decreases n,
{
    if n > 0 {
        lemma_plan_covers_every_link(dots, (n - 1) as nat);
    }
}

/// In a manifest that passed, every declaration that is not to be ignored
/// asks for a link, and every destination has a parent: all that the
/// executor is handed was judged and found in order.
pub proof fn lemma_passed_manifest_is_linkable(dots: DotsView, sources: Seq<EntryKind>, i: int)
    requires
        report(dots, sources).len() == 0,
        0 <= i < dots.dotfiles.len(),
    ensures
        dots.dotfiles[i].operation != Op::Invalid,
        dots.dotfiles[i].operation != Op::Ignore ==> linkable(dots.dotfiles[i].operation),
        has_parent(dots.dotfiles[i].dest),
        task_of(dots, dots.dotfiles[i]).parent is Some,
{
    lemma_manifest_passes_iff_all_pass(dots, sources);
    assert(errors_of(dots.dotfiles[i], observed(sources, i)).len() == 0);
}

/// What stands at a destination, as far as the steps of a task depend on it
/// and change it.
pub enum Standing {
    /// Nothing.
    Nothing,
    /// A regular file.
    File,
    /// A directory.
    Directory,
    /// A symbolic link to the given path.
    LinkTo(Seq<char>),
    /// Something else.
    Other,
}

/// The kind of entry that a look at the destination finds.
pub open spec fn kind_of(standing: Standing) -> EntryKind {
    match standing {
        Standing::Nothing => EntryKind::Absent,
        Standing::File => EntryKind::File,
        Standing::Directory => EntryKind::Directory,
        Standing::LinkTo(_) => EntryKind::Symlink,
        Standing::Other => EntryKind::Other,
    }
}

/// What an action makes of the destination and what is reported of it, on a
/// filesystem where a directory can be removed as a tree, a file or a link
/// as a file, and a link can be made only where nothing stands.
pub open spec fn performed(action: LinkAction, source: Seq<char>, standing: Standing) -> (
    Standing,
    LinkEvent,
) {
    match action {
        LinkAction::Inspect => (standing, LinkEvent::Found(kind_of(standing))),
        LinkAction::RemoveTree => if standing is Directory {
            (Standing::Nothing, LinkEvent::Done)
        } else {
            (standing, LinkEvent::Failure)
        },
        LinkAction::RemoveFile => if standing is File || standing is LinkTo {
            (Standing::Nothing, LinkEvent::Done)
        } else {
            (standing, LinkEvent::Failure)
        },
        LinkAction::Link => if standing is Nothing {
            (Standing::LinkTo(source), LinkEvent::Done)
        } else {
            (standing, LinkEvent::Failure)
        },
        _ => (standing, LinkEvent::Done),
    }
}

/// How a task went: what was asked for, where the task ended and what stands
/// at the destination afterwards.
pub struct Run {
    pub actions: Seq<LinkAction>,
    pub state: LinkState,
    pub standing: Standing,
}

/// The run of a task from `state` on, for at most `fuel` steps, on the
/// filesystem that `performed` describes.
pub open spec fn run_from(
    task: LinkTaskView,
    state: LinkState,
    event: LinkEvent,
    standing: Standing,
    fuel: nat,
) -> Run
    decreases fuel,
{
    if fuel == 0 {
        Run { actions: seq![], state, standing }
    } else {
        let (next, action) = link_step(task.parent is Some, task.force, state, event);
        if action == LinkAction::Nothing {
            Run { actions: seq![], state: next, standing }
        } else {
            let (left, reported) = performed(action, task.source, standing);
            let rest = run_from(task, next, reported, left, (fuel - 1) as nat);
            Run {
                actions: seq![action] + rest.actions,
                state: rest.state,
                standing: rest.standing,
            }
        }
    }
}

/// The whole run of a task that finds `standing` at its destination. Six
/// steps are allowed: no task asks for more than five actions, and the step
/// after the last action asks for nothing (`lemma_every_run_ends`).
pub open spec fn run_of(task: LinkTaskView, standing: Standing) -> Run {
    run_from(task, LinkState::Ready, LinkEvent::Start, standing, 6)
}

/// Where nothing may be removed, no step ever asks to look at the
/// destination, to remove anything or to give up, whatever state and event
/// are handed in.
pub proof fn lemma_nothing_is_removed_without_force(
    has_parent: bool,
    state: LinkState,
    event: LinkEvent,
)
    ensures
        link_step(has_parent, false, state, event).1 != LinkAction::RemoveTree,
        link_step(has_parent, false, state, event).1 != LinkAction::RemoveFile,
        link_step(has_parent, false, state, event).1 != LinkAction::Inspect,
        link_step(has_parent, false, state, event).1 != LinkAction::Abort,
{
}

/// A removal that fails ends the task in failure, and a failure to create
/// the parents is passed over.
pub proof fn lemma_failures_in_the_steps(has_parent: bool, force: bool)
    ensures
        link_step(has_parent, force, LinkState::Removing, LinkEvent::Failure) == (
            LinkState::Failed,
            LinkAction::ReportFailure,
        ),
        link_step(has_parent, force, LinkState::Linking, LinkEvent::Failure) == (
            LinkState::Failed,
            LinkAction::ReportFailure,
        ),
        link_step(has_parent, force, LinkState::Preparing, LinkEvent::Failure) == link_step(
            has_parent,
            force,
            LinkState::Preparing,
            LinkEvent::Done,
        ),
{
}

/// A task that is over stays over: in the two final states nothing more is
/// asked for.
pub proof fn lemma_final_states_are_final(has_parent: bool, force: bool, event: LinkEvent)
    ensures
        link_step(has_parent, force, LinkState::Linked, event) == (
            LinkState::Linked,
            LinkAction::Nothing,
        ),
        link_step(has_parent, force, LinkState::Failed, event) == (
            LinkState::Failed,
            LinkAction::Nothing,
        ),
{
}

/// Every run comes to an end within the steps that `run_of` allows: it
/// stops in one of the two final states, after at most five actions.
pub proof fn lemma_every_run_ends(task: LinkTaskView, standing: Standing)
    ensures
        run_of(task, standing).state == LinkState::Linked || run_of(task, standing).state
            == LinkState::Failed,
        run_of(task, standing).actions.len() <= 5,
{
    reveal_with_fuel(run_from, 7);
}

/// Without force, where something stands at the destination the link is not
/// made, the task fails, and what stood there still stands: nothing was
/// removed.
pub proof fn lemma_unforced_run_leaves_the_destination(task: LinkTaskView, standing: Standing)
    requires
        !task.force,
        !(standing is Nothing),
    ensures
        run_of(task, standing).state == LinkState::Failed,
        run_of(task, standing).standing == standing,
        run_of(task, standing).actions == if task.parent is Some {
            seq![LinkAction::CreateParents, LinkAction::Link, LinkAction::ReportFailure]
        } else {
            seq![LinkAction::Link, LinkAction::ReportFailure]
        },
{
    reveal_with_fuel(run_from, 7);
}

/// Where nothing stands at the destination the link is made, with or
/// without force.
pub proof fn lemma_free_destination_is_linked(task: LinkTaskView)
    ensures
        run_of(task, Standing::Nothing).state == LinkState::Linked,
        run_of(task, Standing::Nothing).standing == Standing::LinkTo(task.source),
{
    reveal_with_fuel(run_from, 7);
}

/// Under force, a file, a directory or a link at the destination is removed
/// and the link is made in its place.
pub proof fn lemma_forced_run_replaces_the_destination(task: LinkTaskView, standing: Standing)
    requires
        task.force,
        !(standing is Other),
    ensures
        run_of(task, standing).state == LinkState::Linked,
        run_of(task, standing).standing == Standing::LinkTo(task.source),
{
    reveal_with_fuel(run_from, 7);
}

/// Under force a second run leaves what the first run left: it finds the
/// link of the first run, removes it and makes the same link again.
pub proof fn lemma_forced_run_is_idempotent(task: LinkTaskView, standing: Standing)
    requires
        task.force,
        !(standing is Other),
    ensures
        run_of(task, run_of(task, standing).standing).standing == run_of(task, standing).standing,
        run_of(task, run_of(task, standing).standing).state == LinkState::Linked,
        run_of(task, run_of(task, standing).standing).actions == if task.parent is Some {
            seq![
                LinkAction::CreateParents,
                LinkAction::Inspect,
                LinkAction::RemoveFile,
                LinkAction::Link,
                LinkAction::ReportLinked,
            ]
        } else {
            seq![
                LinkAction::Inspect,
                LinkAction::RemoveFile,
                LinkAction::Link,
                LinkAction::ReportLinked,
            ]
        },
{
    reveal_with_fuel(run_from, 7);
    lemma_forced_run_replaces_the_destination(task, standing);
}

/// Under force, an entry that is neither file, directory nor link makes the
/// run give up, and the entry is left as it is.
pub proof fn lemma_forced_run_gives_up_on_other_entries(task: LinkTaskView)
    requires
        task.force,
    ensures
        run_of(task, Standing::Other).standing == Standing::Other,
        run_of(task, Standing::Other).state == LinkState::Failed,
        run_of(task, Standing::Other).actions.last() == LinkAction::Abort,
{
    reveal_with_fuel(run_from, 7);
}

} // verus!
