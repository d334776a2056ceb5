//! Making the links: what is to be linked, and the steps by which one link is
//! made.
//!
//! The library decides and the caller acts. For each task the caller starts
//! in `LinkState::Ready`, asks `LinkTask::step` what to do, does it, and
//! comes back with what happened, until the step says there is nothing left.

use crate::dotfiles::{display_line, error_text, op_label, DotView, Dots, DotsView, Op};
use crate::path::parent_of;
use crate::validate::EntryKind;
use vstd::prelude::*;

verus! {

/// One link to make.
#[derive(Debug)]
pub struct LinkTask {
    /// The manifest that declared the link.
    pub filename: String,
    /// The line of the declaration, counted from one with the header.
    pub line: u128,
    /// The name of the declaration.
    pub name: String,
    /// The path the link points to.
    pub source: String,
    /// The path at which the link is made.
    pub dest: String,
    /// The directory that has to exist for the link to be made, if the
    /// destination has a parent.
    pub parent: Option<String>,
    /// The operation that was declared.
    pub operation: Op,
    /// Whether what stands at the destination may be removed.
    pub force: bool,
}

/// What a `LinkTask` stands for.
pub struct LinkTaskView {
    pub filename: Seq<char>,
    pub line: nat,
    pub name: Seq<char>,
    pub source: Seq<char>,
    pub dest: Seq<char>,
    pub parent: Option<Seq<char>>,
    pub operation: Op,
    pub force: bool,
}

impl View for LinkTask {
    type V = LinkTaskView;

    open spec fn view(&self) -> LinkTaskView {
        LinkTaskView {
            filename: self.filename@,
            line: self.line as nat,
            name: self.name@,
            source: self.source@,
            dest: self.dest@,
            parent: match self.parent {
                Some(dir) => Some(dir@),
                None => None,
            },
            operation: self.operation,
            force: self.force,
        }
    }
}

/// The views of a sequence of tasks.
pub open spec fn task_views(tasks: Seq<LinkTask>) -> Seq<LinkTaskView> {
    tasks.map_values(|t: LinkTask| t@)
}

/// Whether an operation asks for a link.
pub open spec fn linkable(op: Op) -> bool {
    op == Op::Symfile || op == Op::Symdir
}

/// The task that a declaration of the manifest `dots` gives.
pub open spec fn task_of(dots: DotsView, dot: DotView) -> LinkTaskView {
    LinkTaskView {
        filename: dots.filename,
        line: display_line(dot.line, dots.flags.headers),
        name: dot.name,
        source: dot.source,
        dest: dot.dest,
        parent: parent_of(dot.dest),
        operation: dot.operation,
        force: dots.flags.force,
    }
}

/// The tasks of the first `n` declarations of a manifest, in order: one for
/// each declaration that asks for a link.
pub open spec fn plan_of(dots: DotsView, n: nat) -> Seq<LinkTaskView>
    decreases n,
{
    if n == 0 {
        seq![]
    } else {
        let before = plan_of(dots, (n - 1) as nat);
        let dot = dots.dotfiles[n - 1];
        if linkable(dot.operation) {
            before.push(task_of(dots, dot))
        } else {
            before
        }
    }
}

/// The tasks of a manifest.
pub open spec fn plan(dots: DotsView) -> Seq<LinkTaskView> {
    plan_of(dots, dots.dotfiles.len())
}

/// Where the making of one link stands.
#[derive(Debug, Clone, Copy, PartialEq, Eq, Structural)]
pub enum LinkState {
    /// Nothing was done yet.
    Ready,
    /// The parent directories were asked for.
    Preparing,
    /// The destination is being looked at.
    Inspecting,
    /// What stood at the destination is being removed.
    Removing,
    /// The link is being made.
    Linking,
    /// The link was made.
    Linked,
    /// The link was not made.
    Failed,
}

/// What the caller reports of the action it was asked for.
#[derive(Debug, Clone, Copy, PartialEq, Eq, Structural)]
pub enum LinkEvent {
    /// Nothing was asked for yet.
    Start,
    /// The action was performed.
    Done,
    /// The action failed.
    Failure,
    /// The destination was looked at, without following a link, and leads
    /// to an entry of this kind.
    Found(EntryKind),
}

/// What the caller is asked to do.
#[derive(Debug, Clone, Copy, PartialEq, Eq, Structural)]
pub enum LinkAction {
    /// Create the directory `parent` and those above it. Failure is
    /// reported like success: the attempt to link will show what is wrong.
    CreateParents,
    /// Tell what `dest` leads to, without following a link.
    Inspect,
    /// Remove the directory `dest` and all it holds.
    RemoveTree,
    /// Remove the file or link `dest`.
    RemoveFile,
    /// Make at `dest` a symbolic link to `source`.
    Link,
    /// Record that the link was made.
    ReportLinked,
    /// Report that the link was not made, and go on with the next task.
    ReportFailure,
    /// Give up the whole run: `dest` is neither file, directory nor link.
    Abort,
    /// The task is over.
    Nothing,
}

/// The step that follows the creation of the parent directories.
pub open spec fn after_parents(force: bool) -> (LinkState, LinkAction) {
    if force {
        (LinkState::Inspecting, LinkAction::Inspect)
    } else {
        (LinkState::Linking, LinkAction::Link)
    }
}

/// The step that follows the look at the destination. Only under `force` is
/// anything removed.
pub open spec fn after_inspection(force: bool, event: LinkEvent) -> (LinkState, LinkAction) {
    match event {
        LinkEvent::Found(EntryKind::Directory) if force => (
            LinkState::Removing,
            LinkAction::RemoveTree,
        ),
        LinkEvent::Found(EntryKind::File) if force => (LinkState::Removing, LinkAction::RemoveFile),
        LinkEvent::Found(EntryKind::Symlink) if force => (
            LinkState::Removing,
            LinkAction::RemoveFile,
        ),
        LinkEvent::Found(EntryKind::Other) if force => (LinkState::Failed, LinkAction::Abort),
        _ => (LinkState::Linking, LinkAction::Link),
    }
}

/// The next state of a task and what to do to reach it, for a task whose
/// destination has a parent or not and which may remove or not.
pub open spec fn link_step(has_parent: bool, force: bool, state: LinkState, event: LinkEvent) -> (
    LinkState,
    LinkAction,
) {
    match state {
        LinkState::Ready => if has_parent {
            (LinkState::Preparing, LinkAction::CreateParents)
        } else {
            after_parents(force)
        },
        LinkState::Preparing => after_parents(force),
        LinkState::Inspecting => after_inspection(force, event),
        LinkState::Removing => if event == LinkEvent::Failure {
            (LinkState::Failed, LinkAction::ReportFailure)
        } else {
            (LinkState::Linking, LinkAction::Link)
        },
        LinkState::Linking => if event == LinkEvent::Failure {
            (LinkState::Failed, LinkAction::ReportFailure)
        } else {
            (LinkState::Linked, LinkAction::ReportLinked)
        },
        LinkState::Linked => (LinkState::Linked, LinkAction::Nothing),
        LinkState::Failed => (LinkState::Failed, LinkAction::Nothing),
    }
}

/// The record of a link that was made.
pub open spec fn linked_text(task: LinkTaskView) -> Seq<char> {
    "[LOG] Source "@ + task.source + " to dest "@ + task.dest
}

/// What is said when a destination is neither file, directory nor link.
pub open spec fn abort_text(task: LinkTaskView) -> Seq<char> {
    "Unreachable statement. Path can only be either a file or directory (or symlink):  "@
        + task.dest
}

/// A link that could not be made.
#[derive(Debug)]
pub struct LinkError {
    /// The operation that was declared.
    pub operation: Op,
    /// The path the link was to point to.
    pub source: String,
    /// The path at which the link was to be made.
    pub dest: String,
    /// What the system said.
    pub reason: String,
}

/// What a `LinkError` stands for.
pub struct LinkErrorView {
    pub operation: Op,
    pub source: Seq<char>,
    pub dest: Seq<char>,
    pub reason: Seq<char>,
}

impl View for LinkError {
    type V = LinkErrorView;

    open spec fn view(&self) -> LinkErrorView {
        LinkErrorView {
            operation: self.operation,
            source: self.source@,
            dest: self.dest@,
            reason: self.reason@,
        }
    }
}

/// The failure of a task for the given reason.
pub open spec fn failure_of(task: LinkTaskView, reason: Seq<char>) -> LinkErrorView {
    LinkErrorView { operation: task.operation, source: task.source, dest: task.dest, reason }
}

/// What is said of a link that could not be made.
pub open spec fn link_error_text(error: LinkErrorView) -> Seq<char> {
    "Error "@ + error.reason + " while symlinking "@ + error.source + " to "@ + error.dest + " ("@
        + op_label(error.operation) + ")"@
}

/// The block that reports the failure of a task.
pub open spec fn failure_report(task: LinkTaskView, error: LinkErrorView) -> Seq<char> {
    error_text(task.filename, task.line, task.name, link_error_text(error))
}

impl LinkError {
    /// Words the failure.
    pub fn message(&self) -> (text: String)
        ensures
            text@ == link_error_text(self@),
    {
        let mut text = String::from_str("Error ");
        text.append(self.reason.as_str());
        text.append(" while symlinking ");
        text.append(self.source.as_str());
        text.append(" to ");
        text.append(self.dest.as_str());
        text.append(" (");
        text.append(self.operation.label().as_str());
        text.append(")");
        text
    }
}

impl LinkTask {
    /// Tells what to do next. `state` is where the task stands and `event`
    /// what came of the action asked for last; the result is the new state
    /// and the action to perform now.
    pub fn step(&self, state: LinkState, event: LinkEvent) -> (next: (LinkState, LinkAction))
        ensures
            next == link_step(self@.parent is Some, self@.force, state, event),
    {
        let onward = if self.force {
            (LinkState::Inspecting, LinkAction::Inspect)
        } else {
            (LinkState::Linking, LinkAction::Link)
        };
        match state {
            LinkState::Ready => {
                if self.parent.is_some() {
                    (LinkState::Preparing, LinkAction::CreateParents)
                } else {
                    onward
                }
            },
            LinkState::Preparing => onward,
            LinkState::Inspecting => {
                if !self.force {
                    return (LinkState::Linking, LinkAction::Link);
                }
                match event {
                    LinkEvent::Found(EntryKind::Directory) => (
                        LinkState::Removing,
                        LinkAction::RemoveTree,
                    ),
                    LinkEvent::Found(EntryKind::File) => (
                        LinkState::Removing,
                        LinkAction::RemoveFile,
                    ),
                    LinkEvent::Found(EntryKind::Symlink) => (
                        LinkState::Removing,
                        LinkAction::RemoveFile,
                    ),
                    LinkEvent::Found(EntryKind::Other) => (LinkState::Failed, LinkAction::Abort),
                    _ => (LinkState::Linking, LinkAction::Link),
                }
            },
            LinkState::Removing => {
                match event {
                    LinkEvent::Failure => (LinkState::Failed, LinkAction::ReportFailure),
                    _ => (LinkState::Linking, LinkAction::Link),
                }
            },
            LinkState::Linking => {
                match event {
                    LinkEvent::Failure => (LinkState::Failed, LinkAction::ReportFailure),
                    _ => (LinkState::Linked, LinkAction::ReportLinked),
                }
            },
            LinkState::Linked => (LinkState::Linked, LinkAction::Nothing),
            LinkState::Failed => (LinkState::Failed, LinkAction::Nothing),
        }
    }

    /// The record of the link, once it is made.
    pub fn linked_message(&self) -> (text: String)
        ensures
            text@ == linked_text(self@),
    {
        let mut text = String::from_str("[LOG] Source ");
        text.append(self.source.as_str());
        text.append(" to dest ");
        text.append(self.dest.as_str());
        text
    }

    /// What to say when the run is given up at the destination.
    pub fn abort_message(&self) -> (text: String)
        ensures
            text@ == abort_text(self@),
    {
        let mut text = String::from_str(
            "Unreachable statement. Path can only be either a file or directory (or symlink):  ",
        );
        text.append(self.dest.as_str());
        text
    }

    /// The failure of the link, `reason` being what the system said.
    pub fn failure(&self, reason: &str) -> (error: LinkError)
        ensures
            error@ == failure_of(self@, reason@),
    {
        LinkError {
            operation: self.operation,
            source: self.source.clone(),
            dest: self.dest.clone(),
            reason: String::from_str(reason),
        }
    }

    /// The block that reports a failure of the link.
    pub fn failure_message(&self, error: &LinkError) -> (text: String)
        ensures
            text@ == failure_report(self@, error@),
    {
        let message = error.message();
        Dots::format_error(&self.filename, self.line, &self.name, &message)
    }
}

} // verus!
