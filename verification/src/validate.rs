//! The rules by which a declaration is judged before anything is linked.
//!
//! A declaration is judged against what the filesystem holds at its source.
//! The library does not look: the caller observes the source and hands the
//! kind of entry it found.

use crate::dotfiles::{display_line, error_text, Dot, DotView, Dots, DotsView, Op};
use crate::path::{has_parent, parent};
use vstd::prelude::*;

verus! {

/// What a path leads to.
#[derive(Debug, Clone, Copy, PartialEq, Eq, Structural)]
pub enum EntryKind {
    /// Nothing is there.
    Absent,
    /// A regular file.
    File,
    /// A directory.
    Directory,
    /// A symbolic link, when links are not followed.
    Symlink,
    /// Something else: a socket, a device, a pipe.
    Other,
}

/// What can be wrong with a declaration.
#[derive(Debug, Clone, Copy, PartialEq, Eq, Structural)]
pub enum ValidationError {
    /// A file is to be linked and the source is no regular file.
    SourceNotAFile,
    /// A directory is to be linked and the source is no directory.
    SourceNotADirectory,
    /// The row names no known operation.
    UnrecognizedOperation,
    /// The destination has no parent: it is empty or the root.
    DestinationUnparentable,
}

/// The kind of entry that an operation needs at the source; `None` where the
/// source does not matter.
pub open spec fn expected_source(op: Op) -> Option<EntryKind> {
    match op {
        Op::Symfile => Some(EntryKind::File),
        Op::Symdir => Some(EntryKind::Directory),
        Op::Ignore => None,
        Op::Invalid => None,
    }
}

/// What is wrong with the operation and the source, `found` being what the
/// source leads to.
pub open spec fn source_error(op: Op, found: EntryKind) -> Option<ValidationError> {
    match op {
        Op::Symfile => if found == EntryKind::File {
            None
        } else {
            Some(ValidationError::SourceNotAFile)
        },
        Op::Symdir => if found == EntryKind::Directory {
            None
        } else {
            Some(ValidationError::SourceNotADirectory)
        },
        Op::Ignore => None,
        Op::Invalid => Some(ValidationError::UnrecognizedOperation),
    }
}

/// What is wrong with a destination. It is judged for every operation.
pub open spec fn destination_error(dest: Seq<char>) -> Option<ValidationError> {
    if has_parent(dest) {
        None
    } else {
        Some(ValidationError::DestinationUnparentable)
    }
}

/// Zero or one error, as a sequence.
pub open spec fn listed(error: Option<ValidationError>) -> Seq<ValidationError> {
    match error {
        Some(e) => seq![e],
        None => seq![],
    }
}

/// All that is wrong with a declaration: first what concerns its operation
/// and source, then what concerns its destination.
pub open spec fn errors_of(dot: DotView, found: EntryKind) -> Seq<ValidationError> {
    listed(source_error(dot.operation, found)) + listed(destination_error(dot.dest))
}

/// What is said of an error of the declaration `dot`.
pub open spec fn message_of(error: ValidationError, dot: DotView) -> Seq<char> {
    match error {
        ValidationError::SourceNotAFile => "Path to the source file "@ + dot.source
            + " is not valid"@,
        ValidationError::SourceNotADirectory => "Path to the source directory "@ + dot.source
            + " is not valid"@,
        ValidationError::UnrecognizedOperation =>
            "Invalid operation. Only allowed `Symfile` or `Symdir` for files or directories respectively"@,
        ValidationError::DestinationUnparentable => "Path to destination "@ + dot.dest
            + " is not a valid"@,
    }
}

/// The blocks that report the first `n` of `errors`, one after the other.
pub open spec fn blocks_of(
    errors: Seq<ValidationError>,
    n: nat,
    filename: Seq<char>,
    headers: bool,
    dot: DotView,
) -> Seq<char>
    decreases n,
{
    if n == 0 {
        seq![]
    } else {
        blocks_of(errors, (n - 1) as nat, filename, headers, dot) + error_text(
            filename,
            display_line(dot.line, headers),
            dot.name,
            message_of(errors[n - 1], dot),
        )
    }
}

/// The diagnostic of a declaration: one block for each of its errors. A
/// declaration without errors has none.
pub open spec fn diagnostic_of(
    filename: Seq<char>,
    headers: bool,
    dot: DotView,
    found: EntryKind,
) -> Option<Seq<char>> {
    let errors = errors_of(dot, found);
    if errors.len() == 0 {
        None
    } else {
        Some(blocks_of(errors, errors.len(), filename, headers, dot))
    }
}

/// What the caller found at the source of the declaration at position `i`.
/// A source that the caller says nothing of counts as absent.
pub open spec fn observed(sources: Seq<EntryKind>, i: int) -> EntryKind {
    if 0 <= i < sources.len() {
        sources[i]
    } else {
        EntryKind::Absent
    }
}

/// The diagnostics of the first `n` declarations of a manifest, in order;
/// one for each declaration with which something is wrong.
pub open spec fn report_of(dots: DotsView, sources: Seq<EntryKind>, n: nat) -> Seq<Seq<char>>
    decreases n,
{
    if n == 0 {
        seq![]
    } else {
        let before = report_of(dots, sources, (n - 1) as nat);
        match diagnostic_of(
            dots.filename,
            dots.flags.headers,
            dots.dotfiles[n - 1],
            observed(sources, n - 1),
        ) {
            Some(text) => before.push(text),
            None => before,
        }
    }
}

/// The diagnostics of a manifest.
pub open spec fn report(dots: DotsView, sources: Seq<EntryKind>) -> Seq<Seq<char>> {
    report_of(dots, sources, dots.dotfiles.len())
}

impl Op {
    /// The kind of entry that the operation needs at the source. `None` says
    /// that the source need not be looked at.
    pub fn expected_source(&self) -> (kind: Option<EntryKind>)
        ensures
            kind == expected_source(*self),
    {
        match self {
            Op::Symfile => Some(EntryKind::File),
            Op::Symdir => Some(EntryKind::Directory),
            Op::Ignore => None,
            Op::Invalid => None,
        }
    }
}

impl ValidationError {
    /// Words the error for the declaration `dot`.
    pub fn message(&self, dot: &Dot) -> (text: String)
        ensures
            text@ == message_of(*self, dot@),
    {
        match self {
            ValidationError::SourceNotAFile => {
                let mut text = String::from_str("Path to the source file ");
                text.append(dot.source.as_str());
                text.append(" is not valid");
                text
            },
            ValidationError::SourceNotADirectory => {
                let mut text = String::from_str("Path to the source directory ");
                text.append(dot.source.as_str());
                text.append(" is not valid");
                text
            },
            ValidationError::UnrecognizedOperation => String::from_str(
                "Invalid operation. Only allowed `Symfile` or `Symdir` for files or directories respectively",
            ),
            ValidationError::DestinationUnparentable => {
                let mut text = String::from_str("Path to destination ");
                text.append(dot.dest.as_str());
                text.append(" is not a valid");
                text
            },
        }
    }
}

impl Dot {
    /// Judges the declaration, `found` being what its source leads to.
    /// Returns all that is wrong with it; nothing, if it may be linked.
    pub fn verify(&self, found: EntryKind) -> (errors: Vec<ValidationError>)
        ensures
            errors@ == errors_of(self@, found),
    {
        let mut errors: Vec<ValidationError> = Vec::new();
        match self.operation {
            Op::Symfile => {
                if found != EntryKind::File {
                    errors.push(ValidationError::SourceNotAFile);
                }
            },
            Op::Symdir => {
                if found != EntryKind::Directory {
                    errors.push(ValidationError::SourceNotADirectory);
                }
            },
            Op::Ignore => {},
            Op::Invalid => {
                errors.push(ValidationError::UnrecognizedOperation);
            },
        }
        if parent(self.dest.as_str()).is_none() {
            errors.push(ValidationError::DestinationUnparentable);
        }
        errors
    }

    /// The diagnostic of the declaration, if anything is wrong with it.
    /// `filename` names the manifest and `headers` says whether it has a
    /// header; `found` is what the source leads to.
    pub fn diagnostic(&self, filename: &String, headers: bool, found: EntryKind) -> (text: Option<
        String,
    >)
        ensures
            match diagnostic_of(filename@, headers, self@, found) {
                Some(expected) => text is Some && text->Some_0@ == expected,
                None => text is None,
            },
    {
        let errors = self.verify(found);
        if errors.len() == 0 {
            return None;
        }
        let skip: u128 = if headers {
            2
        } else {
            0
        };
        let line: u128 = self.line as u128 + skip + 1;
        let mut text = String::new();
        let mut i: usize = 0;
        while i < errors.len()
            invariant
                i <= errors.len(),
                errors@ == errors_of(self@, found),
                line == display_line(self@.line, headers),
                text@ == blocks_of(errors@, i as nat, filename@, headers, self@),
            decreases errors.len() - i,
        {
            let message = errors[i].message(self);
            let block = Dots::format_error(filename, line, &self.name, &message);
            text.append(block.as_str());
            i = i + 1;
        }
        Some(text)
    }
}

} // verus!
