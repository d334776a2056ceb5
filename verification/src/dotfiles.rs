//! Declarations, options and the manifest that holds them.

use crate::link::{plan, plan_of, task_views, LinkTask};
use crate::path::{parent, resolve, resolved, strip_dir, stripped};
use crate::text::{
    decimal, decimal_string, equal, fields_of, lines, lines_of, lowered, matches_keyword, split,
    trim, trimmed, views,
};
use crate::validate::{report, report_of, EntryKind};
use vstd::prelude::*;

verus! {

/// What a declaration asks for.
#[derive(Debug, Clone, Copy, PartialEq, Eq, Structural)]
pub enum Op {
    /// Link a regular file.
    Symfile,
    /// Link a directory.
    Symdir,
    /// Leave the row alone: it is neither checked against a source nor linked.
    Ignore,
    /// The row names no known operation; it is kept so that it can be reported.
    Invalid,
}

/// The formats a manifest can be written in.
#[derive(Debug, Clone, Copy, PartialEq, Eq, Structural)]
pub enum FormatFile {
    /// Rows of fields separated by `|`.
    OrgTable,
    /// Comma-separated values. No parser exists for it.
    Csv,
}

/// The operation that a keyword names. Case does not matter; a keyword that
/// names none is `Invalid`.
pub open spec fn op_of(keyword: Seq<char>) -> Op {
    if lowered(keyword) == "symfile"@ {
        Op::Symfile
    } else if lowered(keyword) == "symdir"@ {
        Op::Symdir
    } else if lowered(keyword) == "ignore"@ {
        Op::Ignore
    } else {
        Op::Invalid
    }
}

/// The name under which an operation is shown.
pub open spec fn op_label(op: Op) -> Seq<char> {
    match op {
        Op::Symfile => "Symfile"@,
        Op::Symdir => "Symdir"@,
        Op::Ignore => "Ignore"@,
        Op::Invalid => "Invalid"@,
    }
}

/// The format that a name selects, if it selects one.
pub open spec fn format_of(name: Seq<char>) -> Option<FormatFile> {
    if name == "org"@ {
        Some(FormatFile::OrgTable)
    } else if name == "csv"@ {
        Some(FormatFile::Csv)
    } else {
        None
    }
}

/// What is said of a name that selects no format.
pub open spec fn invalid_format_text(name: Seq<char>) -> Seq<char> {
    "Invalid format "@ + name + "."@
}

impl Op {
    /// Reads an operation keyword.
    pub fn parse(keyword: &str) -> (op: Op)
        ensures
            op == op_of(keyword@),
    {
        if matches_keyword(keyword, "symfile") {
            Op::Symfile
        } else if matches_keyword(keyword, "symdir") {
            Op::Symdir
        } else if matches_keyword(keyword, "ignore") {
            Op::Ignore
        } else {
            Op::Invalid
        }
    }

    /// The name under which the operation is shown.
    pub fn label(&self) -> (s: String)
        ensures
            s@ == op_label(*self),
    {
        match self {
            Op::Symfile => String::from_str("Symfile"),
            Op::Symdir => String::from_str("Symdir"),
            Op::Ignore => String::from_str("Ignore"),
            Op::Invalid => String::from_str("Invalid"),
        }
    }
}

impl FormatFile {
    /// Reads the name of a manifest format.
    pub fn parse(format_str: &str) -> (r: Result<FormatFile, String>)
        ensures
            match format_of(format_str@) {
                Some(format) => r == Ok::<FormatFile, String>(format),
                None => r is Err && r->Err_0@ == invalid_format_text(format_str@),
            },
    {
        if equal(format_str, "org") {
            Ok(FormatFile::OrgTable)
        } else if equal(format_str, "csv") {
            Ok(FormatFile::Csv)
        } else {
            let mut text = String::from_str("Invalid format ");
            text.append(format_str);
            text.append(".");
            Err(text)
        }
    }
}

/// One row of a manifest: a link that is wanted from `dest` to `source`.
#[derive(Debug)]
pub struct Dot {
    /// Position of the row among the lines that follow the header, from zero.
    pub line: usize,
    /// The name given to the row; it only serves in messages.
    pub name: String,
    /// The path the link points to.
    pub source: String,
    /// The path at which the link is made.
    pub dest: String,
    /// What the row asks for.
    pub operation: Op,
}

/// What a `Dot` stands for.
pub struct DotView {
    pub line: nat,
    pub name: Seq<char>,
    pub source: Seq<char>,
    pub dest: Seq<char>,
    pub operation: Op,
}

impl View for Dot {
    type V = DotView;

    open spec fn view(&self) -> DotView {
        DotView {
            line: self.line as nat,
            name: self.name@,
            source: self.source@,
            dest: self.dest@,
            operation: self.operation,
        }
    }
}

/// The views of a sequence of declarations.
pub open spec fn dot_views(dots: Seq<Dot>) -> Seq<DotView> {
    dots.map_values(|d: Dot| d@)
}

/// How a declaration is shown: name and line, the two paths, the operation.
pub open spec fn dot_text(dot: DotView) -> Seq<char> {
    "["@ + dot.name + ":"@ + decimal(dot.line) + "] "@ + dot.source + " -> "@ + dot.dest + " | "@
        + op_label(dot.operation)
}

/// The declaration that the fields of a row make. All four lose the
/// whitespace around them; the destination is brought into normal form, and
/// the keyword is read as an operation.
pub open spec fn declared(
    line: nat,
    name: Seq<char>,
    source: Seq<char>,
    dest: Seq<char>,
    op: Seq<char>,
) -> DotView {
    DotView {
        line,
        name: trimmed(name),
        source: trimmed(source),
        dest: stripped(trimmed(dest)),
        operation: op_of(trimmed(op)),
    }
}

impl Dot {
    /// Makes a declaration from the fields of a row. Relative paths are not
    /// resolved here: the caller hands in paths that are resolved already.
    pub fn new(line: usize, name: &str, source: &str, dest: &str, op: &str) -> (dot: Dot)
        ensures
            dot@ == declared(line as nat, name@, source@, dest@, op@),
    {
        Dot {
            line,
            name: String::from_str(trim(name)),
            source: String::from_str(trim(source)),
            dest: strip_dir(String::from_str(trim(dest))),
            operation: Op::parse(trim(op)),
        }
    }

    /// Shows the declaration on one line.
    pub fn to_string(&self) -> (text: String)
        ensures
            text@ == dot_text(self@),
    {
        let mut text = String::from_str("[");
        text.append(self.name.as_str());
        text.append(":");
        text.append(decimal_string(self.line as u128).as_str());
        text.append("] ");
        text.append(self.source.as_str());
        text.append(" -> ");
        text.append(self.dest.as_str());
        text.append(" | ");
        text.append(self.operation.label().as_str());
        text
    }
}

/// The options of a run.
#[derive(Debug)]
pub struct Flags {
    file_format: FormatFile,
    headers: bool,
    force: bool,
    source_prefix: String,
    destination_prefix: String,
}

/// What a `Flags` stands for.
pub struct FlagsView {
    /// The format the manifest is written in.
    pub file_format: FormatFile,
    /// Whether the manifest starts with a title row and a rule.
    pub headers: bool,
    /// Whether what stands at a destination may be removed.
    pub force: bool,
    /// The directory under which relative sources lie, in normal form.
    pub source_prefix: Seq<char>,
    /// The directory under which relative destinations lie, in normal form.
    pub destination_prefix: Seq<char>,
}

impl View for Flags {
    type V = FlagsView;

    closed spec fn view(&self) -> FlagsView {
        FlagsView {
            file_format: self.file_format,
            headers: self.headers,
            force: self.force,
            source_prefix: self.source_prefix@,
            destination_prefix: self.destination_prefix@,
        }
    }
}

/// The number of lines that a header takes.
pub open spec fn skip_rows(headers: bool) -> nat {
    if headers {
        2
    } else {
        0
    }
}

impl Flags {
    /// Makes the options of a run. The format is given by its name, `org` or
    /// `csv`; the two prefixes are brought into normal form.
    pub fn build(
        file_format: &str,
        headers: bool,
        force: bool,
        source_prefix: String,
        destination_prefix: String,
    ) -> (flags: Flags)
        requires
            format_of(file_format@) is Some,
        ensures
            flags@ == (FlagsView {
                file_format: format_of(file_format@)->Some_0,
                headers,
                force,
                source_prefix: stripped(source_prefix@),
                destination_prefix: stripped(destination_prefix@),
            }),
    {
        let file_format = if equal(file_format, "org") {
            FormatFile::OrgTable
        } else {
            FormatFile::Csv
        };
        Flags {
            file_format,
            headers,
            force,
            source_prefix: strip_dir(source_prefix),
            destination_prefix: strip_dir(destination_prefix),
        }
    }

    /// The format the manifest is written in.
    pub fn file_format(&self) -> (format: FormatFile)
        ensures
            format == self@.file_format,
    {
        self.file_format
    }

    /// Whether the manifest starts with a title row and a rule.
    pub fn headers(&self) -> (headers: bool)
        ensures
            headers == self@.headers,
    {
        self.headers
    }

    /// Whether what stands at a destination may be removed.
    pub fn force(&self) -> (force: bool)
        ensures
            force == self@.force,
    {
        self.force
    }

    /// The directory under which relative sources lie.
    pub fn source_prefix(&self) -> (prefix: &String)
        ensures
            prefix@ == self@.source_prefix,
    {
        &self.source_prefix
    }

    /// The directory under which relative destinations lie.
    pub fn destination_prefix(&self) -> (prefix: &String)
        ensures
            prefix@ == self@.destination_prefix,
    {
        &self.destination_prefix
    }
}

/// Why a manifest could not be read into declarations.
#[derive(Debug, Clone, Copy, PartialEq, Eq, Structural)]
pub enum ParseError {
    /// The manifest does not exist or cannot be read.
    ManifestNotFound,
    /// No parser exists for the format that the options select.
    UnsupportedFormat,
}

/// What is said of a failure to read the manifest `filename`.
pub open spec fn parse_error_text(error: ParseError, filename: Seq<char>) -> Seq<char> {
    match error {
        ParseError::ManifestNotFound => "File "@ + filename + " does not exist."@,
        ParseError::UnsupportedFormat => "ERROR: FormatFile::Csv is not implemented yet."@,
    }
}

impl ParseError {
    /// Words the failure for the user.
    pub fn message(&self, filename: &str) -> (text: String)
        ensures
            text@ == parse_error_text(*self, filename@),
    {
        match self {
            ParseError::ManifestNotFound => {
                let mut text = String::from_str("File ");
                text.append(filename);
                text.append(" does not exist.");
                text
            },
            ParseError::UnsupportedFormat => String::from_str(
                "ERROR: FormatFile::Csv is not implemented yet.",
            ),
        }
    }
}

/// The fields of a line: the pieces between its `|`, where a `|` at the end
/// of the line closes the last field rather than opening an empty one. A
/// line that starts with `|` has an empty first field.
pub open spec fn cells_of(line: Seq<char>) -> Seq<Seq<char>> {
    let pieces = fields_of(line, '|');
    if pieces.len() > 0 && pieces.last().len() == 0 {
        pieces.drop_last()
    } else {
        pieces
    }
}

/// The declaration that one line of the manifest makes, if it makes one.
///
/// With fewer than five fields the line declares nothing. Otherwise the
/// second field is the name, the third the source, the fourth the
/// destination and the fifth the operation, each without the whitespace
/// around it; source and destination are resolved against their prefixes
/// before the declaration is made of them. `index` is the line's position
/// after the header.
pub open spec fn row_of(line: Seq<char>, index: nat, flags: FlagsView) -> Option<DotView> {
    let fields = cells_of(line);
    if fields.len() < 5 {
        None
    } else {
        Some(
            declared(
                index,
                fields[1],
                resolved(trimmed(fields[2]), flags.source_prefix),
                resolved(trimmed(fields[3]), flags.destination_prefix),
                fields[4],
            ),
        )
    }
}

/// The declarations of the first `n` of `rows`, in order.
pub open spec fn rows_of(rows: Seq<Seq<char>>, flags: FlagsView, n: nat) -> Seq<DotView>
    decreases n,
{
    if n == 0 {
        seq![]
    } else {
        let before = rows_of(rows, flags, (n - 1) as nat);
        match row_of(rows[n - 1], (n - 1) as nat, flags) {
            Some(dot) => before.push(dot),
            None => before,
        }
    }
}

/// The lines of a manifest that follow its header.
pub open spec fn body_of(text: Seq<char>, headers: bool) -> Seq<Seq<char>> {
    let all = lines_of(text);
    if all.len() <= skip_rows(headers) {
        seq![]
    } else {
        all.subrange(skip_rows(headers) as int, all.len() as int)
    }
}

/// The declarations that a manifest text makes under the given options.
pub open spec fn parsed(text: Seq<char>, flags: FlagsView) -> Seq<DotView> {
    let body = body_of(text, flags.headers);
    rows_of(body, flags, body.len())
}

/// The line number under which a declaration is reported: lines are counted
/// from one, header included.
pub open spec fn display_line(line: nat, headers: bool) -> nat {
    line + skip_rows(headers) + 1
}

/// Cuts a line into its fields.
pub fn cells(line: &str) -> (fields: Vec<String>)
    ensures
        views(fields@) == cells_of(line@),
{
    let mut fields = split(line, '|');
    let n: usize = fields.len();
    if n > 0 && fields[n - 1].as_str().is_empty() {
        fields.pop();
    }
    fields
}

/// Reads the declarations of a manifest text.
fn parse_rows(text: &str, flags: &Flags) -> (dots: Vec<Dot>)
    ensures
        dot_views(dots@) == parsed(text@, flags@),
{
    let all = lines(text);
    let skip: usize = if flags.headers {
        2
    } else {
        0
    };
    let mut dots: Vec<Dot> = Vec::new();
    if all.len() <= skip {
        return dots;
    }
    let ghost body = body_of(text@, flags@.headers);
    let mut i: usize = skip;
    while i < all.len()
        invariant
            skip <= i <= all.len(),
            skip == skip_rows(flags@.headers),
            views(all@) == lines_of(text@),
            body == body_of(text@, flags@.headers),
            body.len() == all.len() - skip,
            dot_views(dots@) == rows_of(body, flags@, (i - skip) as nat),
        decreases all.len() - i,
    {
        let line: &String = &all[i];
        assert(line@ == body[i - skip]);
        let fields = cells(line.as_str());
        if fields.len() >= 5 {
            let source = resolve(trim(fields[2].as_str()), flags.source_prefix.as_str());
            let dest = resolve(trim(fields[3].as_str()), flags.destination_prefix.as_str());
            let dot = Dot::new(
                i - skip,
                fields[1].as_str(),
                source.as_str(),
                dest.as_str(),
                fields[4].as_str(),
            );
            dots.push(dot);
        }
        i = i + 1;
    }
    dots
}

/// A manifest: the declarations read so far, the options they were read
/// under and the name of the file they came from.
#[derive(Debug)]
pub struct Dots {
    filename: String,
    flags: Flags,
    dotfiles: Vec<Dot>,
}

/// What a `Dots` stands for.
pub struct DotsView {
    /// The name of the manifest that was read last; empty before any.
    pub filename: Seq<char>,
    /// The options of the run.
    pub flags: FlagsView,
    /// The declarations, in the order of their rows.
    pub dotfiles: Seq<DotView>,
}

impl View for Dots {
    type V = DotsView;

    closed spec fn view(&self) -> DotsView {
        DotsView {
            filename: self.filename@,
            flags: self.flags@,
            dotfiles: dot_views(self.dotfiles@),
        }
    }
}

/// The block that reports `message` for the declaration `name` at `line` of
/// the manifest `filename`.
pub open spec fn error_text(
    filename: Seq<char>,
    line: nat,
    name: Seq<char>,
    message: Seq<char>,
) -> Seq<char> {
    "./"@ + filename + ":"@ + decimal(line) + ":0 -> Dotfile '"@ + name + "'\n\t"@ + message
}

/// The first `n` declarations as text, each on a line of its own.
pub open spec fn listing_of(dots: Seq<DotView>, n: nat) -> Seq<char>
    decreases n,
{
    if n == 0 {
        seq![]
    } else {
        listing_of(dots, (n - 1) as nat) + dot_text(dots[n - 1]) + "\n"@
    }
}

/// What `parse_file` makes of a manifest: the name is recorded and the
/// declarations of the text follow those already held.
pub open spec fn after_parse(before: DotsView, filename: Seq<char>, text: Seq<char>) -> DotsView {
    DotsView {
        filename,
        flags: before.flags,
        dotfiles: before.dotfiles + parsed(text, before.flags),
    }
}

impl Dots {
    /// Writes the block that reports `message` for the declaration `name` at
    /// `line` of the manifest `filename`.
    pub fn format_error(filename: &String, line: u128, name: &String, message: &String) -> (text:
        String)
        ensures
            text@ == error_text(filename@, line as nat, name@, message@),
    {
        let mut text = String::from_str("./");
        text.append(filename.as_str());
        text.append(":");
        text.append(decimal_string(line).as_str());
        text.append(":0 -> Dotfile '");
        text.append(name.as_str());
        text.append("'\n\t");
        text.append(message.as_str());
        text
    }

    /// An empty manifest under the given options.
    pub fn build(flags: Flags) -> (dots: Dots)
        ensures
            dots@ == (DotsView { filename: Seq::<char>::empty(), flags: flags@, dotfiles: seq![] }),
    {
        let dots = Dots { filename: String::new(), flags, dotfiles: Vec::new() };
        assert(dot_views(dots.dotfiles@) == Seq::<DotView>::empty());
        dots
    }

    /// Reads the manifest `filename`, whose text is `contents`; `None` stands
    /// for a manifest that does not exist or cannot be read.
    ///
    /// A format without a parser is an error of the options and is reported
    /// first, whether the manifest is there or not; then a missing manifest.
    /// Either error leaves everything as it was. Otherwise the declarations
    /// of the text are added after those already held, and `filename` is
    /// recorded.
    pub fn parse_file(&mut self, filename: &str, contents: Option<&str>) -> (r: Result<
        (),
        ParseError,
    >)
        ensures
            r == if old(self)@.flags.file_format == FormatFile::Csv {
                Err::<(), ParseError>(ParseError::UnsupportedFormat)
            } else {
                match contents {
                    None => Err(ParseError::ManifestNotFound),
                    Some(_) => Ok(()),
                }
            },
            r is Err ==> final(self)@ == old(self)@,
            r is Ok ==> final(self)@ == after_parse(old(self)@, filename@, contents->Some_0@),
    {
        match self.flags.file_format {
            FormatFile::Csv => Err(ParseError::UnsupportedFormat),
            FormatFile::OrgTable => {
                let text: &str = match contents {
                    None => {
                        return Err(ParseError::ManifestNotFound);
                    },
                    Some(text) => text,
                };
                let mut found = parse_rows(text, &self.flags);
                let ghost held = self.dotfiles@;
                let ghost added = found@;
                self.dotfiles.append(&mut found);
                self.filename = String::from_str(filename);
                proof {
                    assert(dot_views(held + added) == dot_views(held) + dot_views(added));
                }
                Ok(())
            },
        }
    }

    /// Judges every declaration before anything is linked.
    ///
    /// `sources[i]` tells what the source of the declaration at position `i`
    /// leads to; a declaration beyond the end of `sources` counts as having
    /// nothing at its source. All declarations are judged, whatever the
    /// others gave. The manifest passes if nothing is wrong with any of them;
    /// otherwise the diagnostics of the failing declarations are returned in
    /// the order of their rows.
    pub fn verify_dotfiles(&self, sources: &Vec<EntryKind>) -> (r: Result<(), Vec<String>>)
        ensures
            r is Ok <==> report(self@, sources@).len() == 0,
            r matches Err(texts) ==> views(texts@) == report(self@, sources@),
    {
        let mut texts: Vec<String> = Vec::new();
        let mut i: usize = 0;
        while i < self.dotfiles.len()
            invariant
                i <= self.dotfiles.len(),
                views(texts@) == report_of(self@, sources@, i as nat),
            decreases self.dotfiles.len() - i,
        {
            let found = if i < sources.len() {
                sources[i]
            } else {
                EntryKind::Absent
            };
            let dot: &Dot = &self.dotfiles[i];
            if let Some(text) = dot.diagnostic(&self.filename, self.flags.headers, found) {
                texts.push(text);
            }
            i = i + 1;
        }
        if texts.len() == 0 {
            Ok(())
        } else {
            Err(texts)
        }
    }

    /// Lists the links to make, in the order of their rows. A declaration
    /// that is to be ignored gives no task, nor does one whose operation is
    /// not known.
    pub fn execute(&self) -> (tasks: Vec<LinkTask>)
        ensures
            task_views(tasks@) == plan(self@),
    {
        let mut tasks: Vec<LinkTask> = Vec::new();
        let mut i: usize = 0;
        while i < self.dotfiles.len()
            invariant
                i <= self.dotfiles.len(),
                task_views(tasks@) == plan_of(self@, i as nat),
            decreases self.dotfiles.len() - i,
        {
            let dot: &Dot = &self.dotfiles[i];
            match dot.operation {
                Op::Symfile | Op::Symdir => {
                    let skip: u128 = if self.flags.headers {
                        2
                    } else {
                        0
                    };
                    let task = LinkTask {
                        filename: self.filename.clone(),
                        line: dot.line as u128 + skip + 1,
                        name: dot.name.clone(),
                        source: dot.source.clone(),
                        dest: dot.dest.clone(),
                        parent: parent(dot.dest.as_str()),
                        operation: dot.operation,
                        force: self.flags.force,
                    };
                    tasks.push(task);
                },
                _ => {},
            }
            i = i + 1;
        }
        tasks
    }

    /// The name of the manifest that was read last.
    pub fn filename(&self) -> (name: &String)
        ensures
            name@ == self@.filename,
    {
        &self.filename
    }

    /// The options of the run.
    pub fn flags(&self) -> (flags: &Flags)
        ensures
            flags@ == self@.flags,
    {
        &self.flags
    }

    /// The declarations, in the order of their rows.
    pub fn dotfiles(&self) -> (dots: &Vec<Dot>)
        ensures
            dot_views(dots@) == self@.dotfiles,
    {
        &self.dotfiles
    }

    /// Shows the declarations, each on a line of its own.
    pub fn to_string(&self) -> (text: String)
        ensures
            text@ == listing_of(self@.dotfiles, self@.dotfiles.len()),
    {
        let mut text = String::new();
        let mut i: usize = 0;
        while i < self.dotfiles.len()
            invariant
                i <= self.dotfiles.len(),
                text@ == listing_of(self@.dotfiles, i as nat),
            decreases self.dotfiles.len() - i,
        {
            let dot: &Dot = &self.dotfiles[i];
            text.append(dot.to_string().as_str());
            text.append("\n");
            i = i + 1;
        }
        text
    }
}

} // verus!
