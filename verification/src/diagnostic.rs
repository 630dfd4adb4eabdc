//! What goes wrong while files and directories are looked at, and the line
//! that says so.

use crate::render::bold_piece;
use crate::render::debug_form;
use crate::render::plain_piece;
use crate::render::render;
use crate::render::renders_as;
use crate::render::Piece;
use crate::render::PieceView;
use crate::render::Tint;
use vstd::prelude::*;

verus! {

/// One thing that went wrong. The first two give the cause at the place
/// where a path could not be read; the others are the warnings of a
/// directory that goes on without one of its entries.
#[derive(Clone, Debug, PartialEq, Eq)]
pub enum Diagnostic {
    /// A path could not be opened as a directory.
    DirectoryUnreadable { path: String, cause: String },
    /// The metadata of a path could not be read.
    FileUnreadable { path: String, cause: String },
    /// A directory leaves out a subdirectory that could not be read.
    SubdirectorySkipped { path: String },
    /// A directory leaves out a file that could not be read.
    FileSkipped { path: String },
    /// A directory leaves out an entry that its listing could not give.
    EntryUnreadable { cause: String },
}

/// A `Diagnostic` as plain values.
pub enum DiagnosticView {
    DirectoryUnreadable { path: Seq<char>, cause: Seq<char> },
    FileUnreadable { path: Seq<char>, cause: Seq<char> },
    SubdirectorySkipped { path: Seq<char> },
    FileSkipped { path: Seq<char> },
    EntryUnreadable { cause: Seq<char> },
}

impl View for Diagnostic {
    type V = DiagnosticView;

    open spec fn view(&self) -> DiagnosticView {
        match self {
            Diagnostic::DirectoryUnreadable { path, cause } => DiagnosticView::DirectoryUnreadable {
                path: path@,
                cause: cause@,
            },
            Diagnostic::FileUnreadable { path, cause } => DiagnosticView::FileUnreadable {
                path: path@,
                cause: cause@,
            },
            Diagnostic::SubdirectorySkipped { path } => DiagnosticView::SubdirectorySkipped {
                path: path@,
            },
            Diagnostic::FileSkipped { path } => DiagnosticView::FileSkipped { path: path@ },
            Diagnostic::EntryUnreadable { cause } => DiagnosticView::EntryUnreadable {
                cause: cause@,
            },
        }
    }
}

impl DeepView for Diagnostic {
    type V = DiagnosticView;

    open spec fn deep_view(&self) -> DiagnosticView {
        self@
    }
}

impl DiagnosticView {
    /// Whether this is the warning of a directory about an entry it leaves
    /// out.
    pub open spec fn is_warning(self) -> bool {
        self is SubdirectorySkipped || self is FileSkipped || self is EntryUnreadable
    }

    /// The pieces of the line that reports this.
    pub open spec fn pieces(self) -> Seq<PieceView> {
        match self {
            DiagnosticView::DirectoryUnreadable { path, cause } => seq![
                bold_piece("ERROR:"@, Tint::Red),
                plain_piece(" Cannot read directory "@),
                plain_piece(debug_form(path)),
                plain_piece(": "@),
                plain_piece(cause),
            ],
            DiagnosticView::FileUnreadable { path, cause } => seq![
                bold_piece("ERROR:"@, Tint::Red),
                plain_piece(" Cannot read file "@),
                plain_piece(debug_form(path)),
                plain_piece(": "@),
                plain_piece(cause),
            ],
            DiagnosticView::SubdirectorySkipped { path } => seq![
                plain_piece("Warning: Cannot read subdirectory "@),
                plain_piece(debug_form(path)),
            ],
            DiagnosticView::FileSkipped { path } => seq![
                plain_piece("Warning: Cannot read file "@),
                plain_piece(debug_form(path)),
            ],
            DiagnosticView::EntryUnreadable { cause } => seq![
                plain_piece("Warning: Cannot read entry: "@),
                plain_piece(cause),
            ],
        }
    }
}

/// How many of the diagnostics are warnings.
pub open spec fn warning_count(log: Seq<DiagnosticView>) -> nat
    decreases log.len(),
{
    if log.len() == 0 {
        0
    } else {
        warning_count(log.drop_last()) + if log.last().is_warning() {
            1nat
        } else {
            0nat
        }
    }
}

impl Diagnostic {
    /// Whether this is the warning of a directory about an entry it leaves
    /// out.
    pub fn is_warning(&self) -> (yes: bool)
        ensures
            yes == self@.is_warning(),
    {
        match self {
            Diagnostic::DirectoryUnreadable { .. } => false,
            Diagnostic::FileUnreadable { .. } => false,
            Diagnostic::SubdirectorySkipped { .. } => true,
            Diagnostic::FileSkipped { .. } => true,
            Diagnostic::EntryUnreadable { .. } => true,
        }
    }

    /// The pieces of the line that reports this.
    pub fn pieces(&self) -> (pieces: Vec<Piece>)
        ensures
            pieces.deep_view() == self@.pieces(),
    {
        let mut pieces: Vec<Piece> = Vec::new();
        match self {
            Diagnostic::DirectoryUnreadable { path, cause } => {
                pieces.push(Piece::bold("ERROR:", Tint::Red));
                pieces.push(Piece::plain(" Cannot read directory "));
                pieces.push(Piece::quoted(path.as_str()));
                pieces.push(Piece::plain(": "));
                pieces.push(Piece::plain(cause.as_str()));
            },
            Diagnostic::FileUnreadable { path, cause } => {
                pieces.push(Piece::bold("ERROR:", Tint::Red));
                pieces.push(Piece::plain(" Cannot read file "));
                pieces.push(Piece::quoted(path.as_str()));
                pieces.push(Piece::plain(": "));
                pieces.push(Piece::plain(cause.as_str()));
            },
            Diagnostic::SubdirectorySkipped { path } => {
                pieces.push(Piece::plain("Warning: Cannot read subdirectory "));
                pieces.push(Piece::quoted(path.as_str()));
            },
            Diagnostic::FileSkipped { path } => {
                pieces.push(Piece::plain("Warning: Cannot read file "));
                pieces.push(Piece::quoted(path.as_str()));
            },
            Diagnostic::EntryUnreadable { cause } => {
                pieces.push(Piece::plain("Warning: Cannot read entry: "));
                pieces.push(Piece::plain(cause.as_str()));
            },
        }
        pieces
    }

    /// The line that reports this, for the error stream.
    pub fn print(&self) -> (line: String)
        ensures
            renders_as(self@.pieces(), line@),
    {
        let pieces: Vec<Piece> = self.pieces();
        render(&pieces)
    }
}

} // verus!
