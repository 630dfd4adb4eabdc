//! Flat summaries of a directory and of a file: a path and a size.

pub use crate::constants::format_size;
use crate::data::directory::dir_heading;
use crate::data::directory::push_dir_heading;
use crate::data::file::file_heading;
use crate::data::file::push_heading;
use crate::render::plain_piece;
use crate::render::push_plain;
use crate::render::push_size;
use crate::render::render;
use crate::render::renders_as;
use crate::render::size_pieces;
use crate::render::Piece;
use crate::render::PieceView;
use vstd::prelude::*;

verus! {

/// A directory by its path and its size in bytes.
#[derive(Debug, Clone)]
pub struct DirInfo {
    pub path: String,
    pub size: u64,
}

/// A file by its path and its size in bytes.
#[derive(Debug, Clone)]
pub struct FileInfo {
    pub path: String,
    pub size: u64,
}

/// The line for a directory of this path and size.
pub open spec fn dir_info_pieces(path: Seq<char>, size: nat) -> Seq<PieceView> {
    dir_heading(path) + seq![plain_piece(" "@)] + size_pieces(size)
}

/// The line for a file of this path and size.
pub open spec fn file_info_pieces(path: Seq<char>, size: nat) -> Seq<PieceView> {
    file_heading(path) + seq![plain_piece(" "@)] + size_pieces(size)
}

impl DirInfo {
    /// The line that gives the path and the size.
    pub fn print_dir_info(&self) -> (line: String)
        ensures
            renders_as(dir_info_pieces(self.path@, self.size as nat), line@),
    {
        let mut pieces: Vec<Piece> = Vec::new();
        push_dir_heading(&mut pieces, self.path.as_str());
        push_plain(&mut pieces, " ");
        push_size(&mut pieces, self.size);
        render(&pieces)
    }
}

impl FileInfo {
    /// The line that gives the path and the size.
    pub fn print_file_info(&self) -> (line: String)
        ensures
            renders_as(file_info_pieces(self.path@, self.size as nat), line@),
    {
        let mut pieces: Vec<Piece> = Vec::new();
        push_heading(&mut pieces, self.path.as_str());
        push_plain(&mut pieces, " ");
        push_size(&mut pieces, self.size);
        render(&pieces)
    }
}

} // verus!
