//! Where the files of the tips are, and how the output is styled.

use crate::tip::{data_file, data_path, ContentRef};
use vstd::prelude::*;

verus! {

/// The style of the three columns of a listing, each as a style
/// specification of the table printer.
#[derive(Debug, Clone)]
pub struct TableStyle {
    /// For the column of ids.
    pub id: String,
    /// For the column of subjects.
    pub subject: String,
    /// For the column of tags.
    pub tags: String,
}

/// The style of the text of a tip.
#[derive(Debug, Clone)]
pub struct DataStyle {
    /// The name of the highlighting theme.
    pub theme: String,
}

/// The style of listings and of texts.
#[derive(Debug, Clone)]
pub struct Style {
    pub table: TableStyle,
    pub data: DataStyle,
}

/// The configuration: paths and style.
#[derive(Debug, Clone)]
pub struct Config {
    /// The path of the file that holds the collection.
    pub db_file: String,
    /// The path of the file that the editor works on.
    pub tmp_file: String,
    /// The directory that holds the texts of the tips.
    pub data: String,
    /// The path of the editor.
    pub editor: String,
    /// The style of the output.
    pub style: Style,
}

impl Config {
    /// The path of the file that holds the text named by `data`.
    pub fn data_file(&self, data: &ContentRef) -> (path: String)
        ensures
            path@ == data_path(self.data@, *data),
    {
        data_file(self.data.as_str(), data)
    }
}

} // verus!
