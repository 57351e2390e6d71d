//! The remote library's interface: what is asked of it and what it answers.

use vstd::prelude::*;
use vstd::string::*;

pub mod api_key;
pub mod builder;
pub mod client;
pub mod headers;
pub mod http;
pub mod types;

verus! {

/// Where the remote service is reached.
pub const API_BASE_URL: &'static str = "https://api.zotero.org";

/// Export formats of the remote library that this library can ask for.
#[derive(Clone, Copy, Debug, PartialEq, Eq, Structural)]
pub enum ExportFormat {
    Biblatex,
    Bibtex,
}

impl Default for ExportFormat {
    fn default() -> (format: ExportFormat)
        ensures
            format == ExportFormat::Biblatex,
    {
        ExportFormat::Biblatex
    }
}

impl ExportFormat {
    /// The name by which the remote service knows the format.
    pub open spec fn name(self) -> Seq<char> {
        match self {
            ExportFormat::Biblatex => "biblatex"@,
            ExportFormat::Bibtex => "bibtex"@,
        }
    }

    /// The name by which the remote service knows the format.
    pub fn as_str(&self) -> (name: &'static str)
        ensures
            name@ == self.name(),
    {
        match self {
            ExportFormat::Biblatex => "biblatex",
            ExportFormat::Bibtex => "bibtex",
        }
    }

    /// The format's name as an owned text.
    pub fn to_string(&self) -> (name: String)
        ensures
            name@ == self.name(),
    {
        String::from_str(self.as_str())
    }
}

} // verus!
