//! Resolving a save command: dialog choice and write outcome to a result.

use vstd::prelude::*;

verus! {

/// A file-type filter offered in the native save dialog: a display name and
/// the extensions it admits.
#[derive(Debug)]
pub struct FileFilter {
    /// The name the dialog shows for this file type.
    pub name: String,
    /// The file extensions, without the leading dot.
    pub extensions: Vec<String>,
}

/// The single filter the PDF save command offers: "PDF", extension "pdf".
pub fn pdf_filter() -> (r: FileFilter)
    ensures
        r.name@ == "PDF"@,
        r.extensions@.len() == 1,
        r.extensions@[0]@ == "pdf"@,
{
    let mut extensions: Vec<String> = Vec::new();
    extensions.push("pdf".to_owned());
    FileFilter { name: "PDF".to_owned(), extensions }
}

/// Turns what the dialog and the file write produced into the result a save
/// command reports: a cancelled dialog is a successful "no path selected",
/// a completed write returns the chosen path, and a failed write returns the
/// write's error message.
///
/// `chosen` is the path the dialog returned, if any; `write_error` is the
/// error of the attempted write, if it failed. When the dialog was cancelled
/// no write was attempted, and any `write_error` is ignored.
pub fn resolve_save_outcome(chosen: Option<String>, write_error: Option<String>) -> (r: Result<
    Option<String>,
    String,
>)
    ensures
        r is Ok <==> (chosen is None || write_error is None),
        chosen is None ==> (r matches Ok(p) && p is None),
        chosen is Some && write_error is None ==> (r matches Ok(p) && p matches Some(q) && q@
            == chosen->0@),
        chosen is Some && write_error is Some ==> (r matches Err(msg) && msg@ == write_error->0@),
{
    match chosen {
        None => Ok(None),
        Some(path) => match write_error {
            None => Ok(Some(path)),
            Some(e) => Err(e),
        },
    }
}

} // verus!
