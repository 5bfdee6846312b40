//! The decision logic of the file import/export utilities.
//!
//! Reading and writing files is left to the caller; here stand the rules:
//! how export data is formatted, how imported content is validated, and
//! which new file names a rename accepts.

use vstd::prelude::*;
use vstd::string::StringSliceAdditionalSpecFns;
use crate::json::{is_valid_json, pretty_json_of, pretty_printed_json, validate_json};
use crate::util::str_concat;

verus! {

/// Export options: the JSON text to export, the target path if already
/// chosen, a suggested file name, and whether to pretty-print.
pub struct ExportOptions {
    pub data: String,
    pub file_path: Option<String>,
    pub file_name: Option<String>,
    pub pretty_print: Option<bool>,
}

/// Result of an export.
pub struct ExportResult {
    pub success: bool,
    pub file_path: Option<String>,
    pub bytes_written: Option<u64>,
    pub error: Option<String>,
}

/// Import options: the path to import from, if already chosen.
pub struct ImportOptions {
    pub file_path: Option<String>,
}

/// Result of an import.
pub struct ImportResult {
    pub success: bool,
    pub data: Option<String>,
    pub file_path: Option<String>,
    pub bytes_read: Option<u64>,
    pub error: Option<String>,
}

/// Metadata of one file.
pub struct FileMetadata {
    pub path: String,
    pub name: String,
    pub size: u64,
    pub modified_at: Option<u64>,
    pub created_at: Option<u64>,
}

/// Whether pretty-printing was requested; it defaults to on.
pub open spec fn pretty_requested(pretty_print: Option<bool>) -> bool {
    match pretty_print {
        Some(b) => b,
        None => true,
    }
}

/// Format export data: when pretty-printing is requested (the default) and
/// the data is valid JSON, the pretty-printed form; otherwise the data
/// unchanged.
pub fn render_export_data(data: String, pretty_print: Option<bool>) -> (r: String)
    ensures
        !pretty_requested(pretty_print) ==> r == data,
        pretty_requested(pretty_print) && is_valid_json(data@) ==> Some(r@) == pretty_json_of(
            data@,
        ),
        pretty_requested(pretty_print) && !is_valid_json(data@) ==> r == data,
{
    let pretty = match pretty_print {
        Some(b) => b,
        None => true,
    };
    if pretty {
        match pretty_printed_json(data.as_str()) {
            Some(p) => p,
            None => data,
        }
    } else {
        data
    }
}

/// Judge imported file content: valid JSON text is returned as the data,
/// anything else is rejected with an explanation, never a crash.
pub fn import_result_from_content(file_path: String, content: String, bytes_read: u64) -> (r:
    ImportResult)
    ensures
        r.success == is_valid_json(content@),
        r.file_path == Some(file_path),
        r.bytes_read == Some(bytes_read),
        is_valid_json(content@) ==> r.data == Some(content) && r.error is None,
        !is_valid_json(content@) ==> r.data is None && (r.error matches Some(e) && (exists|
            t: Seq<char>,
        | e@ == "Invalid JSON: "@ + t)),
{
    match validate_json(content.as_str()) {
        Ok(()) => ImportResult {
            success: true,
            data: Some(content),
            file_path: Some(file_path),
            bytes_read: Some(bytes_read),
            error: None,
        },
        Err(detail) => {
            let msg = str_concat("Invalid JSON: ", detail.as_str());
            proof {
                assert(msg@ == "Invalid JSON: "@ + detail@);
            }
            ImportResult {
                success: false,
                data: None,
                file_path: Some(file_path),
                bytes_read: Some(bytes_read),
                error: Some(msg),
            }
        },
    }
}

/// Ordering of directory listings: newest modification first; files
/// without a modification time come last.
pub open spec fn modified_ge(a: FileMetadata, b: FileMetadata) -> bool {
    match (a.modified_at, b.modified_at) {
        (Some(x), Some(y)) => x >= y,
        (Some(_), None) => true,
        (None, None) => true,
        (None, Some(_)) => false,
    }
}

/// The listing order compares any two files, one way or the other.
proof fn lemma_modified_ge_total(a: FileMetadata, b: FileMetadata)
    ensures
        modified_ge(a, b) || modified_ge(b, a),
{
}

/// The listing order is transitive.
proof fn lemma_modified_ge_trans(a: FileMetadata, b: FileMetadata, c: FileMetadata)
    requires
        modified_ge(a, b),
        modified_ge(b, c),
    ensures
        modified_ge(a, c),
{
}

/// Whether `a` sorts at or before `b` in a directory listing.
fn modified_ge_exec(a: &FileMetadata, b: &FileMetadata) -> (r: bool)
    ensures
        r == modified_ge(*a, *b),
{
    match (a.modified_at, b.modified_at) {
        (Some(x), Some(y)) => x >= y,
        (Some(_), None) => true,
        (None, None) => true,
        (None, Some(_)) => false,
    }
}

/// Sort a directory listing by modification time, newest first: the result
/// holds exactly the given files, in listing order.
pub fn sort_files_by_modified_desc(files: Vec<FileMetadata>) -> (r: Vec<FileMetadata>)
    ensures
        r@.len() == files@.len(),
        forall|i: int, j: int| 0 <= i < j < r@.len() ==> modified_ge(#[trigger] r@[i], #[trigger] r@[j]),
        r@.to_multiset() == files@.to_multiset(),
{
    broadcast use vstd::seq_lib::group_to_multiset_ensures;

    let ghost orig = files@;
    let mut items = files;
    let mut out: Vec<FileMetadata> = Vec::new();
    while items.len() > 0
        invariant
            out@.len() + items@.len() == orig.len(),
            out@.to_multiset().add(items@.to_multiset()) =~= orig.to_multiset(),
            forall|i: int, j: int|
                0 <= i < j < out@.len() ==> modified_ge(#[trigger] out@[i], #[trigger] out@[j]),
            forall|i: int, k: int|
                0 <= i < out@.len() && 0 <= k < items@.len() ==> modified_ge(
                    #[trigger] out@[i],
                    #[trigger] items@[k],
                ),
        decreases items@.len(),
    {
        // Find the newest remaining file.
        let mut m: usize = 0;
        let mut k: usize = 1;
        while k < items.len()
            invariant
                0 <= m < k <= items@.len(),
                items@.len() > 0,
                forall|p: int| 0 <= p < k ==> modified_ge(items@[m as int], #[trigger] items@[p]),
            decreases items@.len() - k,
        {
            if modified_ge_exec(&items[k], &items[m]) {
                proof {
                    assert forall|p: int| 0 <= p < k + 1 implies modified_ge(
                        items@[k as int],
                        #[trigger] items@[p],
                    ) by {
                        if p < k {
                            lemma_modified_ge_trans(items@[k as int], items@[m as int], items@[p]);
                        }
                    }
                }
                m = k;
            } else {
                proof {
                    lemma_modified_ge_total(items@[k as int], items@[m as int]);
                }
            }
            k = k + 1;
        }
        let ghost pre_items = items@;
        let ghost pre_out = out@;
        let picked = items.remove(m);
        out.push(picked);
        proof {
            pre_items.remove_ensures(m as int);
            pre_items.to_multiset_ensures();
            pre_out.to_multiset_ensures();
            assert(items@ == pre_items.remove(m as int));
            assert(pre_items.remove(m as int).to_multiset() =~= pre_items.to_multiset().remove(
                pre_items[m as int],
            ));
            assert(out@ == pre_out.push(picked));
            assert(pre_out.push(picked).to_multiset() =~= pre_out.to_multiset().insert(picked));
            assert(out@.to_multiset().add(items@.to_multiset()) =~= orig.to_multiset());
        }
    }
    out
}

/// Byte value of the forward slash.
pub const SLASH_BYTE: u8 = 47;

/// Byte value of the backslash.
pub const BACKSLASH_BYTE: u8 = 92;

/// Whether a rename target is acceptable: not empty, and without path
/// separators in its byte encoding, so the file stays in its directory.
pub fn valid_new_file_name(name: &str) -> (r: bool)
    ensures
        r == (name@.len() > 0 && !name.spec_bytes().contains(SLASH_BYTE)
            && !name.spec_bytes().contains(BACKSLASH_BYTE)),
{
    if name.is_empty() {
        return false;
    }
    let bytes = name.as_bytes();
    let mut i: usize = 0;
    while i < bytes.len()
        invariant
            bytes@ == name.spec_bytes(),
            0 <= i <= bytes@.len(),
            forall|k: int| 0 <= k < i ==> bytes@[k] != SLASH_BYTE && bytes@[k] != BACKSLASH_BYTE,
        decreases bytes@.len() - i,
    {
        if bytes[i] == SLASH_BYTE || bytes[i] == BACKSLASH_BYTE {
            return false;
        }
        i = i + 1;
    }
    true
}

} // verus!
