use vstd::prelude::*;

use crate::codec::{base64_decoded, decode_base64, decode_error_text};
use crate::naming::{
    has_suffix, is_single_component, lemma_upload_name_stays_in_dir, lower_of, sanitize_filename,
    sanitized, upload_name, wants_pdf_tool, UPLOAD_PREFIX,
};
use crate::report::ExtractError;

verus! {

/// A decoded upload, ready to be stored in the scratch directory.
pub struct Upload {
    /// The decoded payload.
    pub bytes: Vec<u8>,
    /// Name of the scratch file, a single path component.
    pub file_name: String,
    /// Whether the text is to come from the PDF extraction tool; otherwise
    /// the stored file is read back as text.
    pub use_pdf_tool: bool,
}

/// Decodes `base64_data` and plans where the upload sent as `filename` is
/// stored and how its text is obtained.  Fails exactly when the payload is
/// not valid base64.
pub fn prepare_upload(base64_data: &str, filename: &str) -> (r: Result<Upload, ExtractError>)
    ensures
        r is Err <==> base64_decoded(base64_data@) is None,
        r matches Err(e) ==> e is Decode,
        r matches Ok(u) ==> {
            &&& base64_decoded(base64_data@) == Some(u.bytes@)
            &&& u.file_name@ == upload_name(filename@)
            &&& is_single_component(u.file_name@)
            &&& u.use_pdf_tool == has_suffix(lower_of(sanitized(filename@)), ".pdf"@)
        },
{
    let bytes = match decode_base64(base64_data) {
        Ok(b) => b,
        Err(e) => return Err(ExtractError::Decode(decode_error_text(&e))),
    };
    let safe_name = sanitize_filename(filename);
    let use_pdf_tool = wants_pdf_tool(safe_name.as_str());
    proof {
        lemma_upload_name_stays_in_dir(filename@);
    }
    let file_name = String::from_str(UPLOAD_PREFIX).concat(safe_name.as_str());
    Ok(Upload { bytes, file_name, use_pdf_tool })
}

} // verus!
