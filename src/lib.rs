//! Verified core of an upload service: it decodes a base64 file payload,
//! picks a safe scratch-file name for it, decides how its text is to be
//! obtained, and turns what the host reports back into the caller's result.

mod codec;
mod greeting;
mod naming;
mod report;
mod upload;

pub use codec::base64_decoded;
pub use greeting::{greet, greeting_text};
pub use naming::{
    has_suffix, is_pdf_name, is_separator, is_single_component, lemma_upload_name_stays_in_dir,
    lower_of, sanitize_filename, sanitized, upload_file_name, upload_name, wants_pdf_tool,
    UPLOAD_PREFIX,
};
pub use report::{
    placeholder_text, text_or_placeholder, text_or_placeholder_spec, tool_result, tool_text,
    utf8_lossy_of, ExtractError, ToolRun,
};
pub use upload::{prepare_upload, Upload};
