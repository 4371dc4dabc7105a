use vstd::prelude::*;
use vstd::utf8::{decode_utf8, valid_utf8};

verus! {

/// A failure that the caller sees as an error.
pub enum ExtractError {
    /// The payload is not valid base64; the decoder's description.
    Decode(String),
    /// The scratch file could not be created; the host's description.
    Create(String),
    /// The bytes could not be written to the scratch file; the host's description.
    Write(String),
}

impl ExtractError {
    /// The readable message that stands for this error.
    pub open spec fn spec_message(&self) -> Seq<char> {
        match self {
            ExtractError::Decode(d) => "base64 decode error: "@ + d@,
            ExtractError::Create(d) => "failed creating file: "@ + d@,
            ExtractError::Write(d) => "failed writing file: "@ + d@,
        }
    }

    pub fn message(&self) -> (r: String)
        ensures
            r@ == self.spec_message(),
    {
        match self {
            ExtractError::Decode(d) => String::from_str("base64 decode error: ").concat(d.as_str()),
            ExtractError::Create(d) => String::from_str("failed creating file: ").concat(d.as_str()),
            ExtractError::Write(d) => String::from_str("failed writing file: ").concat(d.as_str()),
        }
    }
}

/// What became of a run of the PDF text-extraction tool.
pub enum ToolRun {
    /// The tool ran to its end, with the bytes it wrote to its two output streams.
    Finished { success: bool, stdout: Vec<u8>, stderr: Vec<u8> },
    /// The tool could not be started; the host's description of why.
    NotStarted(String),
}

/// What `String::from_utf8_lossy` makes of a byte sequence.
pub uninterp spec fn utf8_lossy_of(b: Seq<u8>) -> Seq<char>;

/// Relies on `String::from_utf8_lossy`: its result depends on the bytes alone,
/// and bytes that are valid UTF-8 come back as the text they encode.
#[verifier::external_body]
fn utf8_lossy(b: &Vec<u8>) -> (r: String)
    ensures
        r@ == utf8_lossy_of(b@),
        valid_utf8(b@) ==> r@ == decode_utf8(b@),
{
    String::from_utf8_lossy(b).into_owned()
}

/// The stand-in text for a file whose contents could not be read as text.
pub open spec fn placeholder_text(name: Seq<char>) -> Seq<char> {
    "[extracted-text-placeholder] file: "@ + name
}

/// The text handed back for a file named `name`, given what reading it as
/// text gave: its contents, or nothing where it was unreadable.
pub open spec fn text_or_placeholder_spec(content: Option<Seq<char>>, name: Seq<char>) -> Seq<char> {
    match content {
        Some(text) => text,
        None => placeholder_text(name),
    }
}

/// Returns the text that was read, or a placeholder naming `name` where the
/// file could not be read as text.
pub fn text_or_placeholder(content: Option<String>, name: &str) -> (r: String)
    ensures
        r@ == text_or_placeholder_spec(
            match content {
                Some(text) => Some(text@),
                None => None,
            },
            name@,
        ),
{
    match content {
        Some(text) => text,
        None => String::from_str("[extracted-text-placeholder] file: ").concat(name),
    }
}

/// The text handed back for the upload `filename` after a run of the tool.
pub open spec fn tool_text(run: ToolRun, filename: Seq<char>) -> Seq<char> {
    match run {
        ToolRun::Finished { success, stdout, stderr } => if success {
            utf8_lossy_of(stdout@)
        } else {
            "[pdftotext-failed] stderr: "@ + utf8_lossy_of(stderr@)
                + "\nFallback placeholder for file: "@ + filename
        },
        ToolRun::NotStarted(why) => "[pdftotext-not-found-or-error] "@ + why@
            + ". Fallback placeholder for file: "@ + filename,
    }
}

/// Turns a run of the extraction tool into the text handed back: what it
/// printed where it succeeded, otherwise a diagnostic naming `filename`.
pub fn tool_result(run: ToolRun, filename: &str) -> (r: String)
    ensures
        r@ == tool_text(run, filename@),
        run matches ToolRun::Finished { success: true, stdout, .. } ==> (valid_utf8(stdout@)
            ==> r@ == decode_utf8(stdout@)),
{
    match run {
        ToolRun::Finished { success, stdout, stderr } => {
            if success {
                utf8_lossy(&stdout)
            } else {
                String::from_str("[pdftotext-failed] stderr: ").concat(
                    utf8_lossy(&stderr).as_str(),
                ).concat("\nFallback placeholder for file: ").concat(filename)
            }
        },
        ToolRun::NotStarted(why) => {
            String::from_str("[pdftotext-not-found-or-error] ").concat(why.as_str()).concat(
                ". Fallback placeholder for file: ",
            ).concat(filename)
        },
    }
}

} // verus!
