use vstd::prelude::*;

verus! {

/// True for the characters that separate path components on some platform.
pub open spec fn is_separator(c: char) -> bool {
    c == '/' || c == '\\'
}

/// `name` with every path separator replaced by an underscore.
pub open spec fn sanitized(name: Seq<char>) -> Seq<char> {
    name.map_values(|c: char| if is_separator(c) { '_' } else { c })
}

/// Replaces every `/` and `\` of `filename` with `_`.
pub fn sanitize_filename(filename: &str) -> (r: String)
    ensures
        r@ == sanitized(filename@),
{
    let mut out = String::new();
    let mut start: usize = 0;
    let n = filename.unicode_len();
    let mut i: usize = 0;
    for c in it: filename.chars()
        invariant
            it.seq() == filename@,
            i == it.index(),
            n == filename@.len(),
            start <= i,
            out@ =~= sanitized(filename@.subrange(0, start as int)),
            forall|k: int| start <= k < i ==> !is_separator(#[trigger] filename@[k]),
    {
        assert(i < n);
        if c == '/' || c == '\\' {
            proof {
                reveal_strlit("_");
                assert(sanitized(filename@.subrange(0, i + 1)) =~= sanitized(
                    filename@.subrange(0, start as int),
                ) + filename@.subrange(start as int, i as int) + seq!['_']);
            }
            out.append(filename.substring_char(start, i));
            out.append("_");
            start = i + 1;
        }
        i = i + 1;
    }
    out.append(filename.substring_char(start, i));
    assert(sanitized(filename@) =~= sanitized(filename@.subrange(0, start as int))
        + filename@.subrange(start as int, i as int));
    out
}

/// Fixed prefix of every scratch-file name.
pub const UPLOAD_PREFIX: &'static str = "inpressign_upload_";

/// Name of the scratch file that holds an upload sent as `filename`.
pub open spec fn upload_name(filename: Seq<char>) -> Seq<char> {
    UPLOAD_PREFIX@ + sanitized(filename)
}

/// A name that, joined to a directory, names an entry of that very directory:
/// it is not empty, holds no separator, and is neither `.` nor `..`.
pub open spec fn is_single_component(name: Seq<char>) -> bool {
    &&& name.len() > 0
    &&& forall|k: int| 0 <= k < name.len() ==> !is_separator(#[trigger] name[k])
    &&& name != seq!['.']
    &&& name != seq!['.', '.']
}

/// Whatever `filename` holds, the scratch file's name is one path component,
/// so the scratch file lies directly inside the scratch directory.
pub proof fn lemma_upload_name_stays_in_dir(filename: Seq<char>)
    ensures
        is_single_component(upload_name(filename)),
{
    reveal_strlit("inpressign_upload_");
    let name = upload_name(filename);
    assert(name[0] == 'i');
    assert forall|k: int| 0 <= k < name.len() implies !is_separator(#[trigger] name[k]) by {
        if k >= UPLOAD_PREFIX@.len() {
            assert(name[k] == sanitized(filename)[k - UPLOAD_PREFIX@.len()]);
        }
    }
}

/// Builds the scratch-file name for an upload sent as `filename`.
pub fn upload_file_name(filename: &str) -> (r: String)
    ensures
        r@ == upload_name(filename@),
        is_single_component(r@),
{
    proof {
        lemma_upload_name_stays_in_dir(filename@);
    }
    let safe = sanitize_filename(filename);
    String::from_str(UPLOAD_PREFIX).concat(safe.as_str())
}

/// True when `s` ends with `suffix`.
pub open spec fn has_suffix(s: Seq<char>, suffix: Seq<char>) -> bool {
    suffix.len() <= s.len() && s.subrange(s.len() - suffix.len(), s.len() as int) == suffix
}

/// Tells whether an already lower-cased name ends with `.pdf`.
pub fn is_pdf_name(lowered: &str) -> (r: bool)
    ensures
        r == has_suffix(lowered@, ".pdf"@),
{
    proof {
        reveal_strlit(".pdf");
    }
    let n = lowered.unicode_len();
    if n < 4 {
        return false;
    }
    let r = lowered.get_char(n - 4) == '.' && lowered.get_char(n - 3) == 'p'
        && lowered.get_char(n - 2) == 'd' && lowered.get_char(n - 1) == 'f';
    let ghost tail = lowered@.subrange(n - 4, n as int);
    assert(tail[0] == lowered@[n - 4] && tail[1] == lowered@[n - 3]);
    assert(tail[2] == lowered@[n - 2] && tail[3] == lowered@[n - 1]);
    assert(r ==> tail =~= ".pdf"@);
    r
}

/// What `str::to_lowercase` makes of a character sequence.
pub uninterp spec fn lower_of(s: Seq<char>) -> Seq<char>;

/// Relies on `str::to_lowercase`: its result depends on the characters alone.
#[verifier::external_body]
fn lowercase(s: &str) -> (r: String)
    ensures
        r@ == lower_of(s@),
{
    s.to_lowercase()
}

/// Tells whether a sanitized name, ignoring case, ends with `.pdf`.
pub fn wants_pdf_tool(safe_name: &str) -> (r: bool)
    ensures
        r == has_suffix(lower_of(safe_name@), ".pdf"@),
{
    let lowered = lowercase(safe_name);
    is_pdf_name(lowered.as_str())
}

} // verus!
