//! Names for the files that a run produces: a fresh identifier, a readable
//! stem and the extension of the kind of output.

use vstd::prelude::*;
use vstd::string::StringExecFns;
use vstd::string::StrSliceExecFns;

verus! {

/// The kinds of file that can be produced.
#[derive(Debug, Clone, Copy, PartialEq, Eq, Structural)]
pub enum OutputType {
    /// A MIDI file.
    MIDI,
    /// A WAV file.
    WAV,
}

impl OutputType {
    /// The extension of the kind, as a view.
    pub open spec fn extension(self) -> Seq<char> {
        match self {
            OutputType::MIDI => "midi"@,
            OutputType::WAV => "wav"@,
        }
    }

    /// The extension that files of the kind carry.
    pub fn as_str(&self) -> (text: &'static str)
        ensures
            text@ == self.extension(),
    {
        match self {
            Self::MIDI => "midi",
            Self::WAV => "wav",
        }
    }
}

/// What `str::to_lowercase` of the standard library makes of a text.
pub uninterp spec fn lowercase_of(text: Seq<char>) -> Seq<char>;

/// `str::to_lowercase` of the standard library: the result is the lowercase
/// form of the text, which is a function of the text alone.
pub assume_specification[ str::to_lowercase ](text: &str) -> (lower: String)
    ensures
        lower@ == lowercase_of(text@),
;

/// `String::push` of the standard library appends one character.
pub assume_specification[ String::push ](text: &mut String, ch: char)
    ensures
        final(text)@ == old(text)@.push(ch),
;

/// `c` is a digit or one of the letters a to f.
pub open spec fn is_lower_hex(c: char) -> bool {
    ('0' <= c && c <= '9') || ('a' <= c && c <= 'f')
}

/// `text` has the shape of an identifier in hyphenated form: 36 characters,
/// hyphens after the eighth, twelfth, sixteenth and twentieth digit, and
/// lowercase hexadecimal digits everywhere else.
pub open spec fn is_uuid_text(text: Seq<char>) -> bool {
    &&& text.len() == 36
    &&& forall|i: int|
        0 <= i < 36 ==> if i == 8 || i == 13 || i == 18 || i == 23 {
            #[trigger] text[i] == '-'
        } else {
            is_lower_hex(text[i])
        }
}

/// `text` with every space replaced by an underscore.
pub open spec fn underscored(text: Seq<char>) -> Seq<char> {
    Seq::new(
        text.len(),
        |i: int|
            if text[i] == ' ' {
                '_'
            } else {
                text[i]
            },
    )
}

/// The stem of a file name: the root with underscores for spaces, in
/// lowercase.
pub open spec fn stem_of(root: Seq<char>) -> Seq<char> {
    lowercase_of(underscored(root))
}

/// The file name made of an identifier, a root and a kind of output: the
/// identifier, an underscore, the stem, a full stop and the extension.
pub open spec fn filename_text(id: Seq<char>, root: Seq<char>, ext: OutputType) -> Seq<char> {
    id + seq!['_'] + stem_of(root) + seq!['.'] + ext.extension()
}

/// `Uuid::new_v4` of the `uuid` crate, turned into text by its `Display`: a
/// random identifier in hyphenated lowercase form. Only the shape of the text
/// is claimed; which identifier comes is a matter of chance.
#[verifier::external_body]
fn v4_uuid() -> (id: String)
    ensures
        is_uuid_text(id@),
{
    uuid::Uuid::new_v4().to_string()
}

/// `text` with every space replaced by an underscore.
pub fn replace_spaces(text: &str) -> (out: String)
    ensures
        out@ == underscored(text@),
{
    let mut out = String::new();
    let len: usize = text.unicode_len();
    let mut i: usize = 0;
    while i < len
        invariant
            len == text@.len(),
            i <= len,
            out@.len() == i,
            forall|k: int| 0 <= k < i ==> #[trigger] out@[k] == underscored(text@)[k],
        decreases len - i,
    {
        let c: char = text.get_char(i);
        if c == ' ' {
            out.push('_');
        } else {
            out.push(c);
        }
        i = i + 1;
    }
    assert(out@ =~= underscored(text@));
    out
}

/// The file name made of the identifier `id`, the root and the kind of output.
pub fn filename_with_id(id: &str, root: &str, ext: OutputType) -> (name: String)
    ensures
        name@ == filename_text(id@, root@, ext),
{
    let spaced: String = replace_spaces(root);
    let prefix: String = spaced.as_str().to_lowercase();
    let mut name = String::from_str(id);
    name.push('_');
    name.append(prefix.as_str());
    name.push('.');
    name.append(ext.as_str());
    assert(name@ =~= filename_text(id@, root@, ext));
    name
}

/// A file name that has not been used before: a fresh random identifier, the
/// stem of the root and the extension of the kind of output.
pub fn generate_filename(root: &'static str, ext: OutputType) -> (name: String)
    ensures
        exists|id: Seq<char>| is_uuid_text(id) && name@ == #[trigger] filename_text(id, root@, ext),
{
    let id: String = v4_uuid();
    filename_with_id(id.as_str(), root, ext)
}

} // verus!
