//! Setting one key of a TOML document, through the `toml_edit` crate, which
//! is made to leave the rest of a document as it stands.

use vstd::prelude::*;

verus! {

/// What `toml_edit` makes of a text when the key `key` of its top level is
/// set to the truth value `value`: the text of the changed document, or the
/// parser's complaint where the text is no TOML document. What the changed
/// text keeps of the given one is `toml_edit`'s to say and is stated nowhere
/// here.
pub uninterp spec fn toml_with_flag(text: Seq<char>, key: Seq<char>, value: bool) -> Result<
    Seq<char>,
    Seq<char>,
>;

/// `toml_edit::DocumentMut`: the document that `str::parse` reads from `text`,
/// with `toml_edit::value(value)` assigned under `key` at its top level by the
/// document's `IndexMut`, written out again by its `to_string`. Nothing is
/// proved of it. The outcome is taken to be a function of the three arguments
/// alone, which [`toml_with_flag`] names; where the crate's parser refuses
/// the text, the complaint is the `message` of its error.
#[verifier::external_body]
pub(crate) fn set_flag(text: &str, key: &str, value: bool) -> (r: Result<String, String>)
    ensures
        match r {
            Ok(changed) => toml_with_flag(text@, key@, value) == Ok::<Seq<char>, Seq<char>>(
                changed@,
            ),
            Err(message) => toml_with_flag(text@, key@, value) == Err::<Seq<char>, Seq<char>>(
                message@,
            ),
        },
{
    match text.parse::<toml_edit::DocumentMut>() {
        Ok(mut document) => {
            document[key] = toml_edit::value(value);
            Ok(document.to_string())
        },
        Err(error) => Err(error.message().to_owned()),
    }
}

} // verus!
