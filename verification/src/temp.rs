//! Names of the temporary files of one conversion.

use vstd::prelude::*;
use vstd::string::*;

verus! {

/// Names of the three temporary files of one conversion.
#[derive(Debug)]
pub struct ConvertTempNames {
    /// The task description for the converter.
    pub config: String,
    /// The document to convert.
    pub input: String,
    /// The converted document.
    pub output: String,
}

/// `c` is a decimal digit or one of the letters `a` to `f`.
pub open spec fn is_lower_hex(c: char) -> bool {
    ('0' <= c <= '9') || ('a' <= c <= 'f')
}

/// `id` has the simple form of a random UUID: 32 lower-case hexadecimal
/// digits, the UUID's version, 4, as the thirteenth and its variant,
/// one of `8`, `9`, `a` and `b`, as the seventeenth.
pub open spec fn is_simple_id(id: Seq<char>) -> bool {
    &&& id.len() == 32
    &&& forall|i: int| 0 <= i < 32 ==> is_lower_hex(#[trigger] id[i])
    &&& id[12] == '4'
    &&& (id[16] == '8' || id[16] == '9' || id[16] == 'a' || id[16] == 'b')
}

/// The names of the temporary files of the conversion with the id `id`.
pub open spec fn temp_names(id: Seq<char>) -> (Seq<char>, Seq<char>, Seq<char>) {
    (
        "tmp_native_config_"@ + id + ".xml"@,
        "tmp_native_input_"@ + id,
        "tmp_native_output_"@ + id + ".pdf"@,
    )
}

/// A fresh random id, made with `Uuid::new_v4` and written in the UUID's
/// simple form.
///
/// Trusted: whatever the random bits, the text is that of a version 4 UUID
/// without hyphens, in lower case. Two calls may give different ids. The
/// call panics where the operating system cannot supply random bytes.
#[verifier::external_body]
fn random_id() -> (id: String)
    ensures
        is_simple_id(id@),
{
    uuid::Uuid::new_v4().simple().to_string()
}

/// The names of the temporary files of the conversion with the id `id`.
pub fn convert_temp_names(id: &str) -> (names: ConvertTempNames)
    ensures
        (names.config@, names.input@, names.output@) == temp_names(id@),
{
    let mut config = String::from_str("tmp_native_config_");
    config.append(id);
    config.append(".xml");
    let mut input = String::from_str("tmp_native_input_");
    input.append(id);
    let mut output = String::from_str("tmp_native_output_");
    output.append(id);
    output.append(".pdf");
    ConvertTempNames { config, input, output }
}

/// Names for the temporary files of a new conversion, under a fresh random
/// id.
pub fn create_convert_temp_names() -> (names: ConvertTempNames)
    ensures
        exists|id: Seq<char>|
            is_simple_id(id) && (names.config@, names.input@, names.output@) == #[trigger] temp_names(
                id,
            ),
{
    let id = random_id();
    convert_temp_names(id.as_str())
}

} // verus!
