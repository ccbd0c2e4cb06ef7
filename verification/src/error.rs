//! The error kinds of the typed interface, and the messages of the plain one.

use vstd::prelude::*;
use vstd::std_specs::convert::FromSpecImpl;
use vstd::string::to_string_from_display_ensures;

verus! {

#[verifier::external_type_specification]
#[verifier::external_body]
pub struct ExIoError(std::io::Error);

#[verifier::external_type_specification]
#[verifier::external_body]
pub struct ExFromUtf8Error(std::string::FromUtf8Error);

/// What can go wrong, by kind. Each kind carries the message of the step that failed.
#[derive(Debug)]
pub enum BunkoError {
    /// The engine failed while compressing.
    CompressionError(String),
    /// The engine refused the compressed bytes.
    DecompressionError(String),
    /// The decompressed bytes are not UTF-8.
    Utf8Error(String),
    /// The value could not be turned into bytes.
    SerializationError(String),
    /// The bytes could not be turned into a value.
    DeserializationError(String),
}

/// How `{:?}` prints a string slice: in double quotes, with escapes where std uses them.
pub uninterp spec fn debug_form(text: Seq<char>) -> Seq<char>;

/// `format!` with `{:?}` on a string slice.
#[verifier::external_body]
fn quoted(text: &str) -> (r: String)
    ensures
        r@ == debug_form(text@),
{
    format!("{:?}", text)
}

impl BunkoError {
    /// The name of the kind.
    pub open spec fn kind_name(self) -> Seq<char> {
        match self {
            BunkoError::CompressionError(_) => "CompressionError"@,
            BunkoError::DecompressionError(_) => "DecompressionError"@,
            BunkoError::Utf8Error(_) => "Utf8Error"@,
            BunkoError::SerializationError(_) => "SerializationError"@,
            BunkoError::DeserializationError(_) => "DeserializationError"@,
        }
    }

    /// The message the error carries.
    pub open spec fn message(self) -> Seq<char> {
        match self {
            BunkoError::CompressionError(m) => m@,
            BunkoError::DecompressionError(m) => m@,
            BunkoError::Utf8Error(m) => m@,
            BunkoError::SerializationError(m) => m@,
            BunkoError::DeserializationError(m) => m@,
        }
    }

    /// The error as text: the name of the kind, then the message as `{:?}` prints it, in
    /// round brackets.
    pub fn to_string(&self) -> (r: String)
        ensures
            r@ == self.kind_name() + "("@ + debug_form(self.message()) + ")"@,
    {
        let (name, message) = match self {
            BunkoError::CompressionError(m) => ("CompressionError", m),
            BunkoError::DecompressionError(m) => ("DecompressionError", m),
            BunkoError::Utf8Error(m) => ("Utf8Error", m),
            BunkoError::SerializationError(m) => ("SerializationError", m),
            BunkoError::DeserializationError(m) => ("DeserializationError", m),
        };
        let body = quoted(message.as_str());
        String::from_str(name).concat("(").concat(body.as_str()).concat(")")
    }
}

impl From<std::string::FromUtf8Error> for BunkoError {
    /// A failed UTF-8 conversion is a `Utf8Error` that carries the conversion's own words: the
    /// text that `Display` gives for it.
    fn from(err: std::string::FromUtf8Error) -> (r: BunkoError)
        ensures
            r matches BunkoError::Utf8Error(m) && to_string_from_display_ensures::<
                std::string::FromUtf8Error,
            >(&err, m),
    {
        BunkoError::Utf8Error(err.to_string())
    }
}

/// The words of a conversion error have no form in specifications, so the conversion is
/// described by the `ensures` of `from` alone.
impl FromSpecImpl<std::string::FromUtf8Error> for BunkoError {
    open spec fn obeys_from_spec() -> bool {
        false
    }

    open spec fn from_spec(err: std::string::FromUtf8Error) -> BunkoError {
        arbitrary()
    }
}

/// `words` is what the engine says of `e`: the text that `Display` gives for it.
pub open spec fn is_error_text(e: &std::io::Error, words: String) -> bool {
    to_string_from_display_ensures::<std::io::Error>(e, words)
}

/// The engine's own words for `e`.
pub(crate) fn error_text(e: &std::io::Error) -> (words: String)
    ensures
        is_error_text(e, words),
{
    e.to_string()
}

/// A message that opens with `context` and goes on with the engine's own words for `e`.
pub(crate) fn describe(context: &str, e: &std::io::Error) -> (m: String)
    ensures
        context@.is_prefix_of(m@),
        exists|words: String| #[trigger] is_error_text(e, words) && m@ == context@ + words@,
{
    let detail = error_text(e);
    String::from_str(context).concat(detail.as_str())
}

} // verus!
