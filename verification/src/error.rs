use vstd::prelude::*;

verus! {

/// Error type for this library.
///
/// The message is the only part of the error that the library's logic reads;
/// the surrounding application keeps the original error source alongside it.
#[derive(Debug)]
pub struct ToucanError {
    /// Human-readable description of what went wrong.
    pub msg: String,
}

/// Message used when a JavaScript value could not be read as a string.
pub open spec fn js_string_fallback() -> Seq<char> {
    "JsValue string conversion failed"@
}

impl ToucanError {
    /// Wraps a plain message.
    pub fn from_message(msg: String) -> (e: ToucanError)
        ensures
            e.msg@ == msg@,
    {
        ToucanError { msg }
    }

    /// Builds the error for a JavaScript value, given the string form of that
    /// value when it has one: when the value was not a string, the message
    /// falls back to a fixed note.
    pub fn from_js_string(s: Option<String>) -> (e: ToucanError)
        ensures
            match s {
                Some(m) => e.msg@ == m@,
                None => e.msg@ == js_string_fallback(),
            },
    {
        match s {
            Some(m) => ToucanError { msg: m },
            None => ToucanError { msg: "JsValue string conversion failed".to_owned() },
        }
    }

    /// Text of the error, as it is shown to a reader.
    pub fn message(&self) -> (m: String)
        ensures
            m@ == self.msg@,
    {
        self.msg.clone()
    }
}

} // verus!
