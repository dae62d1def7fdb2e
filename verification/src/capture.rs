//! The text read from a screenshot.
use vstd::prelude::*;
use crate::text::{chars_of, string_of, trim, trim_chars};

verus! {

pub open spec fn no_text_message() -> Seq<char> {
    "OCR extracted no text from screenshot."@
}

/// The recogniser's output, trimmed; an error when nothing is left.
pub fn screen_text(ocr_output: &str) -> (r: Result<String, String>)
    ensures
        match r {
            Ok(t) => t@ == trim(ocr_output@) && t@.len() > 0,
            Err(e) => trim(ocr_output@).len() == 0 && e@ == no_text_message(),
        },
{
    let cs = chars_of(ocr_output);
    let t = trim_chars(&cs);
    if t.len() == 0 {
        Err("OCR extracted no text from screenshot.".to_owned())
    } else {
        Ok(string_of(&t))
    }
}

} // verus!
