//! Console message formatting. The library composes the exact line to show;
//! colouring it and writing it to the terminal happens outside the library.

use vstd::prelude::*;

verus! {

/// The line printed for a message: the module tag, when present, directly
/// precedes the message.
pub open spec fn spec_print_line(message: Seq<char>, module_name: Option<Seq<char>>) -> Seq<char> {
    match module_name {
        None => message,
        Some(m) => m + message,
    }
}

/// A severity-tagged message: the tag, one space, then the text.
pub open spec fn spec_tagged(tag: Seq<char>, text: Seq<char>) -> Seq<char> {
    tag + " "@ + text
}

/// Formats console messages.
#[derive(Debug)]
pub struct Printer {}

impl Printer {
    /// The full line for `message`, with the module tag ahead of it when
    /// one is given.
    fn line(message: String, module_name: Option<String>) -> (r: String)
        ensures
            r@ == spec_print_line(message@, module_name.deep_view()),
    {
        match module_name {
            None => message,
            Some(mn) => mn.concat(message.as_str()),
        }
    }

    /// The tag, one space, then the text.
    fn tagged(tag: &str, text: String) -> (r: String)
        ensures
            r@ == spec_tagged(tag@, text@),
    {
        let mut r = String::from_str(tag);
        r.append(" ");
        r.append(text.as_str());
        r
    }

    /// The line announcing an error.
    pub fn print_error(text: String, module_name: Option<String>) -> (r: String)
        ensures
            r@ == spec_print_line(spec_tagged(" ERROR "@, text@), module_name.deep_view()),
    {
        Self::line(Self::tagged(" ERROR ", text), module_name)
    }

    /// The line announcing a warning.
    pub fn print_warning(text: String, module_name: Option<String>) -> (r: String)
        ensures
            r@ == spec_print_line(spec_tagged(" WARN "@, text@), module_name.deep_view()),
    {
        Self::line(Self::tagged(" WARN ", text), module_name)
    }

    /// The line announcing progress information.
    pub fn print_info(text: String, module_name: Option<String>) -> (r: String)
        ensures
            r@ == spec_print_line(spec_tagged(" INFO "@, text@), module_name.deep_view()),
    {
        Self::line(Self::tagged(" INFO ", text), module_name)
    }

    /// The line announcing a success; it carries the text alone.
    pub fn print_success(text: String, module_name: Option<String>) -> (r: String)
        ensures
            r@ == spec_print_line(text@, module_name.deep_view()),
    {
        Self::line(text, module_name)
    }
}

} // verus!
