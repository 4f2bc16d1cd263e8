//! Values read from tmux options and key bindings.
use vstd::prelude::*;

verus! {

#[verifier::external_type_specification]
#[verifier::external_body]
pub struct ExParseBoolError(std::str::ParseBoolError);

/// Relies on `str::parse::<bool>`, which accepts exactly `true` and `false`.
#[verifier::external_body]
fn parse_bool(s: &str) -> (r: Result<bool, std::str::ParseBoolError>)
    ensures
        r is Ok <==> (s@ == "true"@ || s@ == "false"@),
        r matches Ok(b) ==> (b <==> s@ == "true"@),
{
    s.parse()
}

/// Reads a tmux boolean option: `on` and `true`, `off` and `false`.
pub fn as_bool(value: &str) -> (r: Result<bool, std::str::ParseBoolError>)
    ensures
        (value@ == "on"@ || value@ == "true"@) ==> (r matches Ok(b) && b),
        (value@ == "off"@ || value@ == "false"@) ==> (r matches Ok(b) && !b),
        !(value@ == "on"@ || value@ == "true"@ || value@ == "off"@ || value@ == "false"@) ==> r is Err,
{
    proof {
        reveal_strlit("on");
        reveal_strlit("off");
        reveal_strlit("true");
        reveal_strlit("false");
        assert("on"@.len() == 2 && "off"@.len() == 3 && "true"@.len() == 4 && "false"@.len() == 5);
    }
    if crate::text::str_eq(value, "on") {
        Ok(true)
    } else if crate::text::str_eq(value, "off") {
        Ok(false)
    } else {
        parse_bool(value)
    }
}

/// A tmux key, such as `M-Space` or `d`.
#[derive(Debug, Clone, PartialEq, Eq, PartialOrd, Ord, Hash)]
pub struct Key(pub String);

impl Key {
    pub fn new(value: &str) -> (r: Key)
        ensures
            r.0@ == value@,
    {
        Key(String::from_str(value))
    }

    pub fn as_str(&self) -> (r: &str)
        ensures
            r@ == self.0@,
    {
        self.0.as_str()
    }
}

/// A popup window for a binding.
#[derive(Debug, Clone, PartialEq, Eq)]
pub struct Popup {
    pub title: Option<String>,
    pub width: String,
    pub height: String,
}

/// The width and height of a popup that does not give them.
pub fn default_popup_dimension() -> (r: String)
    ensures
        r@ == "75%"@,
{
    String::from_str("75%")
}

impl Popup {
    /// A popup with the default size.
    pub fn new(title: Option<String>) -> (r: Popup)
        ensures
            r.title == title,
            r.width@ == "75%"@,
            r.height@ == "75%"@,
    {
        Popup { title, width: default_popup_dimension(), height: default_popup_dimension() }
    }
}

/// A command bound to a key, shown in a popup when one is given.
#[derive(Debug, Clone, PartialEq, Eq)]
pub struct Binding {
    pub command: String,
    pub popup: Option<Popup>,
}

} // verus!
