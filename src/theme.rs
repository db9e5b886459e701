use vstd::prelude::*;

verus! {

/// The colour schemes a session can be shown in.
#[derive(Clone, Copy, Debug, PartialEq, Eq, Structural)]
pub enum Theme {
    Classic,
    Midnight,
    Sky,
    Forest,
}

/// Style tokens of the page background for each theme.
pub open spec fn bg_class_of(t: Theme) -> Seq<char> {
    match t {
        Theme::Classic => "bg-gray-100"@,
        Theme::Midnight => "bg-gray-900"@,
        Theme::Sky => "bg-blue-100"@,
        Theme::Forest => "bg-green-100"@,
    }
}

/// Style tokens of a message bubble for each theme.
pub open spec fn msg_class_of(t: Theme) -> Seq<char> {
    match t {
        Theme::Classic => "bg-white text-gray-800"@,
        Theme::Midnight => "bg-gray-800 text-gray-100"@,
        Theme::Sky => "bg-blue-50 text-blue-900"@,
        Theme::Forest => "bg-green-50 text-green-900"@,
    }
}

impl Theme {
    pub fn bg_class(&self) -> (r: &'static str)
        ensures
            r@ == bg_class_of(*self),
    {
        match self {
            Theme::Classic => "bg-gray-100",
            Theme::Midnight => "bg-gray-900",
            Theme::Sky => "bg-blue-100",
            Theme::Forest => "bg-green-100",
        }
    }

    pub fn msg_class(&self) -> (r: &'static str)
        ensures
            r@ == msg_class_of(*self),
    {
        match self {
            Theme::Classic => "bg-white text-gray-800",
            Theme::Midnight => "bg-gray-800 text-gray-100",
            Theme::Sky => "bg-blue-50 text-blue-900",
            Theme::Forest => "bg-green-50 text-green-900",
        }
    }
}

} // verus!
