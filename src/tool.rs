//! Logical tool identities and their resolution from protocol type tags.

use vstd::prelude::*;

verus! {

/// Protocol type tag of a pen tool.
pub const TOOL_TYPE_PEN: u32 = 0x140;

/// Protocol type tag of an eraser tool.
pub const TOOL_TYPE_ERASER: u32 = 0x141;

/// A logical kind of physical input instrument.
#[derive(Clone, Copy, Debug, PartialEq, Eq, Hash, Structural)]
pub enum Tool {
    Pen,
    Eraser,
}

/// The tool that a protocol type tag names, if the tag is recognized.
pub open spec fn tool_of_tag(tag: u32) -> Option<Tool> {
    if tag == TOOL_TYPE_PEN {
        Some(Tool::Pen)
    } else if tag == TOOL_TYPE_ERASER {
        Some(Tool::Eraser)
    } else {
        None
    }
}

/// Maps a protocol type tag to a tool; unrecognized tags give `None`.
pub fn resolve_tool(tag: u32) -> (r: Option<Tool>)
    ensures
        r == tool_of_tag(tag),
{
    if tag == TOOL_TYPE_PEN {
        Some(Tool::Pen)
    } else if tag == TOOL_TYPE_ERASER {
        Some(Tool::Eraser)
    } else {
        None
    }
}

/// Placeholder user data for protocol objects whose events this library ignores.
pub struct DummyData {}

} // verus!
