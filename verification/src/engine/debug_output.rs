//! Names of the message types and severities the graphics driver reports
//! through its debug output.

use crate::rendering::gl_enums;
use vstd::prelude::*;

verus! {

/// The printed name of a debug message type; unknown values are flagged.
pub open spec fn message_type_name(message_type: u32) -> Seq<char> {
    if message_type == gl_enums::DEBUG_TYPE_DEPRECATED_BEHAVIOR {
        "DEPRECATED BEHAVIOR"@
    } else if message_type == gl_enums::DEBUG_TYPE_ERROR {
        "ERROR"@
    } else if message_type == gl_enums::DEBUG_TYPE_MARKER {
        "MARKER"@
    } else if message_type == gl_enums::DEBUG_TYPE_OTHER {
        "OTHER"@
    } else if message_type == gl_enums::DEBUG_TYPE_PERFORMANCE {
        "PERFORMANCE"@
    } else if message_type == gl_enums::DEBUG_TYPE_POP_GROUP {
        "POP GROUP"@
    } else if message_type == gl_enums::DEBUG_TYPE_PORTABILITY {
        "PORTABILITY"@
    } else if message_type == gl_enums::DEBUG_TYPE_PUSH_GROUP {
        "PUSH GROUP"@
    } else if message_type == gl_enums::DEBUG_TYPE_UNDEFINED_BEHAVIOR {
        "UNDEFINED BEHAVIOR"@
    } else {
        "!UNDEFINED ENUM!"@
    }
}

/// The printed name of a debug message severity; unknown values are flagged.
pub open spec fn severity_name(severity: u32) -> Seq<char> {
    if severity == gl_enums::DEBUG_SEVERITY_HIGH {
        "HIGH"@
    } else if severity == gl_enums::DEBUG_SEVERITY_MEDIUM {
        "MEDIUM"@
    } else if severity == gl_enums::DEBUG_SEVERITY_LOW {
        "LOW"@
    } else if severity == gl_enums::DEBUG_SEVERITY_NOTIFICATION {
        "NOTIFICATION"@
    } else {
        "!UNDEFINED ENUM!"@
    }
}

/// The name printed for a debug message type.
pub fn message_type_to_str(message_type: u32) -> (r: &'static str)
    ensures
        r@ == message_type_name(message_type),
{
    if message_type == gl_enums::DEBUG_TYPE_DEPRECATED_BEHAVIOR {
        "DEPRECATED BEHAVIOR"
    } else if message_type == gl_enums::DEBUG_TYPE_ERROR {
        "ERROR"
    } else if message_type == gl_enums::DEBUG_TYPE_MARKER {
        "MARKER"
    } else if message_type == gl_enums::DEBUG_TYPE_OTHER {
        "OTHER"
    } else if message_type == gl_enums::DEBUG_TYPE_PERFORMANCE {
        "PERFORMANCE"
    } else if message_type == gl_enums::DEBUG_TYPE_POP_GROUP {
        "POP GROUP"
    } else if message_type == gl_enums::DEBUG_TYPE_PORTABILITY {
        "PORTABILITY"
    } else if message_type == gl_enums::DEBUG_TYPE_PUSH_GROUP {
        "PUSH GROUP"
    } else if message_type == gl_enums::DEBUG_TYPE_UNDEFINED_BEHAVIOR {
        "UNDEFINED BEHAVIOR"
    } else {
        "!UNDEFINED ENUM!"
    }
}

/// The name printed for a debug message severity.
pub fn severity_to_str(severity: u32) -> (r: &'static str)
    ensures
        r@ == severity_name(severity),
{
    if severity == gl_enums::DEBUG_SEVERITY_HIGH {
        "HIGH"
    } else if severity == gl_enums::DEBUG_SEVERITY_MEDIUM {
        "MEDIUM"
    } else if severity == gl_enums::DEBUG_SEVERITY_LOW {
        "LOW"
    } else if severity == gl_enums::DEBUG_SEVERITY_NOTIFICATION {
        "NOTIFICATION"
    } else {
        "!UNDEFINED ENUM!"
    }
}

} // verus!
