use crate::constants::DEBUG_SEVERITY_ERROR;
use crate::constants::DEBUG_SEVERITY_INFO;
use crate::constants::DEBUG_SEVERITY_VERBOSE;
use crate::constants::DEBUG_SEVERITY_WARNING;
use crate::constants::DEBUG_TYPE_GENERAL;
use crate::constants::DEBUG_TYPE_PERFORMANCE;
use crate::constants::DEBUG_TYPE_VALIDATION;
use vstd::prelude::*;

verus! {

/// The layer that checks how the graphics API is used.
pub const VALIDATION_LAYER: &'static str = "VK_LAYER_KHRONOS_validation";

/// The instance extension that carries the layer's messages.
pub const DEBUG_UTILS_EXTENSION: &'static str = "VK_EXT_debug_utils";

pub const LABEL_GENERAL: &'static str = "[General]";

pub const LABEL_VALIDATION: &'static str = "[Validation]";

pub const LABEL_PERFORMANCE: &'static str = "[Performance]";

pub const LABEL_UNKNOWN: &'static str = "[Unknown]";

/// How grave a logged message is.
#[derive(Clone, Copy, Debug, PartialEq, Eq, Structural)]
pub enum LogLevel {
    Debug,
    Info,
    Warn,
    Error,
}

/// How a message of the validation layer is logged.
#[derive(Clone, Copy, Debug)]
pub struct LogRecord {
    pub level: LogLevel,
    /// Whether the severity is none of the four known ones; the message is
    /// then logged as an error and marked unknown.
    pub unknown_severity: bool,
    pub type_label: &'static str,
}

/// Which messages the messenger passes on.
#[derive(Clone, Copy, Debug, PartialEq, Eq, Structural)]
pub struct DebugMessengerCreateInfo {
    pub message_severity: u32,
    pub message_type: u32,
}

/// The label of a message type: of exactly one of the three kinds, else
/// unknown.
pub open spec fn type_label(message_type: u32) -> Seq<char> {
    if message_type == DEBUG_TYPE_GENERAL {
        LABEL_GENERAL@
    } else if message_type == DEBUG_TYPE_VALIDATION {
        LABEL_VALIDATION@
    } else if message_type == DEBUG_TYPE_PERFORMANCE {
        LABEL_PERFORMANCE@
    } else {
        LABEL_UNKNOWN@
    }
}

/// The level at which a severity is logged; an unknown one is an error.
pub open spec fn severity_level(message_severity: u32) -> LogLevel {
    if message_severity == DEBUG_SEVERITY_VERBOSE {
        LogLevel::Debug
    } else if message_severity == DEBUG_SEVERITY_INFO {
        LogLevel::Info
    } else if message_severity == DEBUG_SEVERITY_WARNING {
        LogLevel::Warn
    } else {
        LogLevel::Error
    }
}

pub open spec fn is_known_severity(message_severity: u32) -> bool {
    message_severity == DEBUG_SEVERITY_VERBOSE || message_severity == DEBUG_SEVERITY_INFO
        || message_severity == DEBUG_SEVERITY_WARNING || message_severity
        == DEBUG_SEVERITY_ERROR
}

pub fn get_required_layers() -> (layers: Vec<String>)
    ensures
        layers.deep_view() == seq![VALIDATION_LAYER@],
{
    let mut layers: Vec<String> = Vec::new();
    layers.push(VALIDATION_LAYER.to_owned());
    assert(layers.deep_view() =~= seq![VALIDATION_LAYER@]);
    layers
}

pub fn get_required_extensions() -> (extensions: Vec<String>)
    ensures
        extensions.deep_view() == seq![DEBUG_UTILS_EXTENSION@],
{
    let mut extensions: Vec<String> = Vec::new();
    extensions.push(DEBUG_UTILS_EXTENSION.to_owned());
    assert(extensions.deep_view() =~= seq![DEBUG_UTILS_EXTENSION@]);
    extensions
}

/// Decides how a message of the validation layer is logged.
pub fn vulkan_debug_callback(message_severity: u32, message_type: u32) -> (record: LogRecord)
    ensures
        record.level == severity_level(message_severity),
        record.unknown_severity == !is_known_severity(message_severity),
        record.type_label@ == type_label(message_type),
{
    let type_label = if message_type == DEBUG_TYPE_GENERAL {
        LABEL_GENERAL
    } else if message_type == DEBUG_TYPE_VALIDATION {
        LABEL_VALIDATION
    } else if message_type == DEBUG_TYPE_PERFORMANCE {
        LABEL_PERFORMANCE
    } else {
        LABEL_UNKNOWN
    };
    if message_severity == DEBUG_SEVERITY_VERBOSE {
        LogRecord { level: LogLevel::Debug, unknown_severity: false, type_label }
    } else if message_severity == DEBUG_SEVERITY_INFO {
        LogRecord { level: LogLevel::Info, unknown_severity: false, type_label }
    } else if message_severity == DEBUG_SEVERITY_WARNING {
        LogRecord { level: LogLevel::Warn, unknown_severity: false, type_label }
    } else if message_severity == DEBUG_SEVERITY_ERROR {
        LogRecord { level: LogLevel::Error, unknown_severity: false, type_label }
    } else {
        LogRecord { level: LogLevel::Error, unknown_severity: true, type_label }
    }
}

/// The messenger that receives the messages of the validation layer.
#[derive(Clone, Copy, Debug, PartialEq, Eq, Structural)]
pub struct DebugMessenger {
    messenger: u64,
}

impl DebugMessenger {
    pub closed spec fn spec_messenger(&self) -> u64 {
        self.messenger
    }

    /// Warnings and errors of every kind are passed on.
    pub fn fill_create_info() -> (info: DebugMessengerCreateInfo)
        ensures
            info == (DebugMessengerCreateInfo {
                message_severity: DEBUG_SEVERITY_WARNING | DEBUG_SEVERITY_ERROR,
                message_type: DEBUG_TYPE_GENERAL | DEBUG_TYPE_PERFORMANCE | DEBUG_TYPE_VALIDATION,
            }),
    {
        DebugMessengerCreateInfo {
            message_severity: DEBUG_SEVERITY_WARNING | DEBUG_SEVERITY_ERROR,
            message_type: DEBUG_TYPE_GENERAL | DEBUG_TYPE_PERFORMANCE | DEBUG_TYPE_VALIDATION,
        }
    }

    pub fn new(messenger: u64) -> (created: Self)
        ensures
            created.spec_messenger() == messenger,
    {
        DebugMessenger { messenger }
    }

    #[verifier::when_used_as_spec(spec_messenger)]
    pub fn messenger(&self) -> (messenger: u64)
        ensures
            messenger == self.spec_messenger(),
    {
        self.messenger
    }
}

} // verus!
