use vstd::prelude::*;

use crate::errors::{EmulError, ErrorKind, ErrorTopic};

verus! {

/// What a diagnostic reports.
#[derive(Debug, Clone, Copy, PartialEq, Eq, Structural)]
pub enum ErrorMsgId {
    OutOfBounds,
    DeviceNotFound,
    RomFileNotFound,
    UnknownInstruction,
    NotInitialized,
    StackOverflow,
    StackUnderflow,
}

impl ErrorMsgId {
    /// The identifier as text, as message tables key it.
    pub fn as_str(&self) -> &'static str {
        match self {
            ErrorMsgId::OutOfBounds => "OutOfBounds",
            ErrorMsgId::DeviceNotFound => "DeviceNotFound",
            ErrorMsgId::RomFileNotFound => "RomFileNotFound",
            ErrorMsgId::UnknownInstruction => "UnknownInstruction",
            ErrorMsgId::NotInitialized => "NotInitialized",
            ErrorMsgId::StackOverflow => "StackOverflow",
            ErrorMsgId::StackUnderflow => "StackUnderflow",
        }
    }
}

/// Where a diagnostic arose.
#[derive(Debug, Clone, Copy, PartialEq, Eq, Structural)]
pub enum ErrorTopicId {
    RamRead,
    RamWrite,
    VramRead,
    VramWrite,
    Emulator,
}

impl ErrorTopicId {
    /// The identifier as text, as message tables key it.
    pub fn as_str(&self) -> &'static str {
        match self {
            ErrorTopicId::RamRead => "RamRead",
            ErrorTopicId::RamWrite => "RamWrite",
            ErrorTopicId::VramRead => "VramRead",
            ErrorTopicId::VramWrite => "VramWrite",
            ErrorTopicId::Emulator => "Emulator",
        }
    }
}

/// How serious a message is.
#[derive(Debug, Clone, Copy, PartialEq, Eq, Structural)]
pub enum MsgKind {
    Error,
    Warning,
    Info,
}

/// What a message tells about itself.
pub trait MsgInfo {
    fn kind(&self) -> MsgKind;

    fn topic_id(&self) -> &'static str;

    fn msg_id(&self) -> &'static str;

    fn params(&self) -> &Option<Vec<String>>;

    fn source(&self) -> &Option<String>;
}

/// A message that can be shown to the user.
pub trait Msg: MsgInfo {
}

/// A diagnostic: topic and identifier, the parameters to fill into its text, and the
/// cause it came from, if any.
pub struct ErrorMsg {
    pub msg_id: ErrorMsgId,
    pub topic_id: ErrorTopicId,
    pub params: Option<Vec<String>>,
    pub source: Option<String>,
}

/// The parameters of a message, none being the empty list.
pub open spec fn params_of(params: Option<Vec<String>>) -> Seq<String> {
    match params {
        Some(v) => v@,
        None => Seq::empty(),
    }
}

/// The diagnostic identifier that stands for an error kind.
pub open spec fn msg_id_of(kind: ErrorKind) -> ErrorMsgId {
    match kind {
        ErrorKind::OutOfBounds { .. } => ErrorMsgId::OutOfBounds,
        ErrorKind::DeviceNotFound => ErrorMsgId::DeviceNotFound,
        ErrorKind::RomFileNotFound => ErrorMsgId::RomFileNotFound,
        ErrorKind::UnknownInstruction { .. } => ErrorMsgId::UnknownInstruction,
        ErrorKind::NotInitialized => ErrorMsgId::NotInitialized,
        ErrorKind::StackOverflow => ErrorMsgId::StackOverflow,
        ErrorKind::StackUnderflow => ErrorMsgId::StackUnderflow,
    }
}

/// The diagnostic topic that stands for an error topic.
pub open spec fn topic_id_of(topic: ErrorTopic) -> ErrorTopicId {
    match topic {
        ErrorTopic::RamRead => ErrorTopicId::RamRead,
        ErrorTopic::RamWrite => ErrorTopicId::RamWrite,
        ErrorTopic::VramRead => ErrorTopicId::VramRead,
        ErrorTopic::VramWrite => ErrorTopicId::VramWrite,
        ErrorTopic::Emulator => ErrorTopicId::Emulator,
    }
}

impl ErrorMsg {
    /// A message with no parameters and no cause.
    pub fn new(topic_id: ErrorTopicId, msg_id: ErrorMsgId) -> (r: Self)
        ensures
            r.topic_id == topic_id,
            r.msg_id == msg_id,
            r.params is None,
            r.source is None,
    {
        ErrorMsg { msg_id, topic_id, params: None, source: None }
    }

    /// The message for an error: its topic and kind, without parameters.
    pub fn of_error(err: &EmulError) -> (r: Self)
        ensures
            r.topic_id == topic_id_of(err.topic),
            r.msg_id == msg_id_of(err.kind),
            r.params is None,
            r.source is None,
    {
        let msg_id = match err.kind {
            ErrorKind::OutOfBounds { .. } => ErrorMsgId::OutOfBounds,
            ErrorKind::DeviceNotFound => ErrorMsgId::DeviceNotFound,
            ErrorKind::RomFileNotFound => ErrorMsgId::RomFileNotFound,
            ErrorKind::UnknownInstruction { .. } => ErrorMsgId::UnknownInstruction,
            ErrorKind::NotInitialized => ErrorMsgId::NotInitialized,
            ErrorKind::StackOverflow => ErrorMsgId::StackOverflow,
            ErrorKind::StackUnderflow => ErrorMsgId::StackUnderflow,
        };
        let topic_id = match err.topic {
            ErrorTopic::RamRead => ErrorTopicId::RamRead,
            ErrorTopic::RamWrite => ErrorTopicId::RamWrite,
            ErrorTopic::VramRead => ErrorTopicId::VramRead,
            ErrorTopic::VramWrite => ErrorTopicId::VramWrite,
            ErrorTopic::Emulator => ErrorTopicId::Emulator,
        };
        ErrorMsg::new(topic_id, msg_id)
    }

    /// The message with `param` appended to its parameters.
    pub fn add_param(self, param: String) -> (r: Self)
        ensures
            r.params is Some,
            params_of(r.params) == params_of(self.params).push(param),
            r.msg_id == self.msg_id,
            r.topic_id == self.topic_id,
            r.source == self.source,
    {
        let ErrorMsg { msg_id, topic_id, params, source } = self;
        let mut list = match params {
            Some(v) => v,
            None => Vec::new(),
        };
        list.push(param);
        ErrorMsg { msg_id, topic_id, params: Some(list), source }
    }

    /// The message with `source` as its cause.
    pub fn set_source(self, source: String) -> (r: Self)
        ensures
            r.source == Some(source),
            r.msg_id == self.msg_id,
            r.topic_id == self.topic_id,
            r.params == self.params,
    {
        let ErrorMsg { msg_id, topic_id, params, source: _ } = self;
        ErrorMsg { msg_id, topic_id, params, source: Some(source) }
    }
}

impl MsgInfo for ErrorMsg {
    fn kind(&self) -> MsgKind {
        MsgKind::Error
    }

    fn topic_id(&self) -> &'static str {
        self.topic_id.as_str()
    }

    fn msg_id(&self) -> &'static str {
        self.msg_id.as_str()
    }

    fn params(&self) -> &Option<Vec<String>> {
        &self.params
    }

    fn source(&self) -> &Option<String> {
        &self.source
    }
}

impl Msg for ErrorMsg {
}

} // verus!
