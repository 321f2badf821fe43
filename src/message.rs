//! Progress and log messages handed to whoever presents them.
use vstd::prelude::*;

use crate::clock::{utc_now, Timestamp};

verus! {

/// How important a message is.
#[derive(Clone, Copy, Debug, PartialEq, Eq, Structural)]
pub enum Level {
    Trace,
    Debug,
    Info,
    Warn,
    Error,
}

/// One line of progress or log output, stamped with the time it was made.
#[derive(Debug)]
pub struct Message {
    pub content: String,
    pub level: Level,
    pub time: Timestamp,
}

impl Message {
    pub fn new(content: String, level: Level) -> (r: Message)
        ensures
            r.content == content,
            r.level == level,
            r.time.wf(),
    {
        Message { content, level, time: utc_now() }
    }

    pub fn debug(content: String) -> (r: Message)
        ensures
            r.content == content,
            r.level == Level::Debug,
            r.time.wf(),
    {
        Message::new(content, Level::Debug)
    }

    pub fn info(content: String) -> (r: Message)
        ensures
            r.content == content,
            r.level == Level::Info,
            r.time.wf(),
    {
        Message::new(content, Level::Info)
    }

    pub fn error(content: String) -> (r: Message)
        ensures
            r.content == content,
            r.level == Level::Error,
            r.time.wf(),
    {
        Message::new(content, Level::Error)
    }
}

} // verus!
