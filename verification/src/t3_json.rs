//! The threads and messages of a chat export.

use crate::time::Timestamp;
use vstd::prelude::*;

verus! {

/// A chat export: its threads and all their messages.
#[derive(Debug, PartialEq, Eq)]
pub struct T3Json {
    pub threads: Vec<T3Thread>,
    pub messages: Vec<T3Message>,
}

/// One conversation of the export.
#[derive(Debug, PartialEq, Eq)]
pub struct T3Thread {
    pub title: String,
    pub user_edited_title: bool,
    pub status: T3ThreadStatus,
    pub model: String,
    pub id: String,
    pub created_at: Timestamp,
    pub updated_at: Option<Timestamp>,
    pub last_message_at: Timestamp,
}

#[derive(Debug, Clone, Copy, PartialEq, Eq, Structural)]
pub enum T3ThreadStatus {
    Done,
}

/// One message of the export. `created_at` is the instant the charts count
/// it at.
#[derive(Debug, PartialEq, Eq)]
pub struct T3Message {
    pub id: String,
    pub thread_id: String,
    pub content: String,
    pub created_at: Timestamp,
    pub role: T3MessageRole,
    pub status: T3MessageStatus,
    pub model: String,
}

#[derive(Debug, Clone, Copy, PartialEq, Eq, Structural)]
pub enum T3MessageRole {
    User,
    Assistant,
}

#[derive(Debug, Clone, Copy, PartialEq, Eq, Structural)]
pub enum T3MessageStatus {
    Done,
    Deleted,
    Error,
}

impl Clone for T3Message {
    fn clone(&self) -> (r: Self)
        ensures
            r == *self,
    {
        T3Message {
            id: self.id.clone(),
            thread_id: self.thread_id.clone(),
            content: self.content.clone(),
            created_at: self.created_at,
            role: self.role,
            status: self.status,
            model: self.model.clone(),
        }
    }
}

impl Clone for T3Thread {
    fn clone(&self) -> (r: Self)
        ensures
            r == *self,
    {
        T3Thread {
            title: self.title.clone(),
            user_edited_title: self.user_edited_title,
            status: self.status,
            model: self.model.clone(),
            id: self.id.clone(),
            created_at: self.created_at,
            updated_at: self.updated_at,
            last_message_at: self.last_message_at,
        }
    }
}

impl Clone for T3Json {
    fn clone(&self) -> (r: Self)
        ensures
            r.threads@ == self.threads@,
            r.messages@ == self.messages@,
    {
        let threads = self.threads.clone();
        let messages = self.messages.clone();
        assert(threads@ =~= self.threads@);
        assert(messages@ =~= self.messages@);
        T3Json { threads, messages }
    }
}

} // verus!
