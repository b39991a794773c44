//! Session identities, messages and configuration, and their codecs.
pub mod apply;
pub mod config;
pub mod flow;
pub mod history;
pub mod publication;
pub mod retention;
pub mod ledger;
pub mod value;
pub mod version;
pub mod write;

use crate::value::{HostValue, ValueModel};
use vstd::prelude::*;

verus! {

/// Identity of one session.
#[derive(Debug, PartialEq, Eq)]
pub struct SessionRef {
    pub id: String,
}

impl Clone for SessionRef {
    fn clone(&self) -> (copy: SessionRef)
        ensures
            copy@ == self@,
    {
        SessionRef { id: self.id.clone() }
    }
}

impl View for SessionRef {
    type V = Seq<char>;

    open spec fn view(&self) -> Seq<char> {
        self.id@
    }
}

/// Speaker of a session message.
#[derive(Clone, Copy, Debug, PartialEq, Eq, Structural)]
pub enum SessionMessageRole {
    System,
    User,
    Assistant,
    Tool,
}

/// One message stored in a session's history.
#[derive(Clone, Debug, PartialEq)]
pub struct SessionMessage {
    pub id: String,
    pub from: Option<String>,
    pub to: Option<String>,
    pub role: SessionMessageRole,
    pub session: SessionRef,
    pub created_at: String,
    pub payload: HostValue,
    pub provenance: Option<HostValue>,
    pub dedup_key: Option<String>,
}

/// Mathematical model of a [`SessionMessage`].
pub struct SessionMessageModel {
    pub id: Seq<char>,
    pub from: Option<Seq<char>>,
    pub to: Option<Seq<char>>,
    pub role: SessionMessageRole,
    pub session: Seq<char>,
    pub created_at: Seq<char>,
    pub payload: ValueModel,
    pub provenance: Option<ValueModel>,
    pub dedup_key: Option<Seq<char>>,
}

pub open spec fn opt_chars(o: Option<String>) -> Option<Seq<char>> {
    match o {
        Some(s) => Some(s@),
        None => None,
    }
}

pub open spec fn opt_model(o: Option<HostValue>) -> Option<ValueModel> {
    match o {
        Some(v) => Some(v@),
        None => None,
    }
}

impl View for SessionMessage {
    type V = SessionMessageModel;

    open spec fn view(&self) -> SessionMessageModel {
        SessionMessageModel {
            id: self.id@,
            from: opt_chars(self.from),
            to: opt_chars(self.to),
            role: self.role,
            session: self.session@,
            created_at: self.created_at@,
            payload: self.payload@,
            provenance: opt_model(self.provenance),
            dedup_key: opt_chars(self.dedup_key),
        }
    }
}

} // verus!
