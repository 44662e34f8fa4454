//! What comes in and goes out at the boundary of the agent.

use crate::services::session_manager::{clone_opt, opt_text};
use vstd::prelude::*;

verus! {

/// One inbound message, with the id of its session if the sender has one.
#[derive(Debug)]
pub struct ChatRequest {
    pub session_id: Option<String>,
    pub message: String,
}

impl Clone for ChatRequest {
    fn clone(&self) -> (r: ChatRequest)
        ensures
            opt_text(r.session_id) == opt_text(self.session_id),
            r.message@ == self.message@,
    {
        ChatRequest { session_id: clone_opt(&self.session_id), message: self.message.clone() }
    }
}

/// The reply to a message, with the id of the session it belongs to.
#[derive(Debug)]
pub struct ChatResponse {
    pub session_id: String,
    pub reply: String,
}

impl Clone for ChatResponse {
    fn clone(&self) -> (r: ChatResponse)
        ensures
            r.session_id@ == self.session_id@,
            r.reply@ == self.reply@,
    {
        ChatResponse { session_id: self.session_id.clone(), reply: self.reply.clone() }
    }
}

} // verus!
