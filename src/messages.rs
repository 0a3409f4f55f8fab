//! Chat messages relayed to every client.
use vstd::prelude::*;
use crate::events::SocketContext;

verus! {

/// Who wrote a message.
#[derive(Clone, Copy, Debug, PartialEq, Eq, Structural)]
pub enum MessageAuthorType {
    Server,
    User,
    Other,
}

/// A message as clients receive it.
#[derive(Debug)]
pub struct ServerMessage {
    pub author_type: MessageAuthorType,
    pub author_name: Option<String>,
    pub content: String,
}

impl ServerMessage {
    /// The message that a user with the given connection sent.
    pub open spec fn from_user(connection_id: String, content: String) -> ServerMessage {
        ServerMessage { author_type: MessageAuthorType::User, author_name: Some(connection_id), content }
    }

    /// The message that the connection of `context` sent.
    pub fn from_user_exec(context: &SocketContext, content: &String) -> (r: ServerMessage)
        ensures
            r == ServerMessage::from_user(context.socket_id, *content),
    {
        ServerMessage {
            author_type: MessageAuthorType::User,
            author_name: Some(context.socket_id.clone()),
            content: content.clone(),
        }
    }

    /// An equal copy.
    pub fn duplicate(&self) -> (r: ServerMessage)
        ensures
            r == *self,
    {
        let author_name = match &self.author_name {
            Some(name) => Some(name.clone()),
            None => None,
        };
        ServerMessage { author_type: self.author_type, author_name, content: self.content.clone() }
    }
}

impl Default for ServerMessage {
    /// An empty message from the server.
    fn default() -> (r: ServerMessage)
        ensures
            r.author_type == MessageAuthorType::Server,
            r.author_name.is_none(),
            r.content@.len() == 0,
    {
        ServerMessage { author_type: MessageAuthorType::Server, author_name: None, content: String::new() }
    }
}

/// Every chat message received so far, oldest first. Messages are retained for the whole run.
#[derive(Debug)]
pub struct GlobalMessages(pub Vec<ServerMessage>);

impl GlobalMessages {
    pub fn new() -> (r: GlobalMessages)
        ensures
            r.0@.len() == 0,
    {
        GlobalMessages(Vec::new())
    }

    /// An equal copy of the messages, in the same order.
    pub fn to_vec(&self) -> (r: Vec<ServerMessage>)
        ensures
            r@ == self.0@,
    {
        let mut out: Vec<ServerMessage> = Vec::new();
        let mut i: usize = 0;
        while i < self.0.len()
            invariant
                i <= self.0@.len(),
                out@ == self.0@.take(i as int),
            decreases self.0@.len() - i,
        {
            out.push(self.0[i].duplicate());
            i = i + 1;
            assert(out@ =~= self.0@.take(i as int));
        }
        assert(self.0@.take(self.0@.len() as int) =~= self.0@);
        out
    }
}

} // verus!
