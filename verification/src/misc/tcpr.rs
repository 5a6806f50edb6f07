//! The decisions of a TCP remote-console session with a game server: opening
//! it, waiting for a status reply, and sending a command then reading.
use vstd::prelude::*;
use crate::text::join;
use crate::text::starts_with;
use crate::text::starts_with_text;

verus! {

/// The error of a failed connection: the address, then the error on a line
/// of its own.
pub open spec fn connection_error(address: Seq<char>, error: Seq<char>) -> Seq<char> {
    "Error connecting to "@ + address + "\nError: "@ + error
}

/// What follows an attempt to connect.
pub enum ConnectAction {
    /// Opening failed with this error.
    Fail(String),
    /// Send the password as the first command.
    SendPassword(String),
    /// The session is open.
    Ready,
}

/// What to do once the connection was attempted: fail with the connection
/// error, send the password when there is one, or be ready.
pub fn on_connect(address: &str, connected: Result<(), String>, password: Option<String>) -> (r: ConnectAction)
    ensures
        match connected {
            Err(e) => r matches ConnectAction::Fail(m) && m@ == connection_error(address@, e@),
            Ok(_) => match password {
                Some(p) => r matches ConnectAction::SendPassword(s) && s@ == p@,
                None => r is Ready,
            },
        },
{
    match connected {
        Err(e) => ConnectAction::Fail(
            join("Error connecting to ", address).concat("\nError: ").concat(e.as_str()),
        ),
        Ok(_) => match password {
            Some(p) => ConnectAction::SendPassword(p),
            None => ConnectAction::Ready,
        },
    }
}

/// What follows sending the password: the write's error ends the opening
/// with that error as text; otherwise the session is open.
pub fn on_password_sent(sent: Result<(), String>) -> (r: ConnectAction)
    ensures
        match sent {
            Ok(_) => r is Ready,
            Err(e) => r matches ConnectAction::Fail(m) && m@ == e@,
        },
{
    match sent {
        Ok(_) => ConnectAction::Ready,
        Err(e) => ConnectAction::Fail(e),
    }
}

/// The most reads made while waiting for a status reply.
pub const MAX_READS: u32 = 100;

/// Waiting for a status reply: what was read so far, and how many reads were made.
pub struct ResponseWait {
    pub content: String,
    pub reads: u32,
}

/// What follows a read.
pub enum WaitAction {
    /// Read again.
    ReadAgain,
    /// The wait is over, with the reply or the error.
    Done(Result<String, String>),
}

/// The text is a status reply.
pub open spec fn is_status_reply(content: Seq<char>) -> bool {
    starts_with_text(content, "[R_STAT]"@)
}

impl ResponseWait {
    /// Nothing read yet.
    pub fn new() -> (w: ResponseWait)
        ensures
            w.content@ == Seq::<char>::empty(),
            w.reads == 0,
    {
        ResponseWait { content: String::new(), reads: 0 }
    }

    /// Takes the outcome of one read (the text it appended, or its error): an
    /// error ends the wait; a text that makes what was read a status reply ends
    /// it with that reply; after the last allowed read it ends with
    /// "No response given"; otherwise the program reads again.
    pub fn on_read(&mut self, read: Result<String, String>) -> (r: WaitAction)
        requires
            old(self).reads < MAX_READS,
        ensures
            match read {
                Err(e) => {
                    &&& r matches WaitAction::Done(Err(m)) && m@ == e@
                    &&& final(self).reads == old(self).reads
                    &&& final(self).content@ == old(self).content@
                },
                Ok(chunk) => {
                    let content = old(self).content@ + chunk@;
                    &&& final(self).content@ == content
                    &&& final(self).reads == old(self).reads + 1
                    &&& if is_status_reply(content) {
                        r matches WaitAction::Done(Ok(m)) && m@ == content
                    } else if final(self).reads >= MAX_READS {
                        r matches WaitAction::Done(Err(m)) && m@ == "No response given"@
                    } else {
                        r is ReadAgain
                    }
                },
            },
    {
        match read {
            Err(e) => WaitAction::Done(Err(e)),
            Ok(chunk) => {
                self.content.append(chunk.as_str());
                self.reads = self.reads + 1;
                if starts_with(self.content.as_str(), "[R_STAT]") {
                    WaitAction::Done(Ok(self.content.clone()))
                } else if self.reads >= MAX_READS {
                    WaitAction::Done(Err(String::from_str("No response given")))
                } else {
                    WaitAction::ReadAgain
                }
            },
        }
    }
}

/// The outcome of sending a command and reading the reply: the reply when the
/// command was sent and a reply came, else "No response given" (the errors
/// themselves are dropped). `reply` is the outcome of the wait, when one was
/// made.
pub fn send_and_read_outcome(sent: Result<(), String>, reply: Option<Result<String, String>>) -> (r: Result<String, String>)
    ensures
        match (sent, reply) {
            (Ok(_), Some(Ok(m))) => r matches Ok(t) && t@ == m@,
            _ => r matches Err(t) && t@ == "No response given"@,
        },
{
    match (sent, reply) {
        (Ok(_), Some(Ok(m))) => Ok(m),
        _ => Err(String::from_str("No response given")),
    }
}

} // verus!
