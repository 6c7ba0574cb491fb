//! The per-connection lifecycle and command dispatch: a connection is
//! unauthenticated until the stored credentials are presented, and
//! terminated once the peer announces the end of communication. Every
//! decoded message yields a [`Command`] that drives the connection loop.

use crate::engine::{eval, handle_query, QueryError};
use crate::query::Query;
use crate::store::{Insertion, Store};
use vstd::prelude::*;

verus! {

/// What the connection loop does after a message: keep reading, or stop.
#[derive(Clone, Copy, PartialEq, Eq, Structural, Debug)]
pub enum Command {
    Continue,
    Exit,
}

/// Where a connection stands in its lifecycle.
#[derive(Clone, Copy, PartialEq, Eq, Structural, Debug)]
pub enum ConnectionState {
    Unauthenticated,
    Authenticated,
    Terminated,
}

/// The negotiation parameters a client opens with. Purely informational:
/// receiving them changes no connection state.
#[derive(Clone, Debug)]
pub struct ClientSetupSecureConnection {
    pub protocol_version: String,
}

/// The credentials a client authenticates with.
#[derive(Clone, Debug)]
pub struct ClientAuthentication {
    pub username: String,
    pub password: String,
}

/// A decoded protocol message, consumed exactly once by the dispatcher.
#[derive(Debug)]
pub enum Message {
    ClientSetup(ClientSetupSecureConnection),
    ClientAuthentification(ClientAuthentication),
    Insert(Insertion),
    Query(Query),
    EndOfCommunication,
}

/// Acknowledges the client's setup parameters. Purely informational, so
/// the connection always goes on.
pub fn parse_client_setup(secure_connection_message: ClientSetupSecureConnection) -> (r: Command)
    ensures
        r is Continue,
{
    let ClientSetupSecureConnection { protocol_version: _ } = secure_connection_message;
    Command::Continue
}

/// Takes note of an authentication attempt. Whether it succeeded or
/// not, the connection goes on; the state change itself is the
/// connection's affair (see [`Connection::handle_message`]).
pub fn parse_authentification(authentification: ClientAuthentication) -> (r: Command)
    ensures
        r is Continue,
{
    let ClientAuthentication { username: _, password: _ } = authentification;
    Command::Continue
}

/// Ends the communication: the connection loop must stop.
pub fn end_communication() -> (r: Command)
    ensures
        r is Exit,
{
    Command::Exit
}

/// Dispatches one decoded message: routes it to the insertion pipeline
/// or the query engine and returns the command that drives the
/// connection loop, together with the identifiers a query produced.
///
/// An insertion failure is deliberately swallowed — inserts are
/// best-effort and the connection goes on — while a query failure would
/// end the connection. Only `EndOfCommunication` ever yields
/// [`Command::Exit`] here, since the in-process storage cannot fail.
pub fn parse_message(message: Message, store: &mut Store) -> (r: (Command, Vec<u64>))
    requires
        old(store).wf(),
    ensures
        final(store).wf(),
        message is EndOfCommunication <==> r.0 is Exit,
        message is ClientSetup || message is ClientAuthentification || message
            is EndOfCommunication ==> *final(store) == *old(store) && r.1@.len() == 0,
        message matches Message::Insert(insertion) ==> r.1@.len() == 0 && (if old(store).next_id < u64::MAX {
            final(store).next_id == old(store).next_id + 1 && final(store).records@ == old(store).records@.push(
                (crate::store::Record {
                    id: old(store).next_id,
                    collection: insertion.collection,
                    data: insertion.data,
                    acl: insertion.acl,
                    usecases: insertion.usecases,
                }),
            )
        } else {
            *final(store) == *old(store)
        }),
        message matches Message::Query(query) ==> *final(store) == *old(store)
            && r.1@.to_set() == eval(query, old(store).records@) && r.1@.no_duplicates(),
{
    match message {
        Message::ClientSetup(param) => (parse_client_setup(param), Vec::new()),
        Message::ClientAuthentification(param) => (parse_authentification(param), Vec::new()),
        Message::EndOfCommunication => (end_communication(), Vec::new()),
        Message::Insert(param) => {
            let _ = store.insert(param);
            (Command::Continue, Vec::new())
        },
        Message::Query(param) => {
            match handle_query(&param, store) {
                Ok((command, ids)) => (command, ids),
                Err(QueryError::StorageFailure) => (Command::Exit, Vec::new()),
            }
        },
    }
}

/// One client connection: its lifecycle state and the credentials a
/// client must present to authenticate.
pub struct Connection {
    pub state: ConnectionState,
    pub username: String,
    pub password: String,
}

impl Connection {
    /// A fresh, unauthenticated connection that accepts the given
    /// credentials.
    pub fn new(username: String, password: String) -> (r: Connection)
        ensures
            r.state is Unauthenticated,
            r.username == username,
            r.password == password,
    {
        Connection { state: ConnectionState::Unauthenticated, username, password }
    }

    /// Whether an authentication message carries this connection's
    /// credentials.
    pub open spec fn credentials_match(self, auth: ClientAuthentication) -> bool {
        auth.username@ == self.username@ && auth.password@ == self.password@
    }

    /// Consumes one decoded message, in this connection's current state.
    ///
    /// `EndOfCommunication` terminates the connection and yields
    /// [`Command::Exit`] from any state, and a terminated connection
    /// processes nothing further. A matching `ClientAuthentification`
    /// authenticates the connection; a failed attempt leaves the state
    /// as it was and the connection open. `Insert` and `Query` are
    /// processed in every live state — also before authentication, a
    /// permissive policy kept deliberately — and yield
    /// [`Command::Continue`].
    pub fn handle_message(&mut self, message: Message, store: &mut Store) -> (r: (
        Command,
        Vec<u64>,
    ))
        requires
            old(store).wf(),
        ensures
            final(store).wf(),
            final(self).username == old(self).username,
            final(self).password == old(self).password,
            old(self).state is Terminated ==> final(self).state is Terminated && *final(store)
                == *old(store) && r.0 is Exit && r.1@.len() == 0,
            !(old(self).state is Terminated) ==> (r.0 is Exit <==> message
                is EndOfCommunication),
            !(old(self).state is Terminated) && message is EndOfCommunication ==> final(self).state is Terminated && *final(store) == *old(store) && r.1@.len() == 0,
            message matches Message::ClientAuthentification(auth) ==> (!(old(self).state
                is Terminated) ==> *final(store) == *old(store) && r.1@.len() == 0 && final(self).state == (if old(self).credentials_match(auth) {
                ConnectionState::Authenticated
            } else {
                old(self).state
            })),
            !(old(self).state is Terminated) && (message is ClientSetup || message is Insert
                || message is Query) ==> final(self).state == old(self).state,
            !(old(self).state is Terminated) && message is ClientSetup ==> *final(store) == *old(store) && r.1@.len() == 0,
            message matches Message::Insert(insertion) ==> (!(old(self).state is Terminated)
                ==> r.1@.len() == 0 && (if old(store).next_id < u64::MAX {
                final(store).next_id == old(store).next_id + 1 && final(store).records@ == old(store).records@.push(
                    (crate::store::Record {
                        id: old(store).next_id,
                        collection: insertion.collection,
                        data: insertion.data,
                        acl: insertion.acl,
                        usecases: insertion.usecases,
                    }),
                )
            } else {
                *final(store) == *old(store)
            })),
            message matches Message::Query(query) ==> (!(old(self).state is Terminated)
                ==> *final(store) == *old(store) && r.1@.to_set() == eval(
                query,
                old(store).records@,
            ) && r.1@.no_duplicates()),
    {
        if matches!(self.state, ConnectionState::Terminated) {
            return (Command::Exit, Vec::new());
        }
        match message {
            Message::ClientAuthentification(auth) => {
                let accepted = crate::message_type::string_eq(&auth.username, &self.username)
                    && crate::message_type::string_eq(&auth.password, &self.password);
                let command = parse_authentification(auth);
                if accepted {
                    self.state = ConnectionState::Authenticated;
                }
                (command, Vec::new())
            },
            Message::EndOfCommunication => {
                self.state = ConnectionState::Terminated;
                (parse_message(Message::EndOfCommunication, store).0, Vec::new())
            },
            other => parse_message(other, store),
        }
    }
}

} // verus!
