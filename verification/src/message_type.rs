//! The closed, stably numbered set of message-type tags that travels on
//! the wire beside each payload, with its numeric codec.

use vstd::prelude::*;

verus! {

/// The kind of a protocol message. The numeric encoding of each variant
/// (see [`MessageType::tag_value`]) is part of the wire format and must
/// stay stable across versions.
#[derive(Clone, Copy, PartialEq, Eq, Structural, Debug)]
pub enum MessageType {
    Setup,
    Authentification,
    Insert,
    InsertResponse,
    Query,
    QueryResponse,
    SingleValueResponse,
    Update,
    UpdateResponse,
    Delete,
    DeleteResult,
    EndOfCommunication,
    CloseCommunication,
}

/// Error returned when a numeric tag or a textual name does not denote
/// any message type.
#[derive(Clone, Copy, PartialEq, Eq, Structural, Debug, Default)]
pub struct MessageTypeError {}

/// Compares two strings character for character.
pub fn string_eq(a: &String, b: &String) -> (r: bool)
    ensures
        r == (a@ == b@),
{
    a.eq(b)
}

impl MessageType {
    /// The stable wire value of this message type: 0 through 12.
    pub open spec fn tag_value(self) -> u8 {
        match self {
            MessageType::Setup => 0,
            MessageType::Authentification => 1,
            MessageType::Insert => 2,
            MessageType::InsertResponse => 3,
            MessageType::Query => 4,
            MessageType::QueryResponse => 5,
            MessageType::SingleValueResponse => 6,
            MessageType::Update => 7,
            MessageType::UpdateResponse => 8,
            MessageType::Delete => 9,
            MessageType::DeleteResult => 10,
            MessageType::EndOfCommunication => 11,
            MessageType::CloseCommunication => 12,
        }
    }

    /// The message type denoted by a wire value of 0 through 12, if any.
    pub open spec fn tag_from(v: u8) -> Option<MessageType> {
        if v == 0 {
            Some(MessageType::Setup)
        } else if v == 1 {
            Some(MessageType::Authentification)
        } else if v == 2 {
            Some(MessageType::Insert)
        } else if v == 3 {
            Some(MessageType::InsertResponse)
        } else if v == 4 {
            Some(MessageType::Query)
        } else if v == 5 {
            Some(MessageType::QueryResponse)
        } else if v == 6 {
            Some(MessageType::SingleValueResponse)
        } else if v == 7 {
            Some(MessageType::Update)
        } else if v == 8 {
            Some(MessageType::UpdateResponse)
        } else if v == 9 {
            Some(MessageType::Delete)
        } else if v == 10 {
            Some(MessageType::DeleteResult)
        } else if v == 11 {
            Some(MessageType::EndOfCommunication)
        } else if v == 12 {
            Some(MessageType::CloseCommunication)
        } else {
            None
        }
    }

    /// Encodes this message type as its stable wire value.
    pub fn encode_tag(self) -> (r: u8)
        ensures
            r == self.tag_value(),
            r <= 12,
    {
        match self {
            MessageType::Setup => 0,
            MessageType::Authentification => 1,
            MessageType::Insert => 2,
            MessageType::InsertResponse => 3,
            MessageType::Query => 4,
            MessageType::QueryResponse => 5,
            MessageType::SingleValueResponse => 6,
            MessageType::Update => 7,
            MessageType::UpdateResponse => 8,
            MessageType::Delete => 9,
            MessageType::DeleteResult => 10,
            MessageType::EndOfCommunication => 11,
            MessageType::CloseCommunication => 12,
        }
    }

    /// Decodes a wire value. Values 0 through 12 each denote one message
    /// type; every other value is rejected with a [`MessageTypeError`].
    pub fn try_from(v: u8) -> (r: Result<MessageType, MessageTypeError>)
        ensures
            v <= 12 ==> r is Ok && Some(r->Ok_0) == MessageType::tag_from(v),
            v > 12 ==> r is Err,
    {
        match v {
            0 => Ok(MessageType::Setup),
            1 => Ok(MessageType::Authentification),
            2 => Ok(MessageType::Insert),
            3 => Ok(MessageType::InsertResponse),
            4 => Ok(MessageType::Query),
            5 => Ok(MessageType::QueryResponse),
            6 => Ok(MessageType::SingleValueResponse),
            7 => Ok(MessageType::Update),
            8 => Ok(MessageType::UpdateResponse),
            9 => Ok(MessageType::Delete),
            10 => Ok(MessageType::DeleteResult),
            11 => Ok(MessageType::EndOfCommunication),
            12 => Ok(MessageType::CloseCommunication),
            _ => Err(MessageTypeError {}),
        }
    }

    /// The textual name of this message type, as it appears in a
    /// self-describing payload.
    pub open spec fn name_of(self) -> Seq<char> {
        match self {
            MessageType::Setup => "Setup"@,
            MessageType::Authentification => "Authentification"@,
            MessageType::Insert => "Insert"@,
            MessageType::InsertResponse => "InsertResponse"@,
            MessageType::Query => "Query"@,
            MessageType::QueryResponse => "QueryResponse"@,
            MessageType::SingleValueResponse => "SingleValueResponse"@,
            MessageType::Update => "Update"@,
            MessageType::UpdateResponse => "UpdateResponse"@,
            MessageType::Delete => "Delete"@,
            MessageType::DeleteResult => "DeleteResult"@,
            MessageType::EndOfCommunication => "EndOfCommunication"@,
            MessageType::CloseCommunication => "CloseCommunication"@,
        }
    }

    /// Returns the textual name of this message type.
    pub fn name(self) -> (r: String)
        ensures
            r@ == self.name_of(),
    {
        match self {
            MessageType::Setup => "Setup".to_owned(),
            MessageType::Authentification => "Authentification".to_owned(),
            MessageType::Insert => "Insert".to_owned(),
            MessageType::InsertResponse => "InsertResponse".to_owned(),
            MessageType::Query => "Query".to_owned(),
            MessageType::QueryResponse => "QueryResponse".to_owned(),
            MessageType::SingleValueResponse => "SingleValueResponse".to_owned(),
            MessageType::Update => "Update".to_owned(),
            MessageType::UpdateResponse => "UpdateResponse".to_owned(),
            MessageType::Delete => "Delete".to_owned(),
            MessageType::DeleteResult => "DeleteResult".to_owned(),
            MessageType::EndOfCommunication => "EndOfCommunication".to_owned(),
            MessageType::CloseCommunication => "CloseCommunication".to_owned(),
        }
    }

    /// Decodes a textual name back into a message type. A string that is
    /// not the name of any message type is rejected with a
    /// [`MessageTypeError`], never a panic.
    #[verifier::rlimit(30)]
    pub fn from_name(s: &String) -> (r: Result<MessageType, MessageTypeError>)
        ensures
            match r {
                Ok(mt) => mt.name_of() == s@,
                Err(_) => forall|mt: MessageType| #[trigger] mt.name_of() != s@,
            },
    {
        if string_eq(s, &"Setup".to_owned()) {
            Ok(MessageType::Setup)
        } else if string_eq(s, &"Authentification".to_owned()) {
            Ok(MessageType::Authentification)
        } else if string_eq(s, &"Insert".to_owned()) {
            Ok(MessageType::Insert)
        } else if string_eq(s, &"InsertResponse".to_owned()) {
            Ok(MessageType::InsertResponse)
        } else if string_eq(s, &"Query".to_owned()) {
            Ok(MessageType::Query)
        } else if string_eq(s, &"QueryResponse".to_owned()) {
            Ok(MessageType::QueryResponse)
        } else if string_eq(s, &"SingleValueResponse".to_owned()) {
            Ok(MessageType::SingleValueResponse)
        } else if string_eq(s, &"Update".to_owned()) {
            Ok(MessageType::Update)
        } else if string_eq(s, &"UpdateResponse".to_owned()) {
            Ok(MessageType::UpdateResponse)
        } else if string_eq(s, &"Delete".to_owned()) {
            Ok(MessageType::Delete)
        } else if string_eq(s, &"DeleteResult".to_owned()) {
            Ok(MessageType::DeleteResult)
        } else if string_eq(s, &"EndOfCommunication".to_owned()) {
            Ok(MessageType::EndOfCommunication)
        } else if string_eq(s, &"CloseCommunication".to_owned()) {
            Ok(MessageType::CloseCommunication)
        } else {
            proof {
                assert forall|mt: MessageType| #[trigger] mt.name_of() != s@ by {
                    match mt {
                        MessageType::Setup => {},
                        MessageType::Authentification => {},
                        MessageType::Insert => {},
                        MessageType::InsertResponse => {},
                        MessageType::Query => {},
                        MessageType::QueryResponse => {},
                        MessageType::SingleValueResponse => {},
                        MessageType::Update => {},
                        MessageType::UpdateResponse => {},
                        MessageType::Delete => {},
                        MessageType::DeleteResult => {},
                        MessageType::EndOfCommunication => {},
                        MessageType::CloseCommunication => {},
                    }
                }
            }
            Err(MessageTypeError {})
        }
    }
}

/// Law: the numeric tag codec loses nothing. Encoding any message type
/// and decoding the resulting value yields that message type again.
pub proof fn lemma_tag_round_trip(mt: MessageType)
    ensures
        MessageType::tag_from(mt.tag_value()) == Some(mt),
{
}

/// Law: every wire value 0 through 12 decodes to a message type whose
/// encoding is that same value, and every value above 12 decodes to
/// nothing.
pub proof fn lemma_tag_values(v: u8)
    ensures
        v <= 12 ==> MessageType::tag_from(v) is Some
            && MessageType::tag_from(v)->Some_0.tag_value() == v,
        v > 12 ==> MessageType::tag_from(v) is None,
{
}


} // verus!

