use vstd::prelude::*;

verus! {

/// What went wrong, as the server reports it.
#[derive(Clone, Copy, Debug, PartialEq, Eq, Structural)]
pub enum Kind {
    InValid,
    Parse,
    Fetch,
    NotFound,
    Insert,
    Update,
    Delete,
    Unexpected,
    CantGainUsers,
}

/// On which part of the data the error occurred.
#[derive(Clone, Copy, Debug, PartialEq, Eq, Structural)]
pub enum OnType {
    Mongo,
    Date,
    Bucket,
    Channel,
    ChannelParent,
    Chat,
    ChatPrivate,
    ChatGroup,
    Server,
    Log,
    Message,
    Relation,
    RelationFriend,
    RelationBlocked,
    RefreshToken,
    Transaction,
    User,
}

/// The name under which a kind is written into logs.
pub open spec fn kind_name(kind: Kind) -> Seq<char> {
    match kind {
        Kind::InValid => "InValid"@,
        Kind::Parse => "Parse"@,
        Kind::Fetch => "Fetch"@,
        Kind::NotFound => "NotFound"@,
        Kind::Insert => "Insert"@,
        Kind::Update => "Update"@,
        Kind::Delete => "Delete"@,
        Kind::Unexpected => "Unexpected"@,
        Kind::CantGainUsers => "CantGainUsers"@,
    }
}

/// The name under which an error location is written into logs.
pub open spec fn on_type_name(on_type: OnType) -> Seq<char> {
    match on_type {
        OnType::Mongo => "Mongo"@,
        OnType::Date => "Date"@,
        OnType::Bucket => "Bucket"@,
        OnType::Channel => "Channel"@,
        OnType::ChannelParent => "ChannelParent"@,
        OnType::Chat => "Chat"@,
        OnType::ChatPrivate => "ChatPrivate"@,
        OnType::ChatGroup => "ChatGroup"@,
        OnType::Server => "Server"@,
        OnType::Log => "Log"@,
        OnType::Message => "Message"@,
        OnType::Relation => "Relation"@,
        OnType::RelationFriend => "RelationFriend"@,
        OnType::RelationBlocked => "RelationBlocked"@,
        OnType::RefreshToken => "RefreshToken"@,
        OnType::Transaction => "Transaction"@,
        OnType::User => "User"@,
    }
}

impl Kind {
    /// The kind's name as an owned string.
    pub fn name(&self) -> (r: String)
        ensures
            r@ == kind_name(*self),
    {
        let s = match self {
            Kind::InValid => "InValid",
            Kind::Parse => "Parse",
            Kind::Fetch => "Fetch",
            Kind::NotFound => "NotFound",
            Kind::Insert => "Insert",
            Kind::Update => "Update",
            Kind::Delete => "Delete",
            Kind::Unexpected => "Unexpected",
            Kind::CantGainUsers => "CantGainUsers",
        };
        s.to_string()
    }
}

impl OnType {
    /// The location's name as an owned string.
    pub fn name(&self) -> (r: String)
        ensures
            r@ == on_type_name(*self),
    {
        let s = match self {
            OnType::Mongo => "Mongo",
            OnType::Date => "Date",
            OnType::Bucket => "Bucket",
            OnType::Channel => "Channel",
            OnType::ChannelParent => "ChannelParent",
            OnType::Chat => "Chat",
            OnType::ChatPrivate => "ChatPrivate",
            OnType::ChatGroup => "ChatGroup",
            OnType::Server => "Server",
            OnType::Log => "Log",
            OnType::Message => "Message",
            OnType::Relation => "Relation",
            OnType::RelationFriend => "RelationFriend",
            OnType::RelationBlocked => "RelationBlocked",
            OnType::RefreshToken => "RefreshToken",
            OnType::Transaction => "Transaction",
            OnType::User => "User",
        };
        s.to_string()
    }
}

/// A message meant for the client, attached to a server error.
#[derive(Clone, Copy, Debug, PartialEq, Eq, Structural)]
pub enum ClientError {
    PrivateChatTryEdit,
    ServerNotFound,
}

/// A server-side error: its kind and location, the code location that raised
/// it, debug information as key/value pairs in insertion order, an optional
/// public text, an optional message for the client, and the error it was
/// raised from.
#[derive(Debug)]
pub struct ServerError {
    pub kind: Kind,
    pub on_type: OnType,
    pub stack: String,
    pub debug_info: Vec<(String, String)>,
    pub pub_info: Option<String>,
    pub client: Option<ClientError>,
    pub child: Option<Box<ServerError>>,
}

/// Key/value pairs of debug information as character sequences.
pub open spec fn pairs_view(pairs: Seq<(String, String)>) -> Seq<(Seq<char>, Seq<char>)> {
    pairs.map_values(|p: (String, String)| (p.0@, p.1@))
}

impl ServerError {
    /// The debug information as character sequences.
    pub open spec fn debug_view(&self) -> Seq<(Seq<char>, Seq<char>)> {
        pairs_view(self.debug_info@)
    }

    /// A fresh error without debug information, public text or cause.
    pub fn new(kind: Kind, on_type: OnType, stack: &str) -> (r: ServerError)
        ensures
            r.kind == kind,
            r.on_type == on_type,
            r.stack@ == stack@,
            r.debug_info@.len() == 0,
            r.pub_info is None,
            r.client is None,
            r.child is None,
    {
        ServerError {
            kind,
            on_type,
            stack: stack.to_string(),
            debug_info: Vec::new(),
            pub_info: None,
            client: None,
            child: None,
        }
    }

    /// Appends one key/value pair of debug information.
    pub fn add_debug_info(self, key: &str, value: String) -> (r: ServerError)
        ensures
            r.kind == self.kind,
            r.on_type == self.on_type,
            r.stack == self.stack,
            r.debug_view() == self.debug_view().push((key@, value@)),
            r.pub_info == self.pub_info,
            r.client == self.client,
            r.child == self.child,
    {
        let mut s = self;
        s.debug_info.push((key.to_string(), value));
        proof {
            assert(pairs_view(s.debug_info@) =~= pairs_view(self.debug_info@).push((key@, value@)));
        }
        s
    }

    /// Exposes a piece of information to the client.
    pub fn expose_public_info(self, value: String) -> (r: ServerError)
        ensures
            r.kind == self.kind,
            r.on_type == self.on_type,
            r.stack == self.stack,
            r.debug_info == self.debug_info,
            r.pub_info == Some(value),
            r.client == self.client,
            r.child == self.child,
    {
        let mut s = self;
        s.pub_info = Some(value);
        s
    }

    /// Attaches a message for the client.
    pub fn add_client(self, client: ClientError) -> (r: ServerError)
        ensures
            r.kind == self.kind,
            r.on_type == self.on_type,
            r.stack == self.stack,
            r.debug_info == self.debug_info,
            r.pub_info == self.pub_info,
            r.client == Some(client),
            r.child == self.child,
    {
        let mut s = self;
        s.client = Some(client);
        s
    }
}

} // verus!
