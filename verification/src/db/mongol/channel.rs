use vstd::prelude::*;

use crate::db::mongol::helper::{convert_domain_id_to_mongol, is_invalid_id_error};
use crate::error::{OnType, ServerError};
use crate::ids::{parsed_uuid, uuid_text, uuid_to_string, MongolId};

verus! {

/// What kind of parent a channel belongs to.
#[derive(Clone, Copy, Debug, PartialEq, Eq, Structural)]
pub enum ParentType {
    ChatPrivate,
    ChatGroup,
    Server,
}

/// The collection that holds the parents of one type of channel.
#[derive(Clone, Copy, Debug, PartialEq, Eq, Structural)]
pub enum ParentCollection {
    Chats,
    Servers,
}

/// How the parent of a channel is found: in which collection, by which
/// field holding the channel's id, on which type errors are reported, and
/// whether the found document is wrapped as a server.
#[derive(Clone, Copy, Debug)]
pub struct ParentLookup {
    pub collection: ParentCollection,
    pub match_field: &'static str,
    pub on_type: OnType,
    pub wrap_as_server: bool,
}

/// The lookup of `get_channel_parent` for each parent type.
pub open spec fn parent_lookup_spec(parent_type: ParentType) -> (ParentCollection, Seq<char>, OnType, bool) {
    match parent_type {
        ParentType::ChatPrivate => (ParentCollection::Chats, "Private._id"@, OnType::ChatPrivate, false),
        ParentType::ChatGroup => (ParentCollection::Chats, "Group._id"@, OnType::ChatGroup, false),
        ParentType::Server => (ParentCollection::Servers, "channel_ids"@, OnType::Server, true),
    }
}

/// Where to look for the parent of a channel of the given parent type: a
/// private chat by `Private._id`, a group chat by `Group._id`, a server by
/// its `channel_ids` (and then wrapped as a server).
pub fn channel_parent_lookup(parent_type: ParentType) -> (r: ParentLookup)
    ensures
        (r.collection, r.match_field@, r.on_type, r.wrap_as_server) == parent_lookup_spec(
            parent_type,
        ),
{
    match parent_type {
        ParentType::ChatPrivate => ParentLookup {
            collection: ParentCollection::Chats,
            match_field: "Private._id",
            on_type: OnType::ChatPrivate,
            wrap_as_server: false,
        },
        ParentType::ChatGroup => ParentLookup {
            collection: ParentCollection::Chats,
            match_field: "Group._id",
            on_type: OnType::ChatGroup,
            wrap_as_server: false,
        },
        ParentType::Server => ParentLookup {
            collection: ParentCollection::Servers,
            match_field: "channel_ids",
            on_type: OnType::Server,
            wrap_as_server: true,
        },
    }
}

/// A role that can be granted within a channel.
#[derive(Debug)]
pub struct Role {
    pub name: String,
}

/// The names of roles, in order.
pub open spec fn role_names(roles: Seq<Role>) -> Seq<Seq<char>> {
    roles.map_values(|r: Role| r.name@)
}

/// A copy of roles.
pub fn copy_roles(roles: &Vec<Role>) -> (r: Vec<Role>)
    ensures
        role_names(r@) == role_names(roles@),
{
    let mut out: Vec<Role> = Vec::new();
    let mut i: usize = 0;
    while i < roles.len()
        invariant
            i <= roles@.len(),
            role_names(out@) =~= role_names(roles@).take(i as int),
        decreases roles@.len() - i,
    {
        out.push(Role { name: roles[i].name.clone() });
        assert(role_names(roles@).take(i + 1) =~= role_names(roles@).take(i as int).push(
            roles@[i as int].name@,
        ));
        i += 1;
    }
    assert(role_names(roles@).take(roles@.len() as int) =~= role_names(roles@));
    out
}

/// An optional text as an optional character sequence.
pub open spec fn opt_view(s: Option<String>) -> Option<Seq<char>> {
    match s {
        Some(t) => Some(t@),
        None => None,
    }
}

/// A copy of an optional text.
pub fn copy_opt(s: &Option<String>) -> (r: Option<String>)
    ensures
        opt_view(r) == opt_view(*s),
{
    match s {
        Some(t) => Some(t.clone()),
        None => None,
    }
}

/// A channel as the domain knows it, with its id as UUID text.
#[derive(Debug)]
pub struct Channel {
    pub id: String,
    pub name: Option<String>,
    pub roles: Vec<Role>,
}

impl Channel {
    /// A channel made of its parts.
    pub fn convert(id: String, name: Option<String>, roles: Vec<Role>) -> (r: Channel)
        ensures
            r.id == id,
            r.name == name,
            r.roles == roles,
    {
        Channel { id, name, roles }
    }

    /// The domain channel of a stored channel: the stored id as UUID text,
    /// which converts back to the same stored id; name and roles as they are.
    pub fn from(value: &MongolChannel) -> (r: Channel)
        ensures
            r.id@ == uuid_text(value._id.0),
            parsed_uuid(r.id@) == Some(value._id.0),
            opt_view(r.name) == opt_view(value.name),
            role_names(r.roles@) == role_names(value.roles@),
    {
        Channel::convert(uuid_to_string(value._id), copy_opt(&value.name), copy_roles(&value.roles))
    }
}

/// The channel document stored in MongoDB.
#[derive(Debug)]
pub struct MongolChannel {
    pub _id: MongolId,
    pub parent_type: ParentType,
    pub name: Option<String>,
    pub roles: Vec<Role>,
}

/// The stored channel of a domain channel under a parent of the given type,
/// or why there is none.
pub open spec fn channel_conversion(
    r: Result<MongolChannel, ServerError>,
    value: Channel,
    parent_type: ParentType,
) -> bool {
    match r {
        Ok(m) => {
            &&& parsed_uuid(value.id@) == Some(m._id.0)
            &&& m.parent_type == parent_type
            &&& opt_view(m.name) == opt_view(value.name)
            &&& role_names(m.roles@) == role_names(value.roles@)
        },
        Err(e) => parsed_uuid(value.id@) is None && is_invalid_id_error(e, value.id@),
    }
}

impl MongolChannel {
    /// The stored form of a channel under a parent of the given type; fails
    /// when the channel id is not a UUID.
    pub fn try_from_channel(value: &Channel, parent_type: ParentType) -> (r: Result<
        MongolChannel,
        ServerError,
    >)
        ensures
            channel_conversion(r, *value, parent_type),
    {
        let channel_id = convert_domain_id_to_mongol(value.id.as_str())?;
        Ok(
            MongolChannel {
                _id: channel_id,
                parent_type,
                name: copy_opt(&value.name),
                roles: copy_roles(&value.roles),
            },
        )
    }
}

} // verus!
