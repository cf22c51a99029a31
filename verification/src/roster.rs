//! The roster of joinable identities, and the lookup of one by display name.

use vstd::prelude::*;
use vstd::string::StringExecFns;
use crate::error::{ClientFault, FoundryClientError};
use crate::json::{lemma_array_view, Json, JsonValue};
use crate::payload::{
    document_of,
    malformed,
    reply_document,
    shape_fault,
    Payload,
    PayloadValue,
};
use crate::text::{
    first_position,
    is_first_position,
    lemma_first_position_absent,
    lemma_first_position_found,
    str_eq,
};

verus! {

/// One joinable identity: the server's id for it, and its display name.
#[derive(Debug, PartialEq, Eq)]
pub struct JoinDataUser {
    pub _id: String,
    pub name: String,
}

/// The roster that the server hands out before login.
#[derive(Debug, PartialEq, Eq)]
pub struct JoinData {
    pub users: Vec<JoinDataUser>,
}

/// The mathematical value of a [`JoinDataUser`].
pub struct RosterEntry {
    pub id: Seq<char>,
    pub name: Seq<char>,
}

impl View for JoinDataUser {
    type V = RosterEntry;

    open spec fn view(&self) -> RosterEntry {
        RosterEntry { id: self._id@, name: self.name@ }
    }
}

impl DeepView for JoinDataUser {
    type V = RosterEntry;

    open spec fn deep_view(&self) -> RosterEntry {
        self@
    }
}

impl View for JoinData {
    type V = Seq<RosterEntry>;

    open spec fn view(&self) -> Seq<RosterEntry> {
        self.users.deep_view()
    }
}

impl Default for JoinDataUser {
    fn default() -> (user: JoinDataUser)
        ensures
            user@ == (RosterEntry { id: Seq::empty(), name: Seq::empty() }),
    {
        JoinDataUser { _id: String::new(), name: String::new() }
    }
}

impl Default for JoinData {
    fn default() -> (data: JoinData)
        ensures
            data@ == Seq::<RosterEntry>::empty(),
    {
        let data = JoinData { users: Vec::new() };
        assert(data@ =~= Seq::empty());
        data
    }
}

/// What a member that must be a string, if it is there at all, holds: the
/// string, nothing where the member is absent, and a fault at `path` where it
/// is of another type.
pub open spec fn text_member(object: JsonValue, key: Seq<char>, path: Seq<char>) -> Result<
    Option<Seq<char>>,
    ClientFault,
> {
    match object.member(key) {
        None => Ok(None),
        Some(JsonValue::Text(text)) => Ok(Some(text)),
        Some(other) => Err(shape_fault(path, other.kind())),
    }
}

/// The id that a roster entry carries: its `_id`, else its `id`, else the
/// empty string.
pub open spec fn entry_id(item: JsonValue) -> Result<Seq<char>, ClientFault> {
    match text_member(item, "_id"@, "users[]._id"@) {
        Err(fault) => Err(fault),
        Ok(Some(id)) => Ok(id),
        Ok(None) => match text_member(item, "id"@, "users[].id"@) {
            Err(fault) => Err(fault),
            Ok(Some(id)) => Ok(id),
            Ok(None) => Ok(Seq::empty()),
        },
    }
}

/// The roster entry that one element of `users` stands for.
///
/// The element must be an object. Its id and its `name` must be strings
/// where they are present, and are empty where they are not; other members
/// are ignored.
pub open spec fn entry_of(item: JsonValue) -> Result<RosterEntry, ClientFault> {
    if !(item is Object) {
        Err(shape_fault("users[]"@, item.kind()))
    } else {
        match entry_id(item) {
            Err(fault) => Err(fault),
            Ok(id) => match text_member(item, "name"@, "users[].name"@) {
                Err(fault) => Err(fault),
                Ok(Some(name)) => Ok(RosterEntry { id: id, name: name }),
                Ok(None) => Ok(RosterEntry { id: id, name: Seq::empty() }),
            },
        }
    }
}

/// The entries that the elements of `users` stand for, in order; the fault of
/// the first element that stands for none.
pub open spec fn entries_of(items: Seq<JsonValue>) -> Result<Seq<RosterEntry>, ClientFault>
    decreases items.len(),
{
    if items.len() == 0 {
        Ok(Seq::empty())
    } else {
        match entries_of(items.drop_last()) {
            Err(fault) => Err(fault),
            Ok(entries) => match entry_of(items.last()) {
                Err(fault) => Err(fault),
                Ok(entry) => Ok(entries.push(entry)),
            },
        }
    }
}

/// The roster that a document stands for.
///
/// The document must be an object. Its member `users` must be an array where
/// it is present, and the roster is empty where it is not.
pub open spec fn roster_of(document: JsonValue) -> Result<Seq<RosterEntry>, ClientFault> {
    if !(document is Object) {
        Err(shape_fault("reply[0][0]"@, document.kind()))
    } else {
        match document.member("users"@) {
            None => Ok(Seq::empty()),
            Some(JsonValue::Array(items)) => entries_of(items),
            Some(other) => Err(shape_fault("users"@, other.kind())),
        }
    }
}

/// The display names of a roster, in order.
pub open spec fn entry_names(entries: Seq<RosterEntry>) -> Seq<Seq<char>> {
    Seq::new(entries.len(), |i: int| entries[i].name)
}

/// The id of the first roster entry whose display name is `name`.
pub open spec fn identity_of(entries: Seq<RosterEntry>, name: Seq<char>) -> Option<Seq<char>> {
    match first_position(entry_names(entries), name) {
        Some(i) => Some(entries[i].id),
        None => None,
    }
}

/// The name of the event that asks for the roster.
pub open spec fn roster_event() -> Seq<char> {
    "getJoinData"@
}

/// The identity that the reply to a roster request resolves `username` to.
///
/// No reply within the timeout is a `TimeoutError`; a reply that is not an
/// enveloped roster is `MalformedData`; a roster without an entry of that
/// display name is `NoUserError`.
pub open spec fn identity_from_reply(reply: Option<PayloadValue>, username: Seq<char>) -> Result<
    Seq<char>,
    ClientFault,
> {
    match reply_document(reply, roster_event()) {
        Err(fault) => Err(fault),
        Ok(document) => match roster_of(document) {
            Err(fault) => Err(fault),
            Ok(entries) => match identity_of(entries, username) {
                Some(id) => Ok(id),
                None => Err(ClientFault::NoUserError(username)),
            },
        },
    }
}

/// Resolves `username` against the reply to a roster request.
pub fn resolve_from_reply(reply: &Option<Payload>, username: &str) -> (id: Result<
    String,
    FoundryClientError,
>)
    ensures
        match id {
            Ok(id) => identity_from_reply(reply.deep_view(), username@) == Ok::<
                Seq<char>,
                ClientFault,
            >(id@),
            Err(fault) => identity_from_reply(reply.deep_view(), username@) == Err::<
                Seq<char>,
                ClientFault,
            >(fault@),
        },
{
    let document = match document_of(reply, "getJoinData") {
        Err(fault) => {
            return Err(fault);
        },
        Ok(document) => document,
    };
    let data = match JoinData::from_json(document) {
        Err(fault) => {
            return Err(fault);
        },
        Ok(data) => data,
    };
    data.resolve(username)
}

fn read_text_member(item: &Json, key: &str, path: &str) -> (found: Result<
    Option<String>,
    FoundryClientError,
>)
    ensures
        match found {
            Ok(Some(text)) => text_member(item@, key@, path@) == Ok::<
                Option<Seq<char>>,
                ClientFault,
            >(Some(text@)),
            Ok(None) => text_member(item@, key@, path@) == Ok::<Option<Seq<char>>, ClientFault>(
                None,
            ),
            Err(fault) => text_member(item@, key@, path@) == Err::<
                Option<Seq<char>>,
                ClientFault,
            >(fault@),
        },
{
    match item.member(key) {
        None => Ok(None),
        Some(value) => match value {
            Json::Text(text) => Ok(Some(text.clone())),
            other => Err(malformed(path, other.kind())),
        },
    }
}

fn read_entry_id(item: &Json) -> (id: Result<String, FoundryClientError>)
    ensures
        match id {
            Ok(id) => entry_id(item@) == Ok::<Seq<char>, ClientFault>(id@),
            Err(fault) => entry_id(item@) == Err::<Seq<char>, ClientFault>(fault@),
        },
{
    match read_text_member(item, "_id", "users[]._id") {
        Err(fault) => Err(fault),
        Ok(Some(id)) => Ok(id),
        Ok(None) => match read_text_member(item, "id", "users[].id") {
            Err(fault) => Err(fault),
            Ok(Some(id)) => Ok(id),
            Ok(None) => Ok(String::new()),
        },
    }
}

impl JoinDataUser {
    /// Reads one element of `users`.
    pub fn from_json(item: &Json) -> (user: Result<JoinDataUser, FoundryClientError>)
        ensures
            match user {
                Ok(user) => entry_of(item@) == Ok::<RosterEntry, ClientFault>(user@),
                Err(fault) => entry_of(item@) == Err::<RosterEntry, ClientFault>(fault@),
            },
    {
        match item {
            Json::Object(_) => {},
            other => {
                return Err(malformed("users[]", other.kind()));
            },
        }
        let id = match read_entry_id(item) {
            Err(fault) => {
                return Err(fault);
            },
            Ok(id) => id,
        };
        match read_text_member(item, "name", "users[].name") {
            Err(fault) => Err(fault),
            Ok(Some(name)) => Ok(JoinDataUser { _id: id, name: name }),
            Ok(None) => Ok(JoinDataUser { _id: id, name: String::new() }),
        }
    }
}

impl JoinData {
    /// Reads the roster out of the document that the server replies with.
    pub fn from_json(document: &Json) -> (data: Result<JoinData, FoundryClientError>)
        ensures
            match data {
                Ok(data) => roster_of(document@) == Ok::<Seq<RosterEntry>, ClientFault>(data@),
                Err(fault) => roster_of(document@) == Err::<Seq<RosterEntry>, ClientFault>(
                    fault@,
                ),
            },
    {
        match document {
            Json::Object(_) => {},
            other => {
                return Err(malformed("reply[0][0]", other.kind()));
            },
        }
        let items = match document.member("users") {
            None => {
                return Ok(JoinData::default());
            },
            Some(value) => match value {
                Json::Array(items) => {
                    proof {
                        lemma_array_view(*items);
                        assert(value@->Array_0 =~= items.deep_view());
                    }
                    items
                },
                other => {
                    return Err(malformed("users", other.kind()));
                },
            },
        };
        let ghost values = items.deep_view();
        let mut users: Vec<JoinDataUser> = Vec::new();
        let mut i: usize = 0;
        assert(values.take(0) =~= Seq::empty());
        assert(users.deep_view() =~= Seq::empty());
        while i < items.len()
            invariant
                i <= items@.len(),
                values == items.deep_view(),
                document@ is Object,
                document@.member("users"@) == Some(JsonValue::Array(values)),
                entries_of(values.take(i as int)) == Ok::<Seq<RosterEntry>, ClientFault>(
                    users.deep_view(),
                ),
            decreases items@.len() - i,
        {
            let ghost before = users.deep_view();
            proof {
                assert(values.take(i + 1).drop_last() =~= values.take(i as int));
                assert(values.take(i + 1).last() == items@[i as int]@);
            }
            match JoinDataUser::from_json(&items[i]) {
                Err(fault) => {
                    proof {
                        lemma_entries_fault_persists(values, i + 1);
                    }
                    return Err(fault);
                },
                Ok(user) => {
                    users.push(user);
                    assert(users.deep_view() =~= before.push(user@));
                },
            }
            i += 1;
        }
        assert(values.take(i as int) =~= values);
        Ok(JoinData { users })
    }

    /// The id of the first identity whose display name is `username`.
    pub fn resolve(&self, username: &str) -> (id: Result<String, FoundryClientError>)
        ensures
            match id {
                Ok(id) => identity_of(self@, username@) == Some(id@),
                Err(fault) => identity_of(self@, username@) is None && fault@
                    == ClientFault::NoUserError(username@),
            },
    {
        let ghost names = entry_names(self@);
        let mut i: usize = 0;
        while i < self.users.len()
            invariant
                i <= self.users@.len(),
                names == entry_names(self@),
                names.len() == self.users@.len(),
                forall|j: int| 0 <= j < i ==> names[j] != username@,
            decreases self.users@.len() - i,
        {
            if str_eq(self.users[i].name.as_str(), username) {
                proof {
                    assert(is_first_position(names, username@, i as int));
                    lemma_first_position_found(names, username@, i as int);
                }
                return Ok(self.users[i]._id.clone());
            }
            i += 1;
        }
        proof {
            lemma_first_position_absent(names, username@);
        }
        Err(FoundryClientError::NoUserError(String::from_str(username)))
    }
}

/// A fault among the first `n` elements is the fault of the whole array.
pub proof fn lemma_entries_fault_persists(items: Seq<JsonValue>, n: int)
    requires
        0 <= n <= items.len(),
        entries_of(items.take(n)) is Err,
    ensures
        entries_of(items) == entries_of(items.take(n)),
    decreases items.len() - n,
{
    if n < items.len() {
        assert(items.take(n + 1).drop_last() =~= items.take(n));
        lemma_entries_fault_persists(items, n + 1);
    } else {
        assert(items.take(n) =~= items);
    }
}

} // verus!
