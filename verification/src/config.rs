//! The configuration document and the users it names.

use std::collections::HashMap;
use vstd::prelude::*;

verus! {

/// One account that runs container workloads.
#[derive(Debug, Clone, PartialEq, Eq)]
pub struct UserEntry {
    pub name: String,
    /// The numeric user id; informational, not used when the account is
    /// created.
    pub uid: Option<u32>,
    /// Environment variables for the user's workloads; informational.
    pub env: Option<HashMap<String, String>>,
}

/// The decoded configuration document. Either field may be absent, and so
/// may both.
#[derive(Debug, Clone, PartialEq, Eq)]
pub struct Config {
    pub user: Option<UserEntry>,
    pub users: Option<Vec<UserEntry>>,
}

/// Why a configuration file gave no configuration.
#[derive(Debug, Clone, PartialEq, Eq)]
pub enum LoadError {
    /// The file could not be read; the text is the I/O error.
    Unreadable(String),
    /// The file was read but is not a JSON document of the expected shape;
    /// the text is the parse error.
    Malformed(String),
}

/// A [`LoadError`] as contracts see it.
pub enum LoadErrorView {
    Unreadable(Seq<char>),
    Malformed(Seq<char>),
}

impl View for LoadError {
    type V = LoadErrorView;

    open spec fn view(&self) -> LoadErrorView {
        match self {
            LoadError::Unreadable(reason) => LoadErrorView::Unreadable(reason@),
            LoadError::Malformed(reason) => LoadErrorView::Malformed(reason@),
        }
    }
}

impl Config {
    /// The effective users: the single entry, if any, then the list in
    /// document order.
    pub open spec fn effective_users(&self) -> Seq<UserEntry> {
        let single = match self.user {
            Some(user) => seq![user],
            None => Seq::<UserEntry>::empty(),
        };
        let list = match self.users {
            Some(users) => users@,
            None => Seq::<UserEntry>::empty(),
        };
        single + list
    }
}

/// The entries that a list of borrowed entries points at.
pub open spec fn entries_of(users: Seq<&UserEntry>) -> Seq<UserEntry> {
    users.map_values(|user: &UserEntry| *user)
}

/// The names of a sequence of entries, one for one.
pub open spec fn names_of(entries: Seq<UserEntry>) -> Seq<Seq<char>> {
    entries.map_values(|user: UserEntry| user.name@)
}

/// Collects the effective users of a configuration, borrowed from it: the
/// single entry first, then the list in document order. Nothing is left out
/// and nothing is merged.
pub fn get_users(config: &Config) -> (users: Vec<&UserEntry>)
    ensures
        entries_of(users@) == config.effective_users(),
{
    let mut users: Vec<&UserEntry> = Vec::new();
    if let Some(user) = &config.user {
        users.push(user);
    }
    if let Some(list) = &config.users {
        let ghost single = entries_of(users@);
        let mut i: usize = 0;
        while i < list.len()
            invariant
                i <= list.len(),
                entries_of(users@) == single + list@.take(i as int),
            decreases list.len() - i,
        {
            let ghost before = users@;
            users.push(&list[i]);
            assert(entries_of(users@) =~= entries_of(before).push(list@[i as int]));
            assert(list@.take(i + 1) =~= list@.take(i as int).push(list@[i as int]));
            i = i + 1;
        }
        assert(list@.take(i as int) == list@);
    }
    users
}

impl UserEntry {
    /// What is asked of an entry: a name that is not empty and, where a uid
    /// is given, a positive one.
    pub open spec fn well_formed(&self) -> bool {
        &&& self.name@.len() > 0
        &&& self.uid matches Some(uid) ==> uid > 0
    }

    /// Tells whether the entry is well formed.
    pub fn is_well_formed(&self) -> (ok: bool)
        ensures
            ok == self.well_formed(),
    {
        let numbered = match self.uid {
            Some(uid) => uid > 0,
            None => true,
        };
        !self.name.as_str().is_empty() && numbered
    }
}

/// Whether the name of the entry at `i` is that of no entry before it.
pub open spec fn name_is_new(entries: Seq<UserEntry>, i: int) -> bool {
    forall|k: int| 0 <= k < i ==> (#[trigger] entries[k]).name@ != entries[i].name@
}

/// Whether no two of `entries` have the same name.
pub open spec fn distinct_names(entries: Seq<UserEntry>) -> bool {
    forall|i: int| 0 <= i < entries.len() ==> #[trigger] name_is_new(entries, i)
}

/// Whether each of `entries` is well formed.
pub open spec fn all_well_formed(entries: Seq<UserEntry>) -> bool {
    forall|i: int| 0 <= i < entries.len() ==> (#[trigger] entries[i]).well_formed()
}

/// Tells whether the name of the entry at `i` is that of no entry before it.
fn has_new_name(users: &Vec<&UserEntry>, i: usize) -> (fresh: bool)
    requires
        i < users.len(),
    ensures
        fresh == name_is_new(entries_of(users@), i as int),
{
    let ghost entries = entries_of(users@);
    let mut k: usize = 0;
    while k < i
        invariant
            k <= i < users.len(),
            entries == entries_of(users@),
            forall|l: int| 0 <= l < k ==> (#[trigger] entries[l]).name@ != entries[i as int].name@,
        decreases i - k,
    {
        if users[k].name == users[i].name {
            assert(entries[k as int].name@ == entries[i as int].name@);
            return false;
        }
        k = k + 1;
    }
    true
}

impl Config {
    /// What is asked of a configuration: every effective user is well formed
    /// and no two of them have the same name. Decoding a document does not
    /// establish this, and the operations work without it;
    /// [`Config::is_well_formed`] tells whether it holds.
    pub open spec fn well_formed(&self) -> bool {
        &&& all_well_formed(self.effective_users())
        &&& distinct_names(self.effective_users())
    }

    /// Tells whether the configuration is well formed.
    pub fn is_well_formed(&self) -> (ok: bool)
        ensures
            ok == self.well_formed(),
    {
        let users = get_users(self);
        let ghost entries = self.effective_users();
        let mut i: usize = 0;
        while i < users.len()
            invariant
                i <= users.len(),
                entries == self.effective_users(),
                entries_of(users@) == entries,
                forall|k: int| 0 <= k < i ==> (#[trigger] entries[k]).well_formed(),
                forall|k: int| 0 <= k < i ==> #[trigger] name_is_new(entries, k),
            decreases users.len() - i,
        {
            assert(*users@[i as int] == entries[i as int]);
            if !users[i].is_well_formed() {
                return false;
            }
            if !has_new_name(&users, i) {
                return false;
            }
            i = i + 1;
        }
        true
    }
}

} // verus!
