//! The key store: one key record per owner.

use crate::error::WalletError;
use vstd::prelude::*;

verus! {

/// The key record of one owner: the scheme it was made under and the key
/// material as hexadecimal text.
#[derive(Debug, PartialEq, Eq)]
pub struct User {
    /// Tag of the scheme the keys belong to.
    pub sig_scheme: String,
    /// The keypair, secret part included.
    pub keypair: String,
    /// The public key.
    pub pubkey: String,
}

/// A key record as plain values.
pub struct UserView {
    pub sig_scheme: Seq<char>,
    pub keypair: Seq<char>,
    pub pubkey: Seq<char>,
}

impl View for User {
    type V = UserView;

    open spec fn view(&self) -> UserView {
        UserView { sig_scheme: self.sig_scheme@, keypair: self.keypair@, pubkey: self.pubkey@ }
    }
}

impl Clone for User {
    fn clone(&self) -> (copy: Self)
        ensures
            copy@ == self@,
    {
        User {
            sig_scheme: self.sig_scheme.clone(),
            keypair: self.keypair.clone(),
            pubkey: self.pubkey.clone(),
        }
    }
}

/// A key record together with the owner it belongs to.
#[derive(Debug, PartialEq, Eq)]
pub struct UserInfo {
    /// The owner.
    pub username: String,
    /// Tag of the scheme the keys belong to.
    pub sig_scheme: String,
    /// The keypair, secret part included.
    pub keypair: String,
    /// The public key.
    pub pubkey: String,
}

impl UserInfo {
    /// The record without its owner.
    pub open spec fn record(&self) -> UserView {
        UserView { sig_scheme: self.sig_scheme@, keypair: self.keypair@, pubkey: self.pubkey@ }
    }

    /// Puts an owner's name on a record.
    pub fn new(username: String, user: User) -> (info: UserInfo)
        ensures
            info.username@ == username@,
            info.record() == user@,
    {
        UserInfo {
            username,
            sig_scheme: user.sig_scheme,
            keypair: user.keypair,
            pubkey: user.pubkey,
        }
    }

    /// Splits the owner's name from the record.
    pub fn into_parts(self) -> (parts: (String, User))
        ensures
            parts.0@ == self.username@,
            parts.1@ == self.record(),
    {
        (
            self.username,
            User { sig_scheme: self.sig_scheme, keypair: self.keypair, pubkey: self.pubkey },
        )
    }
}

impl Clone for UserInfo {
    fn clone(&self) -> (copy: Self)
        ensures
            copy.username@ == self.username@,
            copy.record() == self.record(),
    {
        UserInfo {
            username: self.username.clone(),
            sig_scheme: self.sig_scheme.clone(),
            keypair: self.keypair.clone(),
            pubkey: self.pubkey.clone(),
        }
    }
}

/// Whether one of the records belongs to `owner`.
spec fn holds(records: Seq<UserInfo>, owner: Seq<char>) -> bool {
    exists|i: int| 0 <= i < records.len() && #[trigger] records[i].username@ == owner
}

/// Where the record of `owner` stands.
spec fn place(records: Seq<UserInfo>, owner: Seq<char>) -> int {
    choose|i: int| 0 <= i < records.len() && #[trigger] records[i].username@ == owner
}

/// Whether no owner has two of the records.
spec fn distinct(records: Seq<UserInfo>) -> bool {
    forall|i: int, j: int|
        0 <= i < j < records.len() ==> #[trigger] records[i].username@
            != #[trigger] records[j].username@
}

/// The records by owner.
spec fn table(records: Seq<UserInfo>) -> Map<Seq<char>, UserView> {
    Map::new(
        |owner: Seq<char>| holds(records, owner),
        |owner: Seq<char>| records[place(records, owner)].record(),
    )
}

proof fn lemma_table_at(records: Seq<UserInfo>, i: int)
    requires
        distinct(records),
        0 <= i < records.len(),
    ensures
        table(records).contains_key(records[i].username@),
        table(records)[records[i].username@] == records[i].record(),
        place(records, records[i].username@) == i,
{
    let owner = records[i].username@;
    assert(holds(records, owner));
    let k = place(records, owner);
    assert(records[k].username@ == owner);
    if k < i {
        assert(records[k].username@ != records[i].username@);
    } else if i < k {
        assert(records[i].username@ != records[k].username@);
    }
}

proof fn lemma_table_push(records: Seq<UserInfo>, user: UserInfo)
    requires
        distinct(records),
        !holds(records, user.username@),
    ensures
        distinct(records.push(user)),
        table(records.push(user)) == table(records).insert(user.username@, user.record()),
{
    let more = records.push(user);
    assert forall|i: int, j: int| 0 <= i < j < more.len() implies #[trigger] more[i].username@
        != #[trigger] more[j].username@ by {
        if j < records.len() {
            assert(records[i].username@ != records[j].username@);
        } else {
            assert(records[i].username@ != user.username@);
        }
    }
    assert forall|owner: Seq<char>| #[trigger]
        table(more).contains_key(owner) == table(records).insert(
            user.username@,
            user.record(),
        ).contains_key(owner) by {
        if holds(more, owner) {
            let k = place(more, owner);
            if k < records.len() {
                assert(records[k].username@ == owner);
            }
        }
        if holds(records, owner) {
            let k = place(records, owner);
            assert(more[k].username@ == owner);
        }
        if owner == user.username@ {
            assert(more[records.len() as int].username@ == owner);
        }
    }
    assert forall|owner: Seq<char>| table(more).contains_key(owner) implies #[trigger] table(
        more,
    )[owner] == table(records).insert(user.username@, user.record())[owner] by {
        let k = place(more, owner);
        lemma_table_at(more, k);
        if k < records.len() {
            lemma_table_at(records, k);
        }
    }
    assert(table(more) =~= table(records).insert(user.username@, user.record()));
}

proof fn lemma_table_update(records: Seq<UserInfo>, i: int, user: UserInfo)
    requires
        distinct(records),
        0 <= i < records.len(),
        records[i].username@ == user.username@,
    ensures
        distinct(records.update(i, user)),
        table(records.update(i, user)) == table(records).insert(user.username@, user.record()),
{
    let next = records.update(i, user);
    assert forall|a: int, b: int| 0 <= a < b < next.len() implies #[trigger] next[a].username@
        != #[trigger] next[b].username@ by {
        assert(records[a].username@ != records[b].username@);
    }
    assert forall|owner: Seq<char>| #[trigger]
        table(next).contains_key(owner) == table(records).insert(
            user.username@,
            user.record(),
        ).contains_key(owner) by {
        if holds(next, owner) {
            let k = place(next, owner);
            assert(records[k].username@ == owner);
        }
        if holds(records, owner) {
            let k = place(records, owner);
            assert(next[k].username@ == owner);
        }
        if owner == user.username@ {
            assert(next[i].username@ == owner);
        }
    }
    assert forall|owner: Seq<char>| table(next).contains_key(owner) implies #[trigger] table(
        next,
    )[owner] == table(records).insert(user.username@, user.record())[owner] by {
        let k = place(next, owner);
        lemma_table_at(next, k);
        if k != i {
            lemma_table_at(records, k);
        }
    }
    assert(table(next) =~= table(records).insert(user.username@, user.record()));
}

proof fn lemma_table_remove(records: Seq<UserInfo>, i: int)
    requires
        distinct(records),
        0 <= i < records.len(),
    ensures
        distinct(records.remove(i)),
        table(records.remove(i)) == table(records).remove(records[i].username@),
{
    let gone = records[i].username@;
    let next = records.remove(i);
    assert forall|k: int| 0 <= k < next.len() implies #[trigger] next[k] == records[if k < i {
        k
    } else {
        k + 1
    }] by {}
    assert forall|a: int, b: int| 0 <= a < b < next.len() implies #[trigger] next[a].username@
        != #[trigger] next[b].username@ by {
        let a0 = if a < i { a } else { a + 1 };
        let b0 = if b < i { b } else { b + 1 };
        assert(next[a] == records[a0]);
        assert(next[b] == records[b0]);
        assert(records[a0].username@ != records[b0].username@);
    }
    assert forall|owner: Seq<char>| #[trigger]
        table(next).contains_key(owner) == table(records).remove(gone).contains_key(owner) by {
        if holds(next, owner) {
            let k = place(next, owner);
            let k0 = if k < i { k } else { k + 1 };
            assert(next[k] == records[k0]);
            assert(records[k0].username@ == owner);
            if owner == gone {
                if k0 < i {
                    assert(records[k0].username@ != records[i].username@);
                } else {
                    assert(records[i].username@ != records[k0].username@);
                }
            }
        }
        if holds(records, owner) && owner != gone {
            let k = place(records, owner);
            let k1 = if k < i { k } else { k - 1 };
            assert(next[k1] == records[k]);
            assert(next[k1].username@ == owner);
        }
    }
    assert forall|owner: Seq<char>| table(next).contains_key(owner) implies #[trigger] table(
        next,
    )[owner] == table(records).remove(gone)[owner] by {
        let k = place(next, owner);
        let k0 = if k < i { k } else { k + 1 };
        lemma_table_at(next, k);
        assert(next[k] == records[k0]);
        lemma_table_at(records, k0);
    }
    assert(table(next) =~= table(records).remove(gone));
}

/// The key store. It holds the records in the order in which their owners
/// came, and for no owner more than one.
pub struct UsersData {
    records: Vec<UserInfo>,
}

impl View for UsersData {
    type V = Map<Seq<char>, UserView>;

    closed spec fn view(&self) -> Map<Seq<char>, UserView> {
        table(self.records@)
    }
}

impl UsersData {
    #[verifier::type_invariant]
    closed spec fn one_record_per_owner(self) -> bool {
        distinct(self.records@)
    }

    /// A store without records.
    pub fn new() -> (users: Self)
        ensures
            users@ == Map::<Seq<char>, UserView>::empty(),
    {
        let users = UsersData { records: Vec::new() };
        assert(users@ =~= Map::<Seq<char>, UserView>::empty());
        users
    }

    fn position(&self, username: &str) -> (at: Option<usize>)
        ensures
            match at {
                Some(i) => i < self.records@.len() && self.records@[i as int].username@
                    == username@ && self@.contains_key(username@) && self@[username@]
                    == self.records@[i as int].record(),
                None => !holds(self.records@, username@) && !self@.contains_key(username@),
            },
    {
        proof {
            use_type_invariant(self);
        }
        let probe = username.to_owned();
        let mut i: usize = 0;
        while i < self.records.len()
            invariant
                i <= self.records@.len(),
                probe@ == username@,
                distinct(self.records@),
                forall|k: int| 0 <= k < i ==> #[trigger] self.records@[k].username@ != username@,
            decreases self.records@.len() - i,
        {
            if self.records[i].username == probe {
                proof {
                    lemma_table_at(self.records@, i as int);
                }
                return Some(i);
            }
            i += 1;
        }
        None
    }

    /// All records, in the order in which their owners came. Each owner
    /// that has a record stands in the list once.
    pub fn get_all(&self) -> (all: Vec<UserInfo>)
        ensures
            forall|i: int|
                0 <= i < all@.len() ==> self@.contains_key(#[trigger] all@[i].username@)
                    && self@[all@[i].username@] == all@[i].record(),
            forall|owner: Seq<char>|
                self@.contains_key(owner) ==> exists|i: int|
                    0 <= i < all@.len() && #[trigger] all@[i].username@ == owner,
            forall|i: int, j: int|
                0 <= i < j < all@.len() ==> #[trigger] all@[i].username@
                    != #[trigger] all@[j].username@,
    {
        proof {
            use_type_invariant(self);
        }
        let mut all: Vec<UserInfo> = Vec::new();
        let mut i: usize = 0;
        while i < self.records.len()
            invariant
                i <= self.records@.len(),
                all@.len() == i,
                forall|k: int|
                    0 <= k < i ==> #[trigger] all@[k].username@ == self.records@[k].username@
                        && all@[k].record() == self.records@[k].record(),
            decreases self.records@.len() - i,
        {
            all.push(self.records[i].clone());
            i += 1;
        }
        proof {
            assert forall|k: int| 0 <= k < all@.len() implies self@.contains_key(
                #[trigger] all@[k].username@,
            ) && self@[all@[k].username@] == all@[k].record() by {
                lemma_table_at(self.records@, k);
            }
            assert forall|owner: Seq<char>| self@.contains_key(owner) implies exists|k: int|
                0 <= k < all@.len() && #[trigger] all@[k].username@ == owner by {
                let k = place(self.records@, owner);
                assert(all@[k].username@ == owner);
            }
            assert forall|a: int, b: int| 0 <= a < b < all@.len() implies #[trigger] all@[a].username@
                != #[trigger] all@[b].username@ by {
                assert(self.records@[a].username@ != self.records@[b].username@);
            }
        }
        all
    }

    /// The record kept for `username`, if there is one. Nothing is created.
    pub fn get(&self, username: &str) -> (found: Option<UserInfo>)
        ensures
            match found {
                Some(info) => self@.contains_key(username@) && info.username@ == username@
                    && info.record() == self@[username@],
                None => !self@.contains_key(username@),
            },
    {
        match self.position(username) {
            Some(i) => Some(self.records[i].clone()),
            None => None,
        }
    }

    /// The record kept for `username`; `NotFound` where there is none.
    pub fn find(&self, username: &str) -> (found: Result<UserInfo, WalletError>)
        ensures
            match found {
                Ok(info) => self@.contains_key(username@) && info.username@ == username@
                    && info.record() == self@[username@],
                Err(e) => e == WalletError::NotFound && !self@.contains_key(username@),
            },
    {
        match self.get(username) {
            Some(info) => Ok(info),
            None => Err(WalletError::NotFound),
        }
    }

    /// Writes the record of an owner, over the one that is there if there is
    /// one. This is the only way to replace a record without naming it as a
    /// replacement.
    pub fn put(&mut self, user: UserInfo)
        ensures
            final(self)@ == old(self)@.insert(user.username@, user.record()),
    {
        proof {
            use_type_invariant(&*self);
        }
        let at = self.position(user.username.as_str());
        let mut records: Vec<UserInfo> = Vec::new();
        std::mem::swap(&mut self.records, &mut records);
        match at {
            Some(i) => {
                proof {
                    lemma_table_update(records@, i as int, user);
                }
                records.set(i, user);
            },
            None => {
                proof {
                    lemma_table_push(records@, user);
                }
                records.push(user);
            },
        }
        self.records = records;
    }

    /// Adds the record of an owner that has none. Where the owner has one
    /// already, nothing is written and `AlreadyExists` comes back.
    pub fn insert(&mut self, user: UserInfo) -> (done: Result<(), WalletError>)
        ensures
            match done {
                Ok(_) => !old(self)@.contains_key(user.username@) && final(self)@ == old(self)@.insert(user.username@, user.record()),
                Err(e) => e == WalletError::AlreadyExists && old(self)@.contains_key(
                    user.username@,
                ) && final(self)@ == old(self)@,
            },
    {
        match self.position(user.username.as_str()) {
            Some(_) => Err(WalletError::AlreadyExists),
            None => {
                self.put(user);
                Ok(())
            },
        }
    }

    /// Replaces the record of an owner that has one. Where the owner has
    /// none, nothing is written and `NotFound` comes back.
    pub fn update(&mut self, user: UserInfo) -> (done: Result<(), WalletError>)
        ensures
            match done {
                Ok(_) => old(self)@.contains_key(user.username@) && final(self)@ == old(self)@.insert(user.username@, user.record()),
                Err(e) => e == WalletError::NotFound && !old(self)@.contains_key(user.username@)
                    && final(self)@ == old(self)@,
            },
    {
        match self.position(user.username.as_str()) {
            Some(_) => {
                self.put(user);
                Ok(())
            },
            None => Err(WalletError::NotFound),
        }
    }

    /// Removes the record of an owner, if there is one. Always succeeds.
    pub fn delete(&mut self, username: &str) -> (done: Result<(), WalletError>)
        ensures
            done is Ok,
            final(self)@ == old(self)@.remove(username@),
    {
        proof {
            use_type_invariant(&*self);
        }
        match self.position(username) {
            Some(i) => {
                let mut records: Vec<UserInfo> = Vec::new();
                std::mem::swap(&mut self.records, &mut records);
                proof {
                    lemma_table_remove(records@, i as int);
                }
                records.remove(i);
                self.records = records;
            },
            None => {
                assert(self@ =~= self@.remove(username@));
            },
        }
        Ok(())
    }
}

impl User {
    /// The record kept for `username`; `NotFound` where there is none.
    pub fn find(users: &UsersData, username: &String) -> (found: Result<User, WalletError>)
        ensures
            match found {
                Ok(user) => users@.contains_key(username@) && user@ == users@[username@],
                Err(e) => e == WalletError::NotFound && !users@.contains_key(username@),
            },
    {
        match users.get(username.as_str()) {
            Some(info) => Ok(info.into_parts().1),
            None => Err(WalletError::NotFound),
        }
    }

    /// Keeps `user` as the record of `username` and hands it back.
    ///
    /// The first record of an owner stays: where the owner has one already,
    /// nothing is written and `AlreadyExists` comes back.
    pub fn insert(users: &mut UsersData, username: String, user: User) -> (kept: Result<
        User,
        WalletError,
    >)
        ensures
            match kept {
                Ok(same) => !old(users)@.contains_key(username@) && same@ == user@ && final(users)@ == old(users)@.insert(username@, user@),
                Err(e) => e == WalletError::AlreadyExists && old(users)@.contains_key(username@)
                    && final(users)@ == old(users)@,
            },
    {
        if users.get(username.as_str()).is_some() {
            Err(WalletError::AlreadyExists)
        } else {
            let copy = user.clone();
            users.put(UserInfo::new(username, user));
            Ok(copy)
        }
    }
}

} // verus!
