//! Adding a secret: the entered fields are checked, a record is built with
//! the given identifier and creation time, and appended to its group.

use crate::secrets::{
    key_of, keys_of, lemma_lookup_by_id, removed_at, ApiKey, DbCredential, Note, Password, Record, Token,
    VaultData,
};
use crate::text::{trim_text, trimmed};
use vstd::prelude::*;

verus! {

/// The kind of a secret, and the group that holds it.
#[derive(Debug, Clone, Copy, PartialEq, Eq, Structural)]
pub enum AddType {
    Password,
    ApiKey,
    Note,
    DbCredential,
    Token,
}

/// The fields of a new secret as entered; optional ones are `None` when left empty.
#[derive(Debug)]
pub enum NewSecret {
    Password {
        name: String,
        password: String,
        description: Option<String>,
        username: Option<String>,
        url: Option<String>,
    },
    ApiKey { name: String, key: String, description: Option<String>, service: Option<String> },
    Note { name: String, content: String },
    DbCredential {
        name: String,
        description: Option<String>,
        db_type: Option<String>,
        host: String,
        port: Option<String>,
        database: String,
        username: String,
        password: String,
    },
    Token {
        name: String,
        token: String,
        description: Option<String>,
        token_type: Option<String>,
        expires_at: Option<i64>,
    },
}

impl NewSecret {
    /// The group that the new secret goes to.
    pub open spec fn kind(&self) -> AddType {
        match self {
            NewSecret::Password { .. } => AddType::Password,
            NewSecret::ApiKey { .. } => AddType::ApiKey,
            NewSecret::Note { .. } => AddType::Note,
            NewSecret::DbCredential { .. } => AddType::DbCredential,
            NewSecret::Token { .. } => AddType::Token,
        }
    }
}

/// A field that a secret of some kind must have.
#[derive(Debug, Clone, Copy, PartialEq, Eq, Structural)]
pub enum Field {
    Name,
    Password,
    Key,
    Content,
    Host,
    Database,
    Username,
    Token,
}

/// Why a secret was not added.
#[derive(Debug, Clone, Copy, PartialEq, Eq, Structural)]
pub enum AddError {
    /// A mandatory field is empty.
    Missing(Field),
    /// Another record already has the identifier.
    DuplicateId,
}

/// Every character is an ASCII digit.
pub open spec fn all_digits(s: Seq<char>) -> bool {
    forall|i: int| 0 <= i < s.len() ==> '0' <= #[trigger] s[i] <= '9'
}

/// The number that a string of decimal digits spells.
pub open spec fn digits_value(s: Seq<char>) -> int
    decreases s.len(),
{
    if s.len() == 0 {
        0
    } else {
        digits_value(s.drop_last()) * 10 + (s.last() as int - '0' as int)
    }
}

/// The digits of a port: the text without one leading `+`.
pub open spec fn port_digits(s: Seq<char>) -> Seq<char> {
    if s.len() > 0 && s[0] == '+' {
        s.drop_first()
    } else {
        s
    }
}

/// The port number that a text gives, as `u16`'s `FromStr` reads it: an
/// optional `+`, then one or more decimal digits, at most 65535.
pub open spec fn port_of(s: Seq<char>) -> Option<u16> {
    let d = port_digits(s);
    if d.len() > 0 && all_digits(d) && digits_value(d) <= 65535 {
        Some(digits_value(d) as u16)
    } else {
        None
    }
}

proof fn lemma_digits_grow(s: Seq<char>, i: int, j: int)
    requires
        all_digits(s),
        0 <= i <= j <= s.len(),
    ensures
        0 <= digits_value(s.subrange(0, i)) <= digits_value(s.subrange(0, j)),
    decreases j - i,
{
    if i < j {
        lemma_digits_grow(s, i, j - 1);
        assert(s.subrange(0, j).drop_last() =~= s.subrange(0, j - 1));
        assert('0' <= s[j - 1] <= '9');
    } else {
        lemma_digits_nonneg(s.subrange(0, i));
    }
}

proof fn lemma_digits_nonneg(s: Seq<char>)
    requires
        all_digits(s),
    ensures
        digits_value(s) >= 0,
    decreases s.len(),
{
    if s.len() > 0 {
        assert(all_digits(s.drop_last()));
        lemma_digits_nonneg(s.drop_last());
        assert('0' <= s[s.len() - 1] <= '9');
    }
}

/// Reads a port number the way `u16`'s `FromStr` does.
pub fn parse_port(text: &str) -> (r: Option<u16>)
    ensures
        r == port_of(text@),
{
    let len = text.unicode_len();
    let mut start: usize = 0;
    if len > 0 && text.get_char(0) == '+' {
        start = 1;
    }
    let ghost d = port_digits(text@);
    assert(d =~= text@.subrange(start as int, len as int));
    if start == len {
        return None;
    }
    let mut value: u32 = 0;
    let mut i: usize = start;
    while i < len
        invariant
            start <= i <= len,
            len == text@.len(),
            d == text@.subrange(start as int, len as int),
            d == port_digits(text@),
            all_digits(d.subrange(0, i - start)),
            value as int == digits_value(d.subrange(0, i - start)),
            value <= 65535,
        decreases len - i,
    {
        let c = text.get_char(i);
        if c < '0' || c > '9' {
            proof {
                assert(d[i - start] == c);
                assert(!all_digits(d));
            }
            return None;
        }
        let digit: u32 = (c as u32) - ('0' as u32);
        let next: u32 = value * 10 + digit;
        proof {
            let p = d.subrange(0, i + 1 - start);
            assert(p.drop_last() =~= d.subrange(0, i - start));
            assert(p.last() == c);
            assert(digits_value(p) == digits_value(d.subrange(0, i - start)) * 10 + (c as int
                - '0' as int));
            assert(next as int == digits_value(p));
            assert forall|j: int| 0 <= j < p.len() implies '0' <= #[trigger] p[j] <= '9' by {
                if j < p.len() - 1 {
                    assert(p[j] == d.subrange(0, i - start)[j]);
                }
            }
        }
        if next > 65535 {
            proof {
                if all_digits(d) {
                    lemma_digits_grow(d, i + 1 - start, d.len() as int);
                    assert(d.subrange(0, d.len() as int) =~= d);
                }
            }
            return None;
        }
        value = next;
        i = i + 1;
    }
    assert(d.subrange(0, len - start) =~= d);
    Some(value as u16)
}

/// The first mandatory field, in the order they are asked for, that is empty.
pub open spec fn missing_field(input: NewSecret) -> Option<Field> {
    match input {
        NewSecret::Password { name, password, .. } => if name@.len() == 0 {
            Some(Field::Name)
        } else if password@.len() == 0 {
            Some(Field::Password)
        } else {
            None
        },
        NewSecret::ApiKey { name, key, .. } => if name@.len() == 0 {
            Some(Field::Name)
        } else if key@.len() == 0 {
            Some(Field::Key)
        } else {
            None
        },
        NewSecret::Note { name, content } => if name@.len() == 0 {
            Some(Field::Name)
        } else if trimmed(content@).len() == 0 {
            Some(Field::Content)
        } else {
            None
        },
        NewSecret::DbCredential { name, host, database, username, password, .. } => if name@.len()
            == 0 {
            Some(Field::Name)
        } else if host@.len() == 0 {
            Some(Field::Host)
        } else if database@.len() == 0 {
            Some(Field::Database)
        } else if username@.len() == 0 {
            Some(Field::Username)
        } else if password@.len() == 0 {
            Some(Field::Password)
        } else {
            None
        },
        NewSecret::Token { name, token, .. } => if name@.len() == 0 {
            Some(Field::Name)
        } else if token@.len() == 0 {
            Some(Field::Token)
        } else {
            None
        },
    }
}

/// The port of an optional port text; one that does not read as a port is dropped.
pub open spec fn port_of_opt(port: Option<String>) -> Option<u16> {
    match port {
        Some(p) => port_of(p@),
        None => None,
    }
}

/// Every group but `k` is the same in `a` and `b`.
pub open spec fn others_same(a: VaultData, b: VaultData, k: AddType) -> bool {
    &&& k != AddType::Password ==> b.passwords@ == a.passwords@
    &&& k != AddType::ApiKey ==> b.api_keys@ == a.api_keys@
    &&& k != AddType::Note ==> b.notes@ == a.notes@
    &&& k != AddType::DbCredential ==> b.db_credentials@ == a.db_credentials@
    &&& k != AddType::Token ==> b.tokens@ == a.tokens@
}

/// `new` is `old` with the record built from `input`, `id` and `now`
/// appended to its group.
pub open spec fn added(old: VaultData, new: VaultData, input: NewSecret, id: String, now: i64) -> bool {
    &&& others_same(old, new, input.kind())
    &&& match input {
        NewSecret::Password { name, password, description, username, url } => new.passwords@
            == old.passwords@.push(
            Password { id, name, password, description, username, url, created_at: now },
        ),
        NewSecret::ApiKey { name, key, description, service } => new.api_keys@ == old.api_keys@.push(
            ApiKey { id, name, key, description, service, created_at: now },
        ),
        NewSecret::Note { name, content } => {
            &&& new.notes@.len() == old.notes@.len() + 1
            &&& new.notes@.drop_last() == old.notes@
            &&& new.notes@.last().id == id
            &&& new.notes@.last().name == name
            &&& new.notes@.last().content@ == trimmed(content@)
            &&& new.notes@.last().created_at == now
        },
        NewSecret::DbCredential {
            name,
            description,
            db_type,
            host,
            port,
            database,
            username,
            password,
        } => new.db_credentials@ == old.db_credentials@.push(
            DbCredential {
                id,
                name,
                host,
                port: port_of_opt(port),
                database,
                username,
                password,
                db_type,
                description,
                created_at: now,
            },
        ),
        NewSecret::Token { name, token, description, token_type, expires_at } => new.tokens@
            == old.tokens@.push(
            Token { id, name, token, description, token_type, expires_at, created_at: now },
        ),
    }
}

proof fn lemma_keys_push<T: Record>(s: Seq<T>, x: T, by_id: bool)
    ensures
        keys_of(s.push(x), by_id) == keys_of(s, by_id).push(key_of(x, by_id)),
{
    assert(keys_of(s.push(x), by_id) =~= keys_of(s, by_id).push(key_of(x, by_id)));
}

/// Appending a record with a new identifier keeps identifiers unique.
proof fn lemma_push_keeps_wf(old: VaultData, new: VaultData, k: AddType, id: Seq<char>)
    requires
        old.wf(),
        !old.has_id(id),
        new.keys(k, true) == old.keys(k, true).push(id),
        forall|k2: AddType| k2 != k ==> #[trigger] new.keys(k2, true) == old.keys(k2, true),
    ensures
        new.wf(),
{
    assert forall|k1: AddType, i1: int, k2: AddType, i2: int|
        0 <= i1 < new.group_len(k1) && 0 <= i2 < new.group_len(k2) && #[trigger] new.keys(
            k1,
            true,
        )[i1] == #[trigger] new.keys(k2, true)[i2] implies k1 == k2 && i1 == i2 by {
        let n = old.group_len(k);
        let fresh1 = k1 == k && i1 == n;
        let fresh2 = k2 == k && i2 == n;
        if !fresh1 {
            assert(new.keys(k1, true)[i1] == old.keys(k1, true)[i1]);
        }
        if !fresh2 {
            assert(new.keys(k2, true)[i2] == old.keys(k2, true)[i2]);
        }
        if fresh1 && !fresh2 {
            assert(old.keys(k2, true)[i2] == id);
        }
        if fresh2 && !fresh1 {
            assert(old.keys(k1, true)[i1] == id);
        }
    }
}

fn is_blank(s: &String) -> (r: bool)
    ensures
        r == (s@.len() == 0),
{
    s.as_str().is_empty()
}

/// Checks the entered fields of a new secret and appends the record, with
/// identifier `id` and creation time `now`, to its group.
///
/// Nothing changes when a mandatory field is empty or `id` is taken.
pub fn run(data: &mut VaultData, input: NewSecret, id: String, now: i64) -> (r: Result<
    AddType,
    AddError,
>)
    ensures
        match r {
            Ok(k) => {
                &&& k == input.kind()
                &&& missing_field(input) is None
                &&& !old(data).has_id(id@)
                &&& added(*old(data), *final(data), input, id, now)
                &&& old(data).wf() ==> final(data).wf()
            },
            Err(AddError::Missing(f)) => missing_field(input) == Some(f) && *final(data) == *old(
                data,
            ),
            Err(AddError::DuplicateId) => {
                &&& missing_field(input) is None
                &&& old(data).has_id(id@)
                &&& *final(data) == *old(data)
            },
        },
{
    let ghost before = *data;
    let ghost kind = input.kind();
    let ghost id_view = id@;
    let taken = data.contains_id(&id);
    let added_kind = match &input {
        NewSecret::Password { .. } => AddType::Password,
        NewSecret::ApiKey { .. } => AddType::ApiKey,
        NewSecret::Note { .. } => AddType::Note,
        NewSecret::DbCredential { .. } => AddType::DbCredential,
        NewSecret::Token { .. } => AddType::Token,
    };
    match input {
        NewSecret::Password { name, password, description, username, url } => {
            if is_blank(&name) {
                return Err(AddError::Missing(Field::Name));
            }
            if is_blank(&password) {
                return Err(AddError::Missing(Field::Password));
            }
            if taken {
                return Err(AddError::DuplicateId);
            }
            let rec = Password { id, name, password, description, username, url, created_at: now };
            proof {
                lemma_keys_push(before.passwords@, rec, true);
            }
            data.passwords.push(rec);
        },
        NewSecret::ApiKey { name, key, description, service } => {
            if is_blank(&name) {
                return Err(AddError::Missing(Field::Name));
            }
            if is_blank(&key) {
                return Err(AddError::Missing(Field::Key));
            }
            if taken {
                return Err(AddError::DuplicateId);
            }
            let rec = ApiKey { id, name, key, description, service, created_at: now };
            proof {
                lemma_keys_push(before.api_keys@, rec, true);
            }
            data.api_keys.push(rec);
        },
        NewSecret::Note { name, content } => {
            if is_blank(&name) {
                return Err(AddError::Missing(Field::Name));
            }
            let body = trim_text(content.as_str());
            if is_blank(&body) {
                return Err(AddError::Missing(Field::Content));
            }
            if taken {
                return Err(AddError::DuplicateId);
            }
            let rec = Note { id, name, content: body, created_at: now };
            proof {
                lemma_keys_push(before.notes@, rec, true);
            }
            data.notes.push(rec);
            assert(data.notes@.drop_last() =~= before.notes@);
        },
        NewSecret::DbCredential {
            name,
            description,
            db_type,
            host,
            port,
            database,
            username,
            password,
        } => {
            if is_blank(&name) {
                return Err(AddError::Missing(Field::Name));
            }
            if is_blank(&host) {
                return Err(AddError::Missing(Field::Host));
            }
            if is_blank(&database) {
                return Err(AddError::Missing(Field::Database));
            }
            if is_blank(&username) {
                return Err(AddError::Missing(Field::Username));
            }
            if is_blank(&password) {
                return Err(AddError::Missing(Field::Password));
            }
            if taken {
                return Err(AddError::DuplicateId);
            }
            let port_number = match &port {
                Some(p) => parse_port(p.as_str()),
                None => None,
            };
            let rec = DbCredential {
                id,
                name,
                host,
                port: port_number,
                database,
                username,
                password,
                db_type,
                description,
                created_at: now,
            };
            proof {
                lemma_keys_push(before.db_credentials@, rec, true);
            }
            data.db_credentials.push(rec);
        },
        NewSecret::Token { name, token, description, token_type, expires_at } => {
            if is_blank(&name) {
                return Err(AddError::Missing(Field::Name));
            }
            if is_blank(&token) {
                return Err(AddError::Missing(Field::Token));
            }
            if taken {
                return Err(AddError::DuplicateId);
            }
            let rec = Token { id, name, token, description, token_type, expires_at, created_at: now };
            proof {
                lemma_keys_push(before.tokens@, rec, true);
            }
            data.tokens.push(rec);
        },
    }
    proof {
        if before.wf() {
            lemma_push_keeps_wf(before, *data, kind, id_view);
        }
    }
    Ok(added_kind)
}

/// The collection after a successful `run` holds the new identifier at the
/// end of the new record's group, and still has unique identifiers.
proof fn lemma_added_keys(before: VaultData, with: VaultData, input: NewSecret, id: String, now: i64)
    requires
        before.wf(),
        !before.has_id(id@),
        added(before, with, input, id, now),
    ensures
        with.wf(),
        with.keys(input.kind(), true) == before.keys(input.kind(), true).push(id@),
        forall|k: AddType| k != input.kind() ==> #[trigger] with.keys(k, true) == before.keys(k, true),
{
    match input {
        NewSecret::Password { .. } => lemma_keys_push(before.passwords@, with.passwords@.last(), true),
        NewSecret::ApiKey { .. } => lemma_keys_push(before.api_keys@, with.api_keys@.last(), true),
        NewSecret::Note { .. } => {
            assert(with.notes@ =~= before.notes@.push(with.notes@.last()));
            lemma_keys_push(before.notes@, with.notes@.last(), true);
        },
        NewSecret::DbCredential { .. } => lemma_keys_push(
            before.db_credentials@,
            with.db_credentials@.last(),
            true,
        ),
        NewSecret::Token { .. } => lemma_keys_push(before.tokens@, with.tokens@.last(), true),
    }
    assert forall|k: AddType| k != input.kind() implies #[trigger] with.keys(k, true) == before.keys(
        k,
        true,
    ) by {
        match k {
            AddType::Password => {},
            AddType::ApiKey => {},
            AddType::Note => {},
            AddType::DbCredential => {},
            AddType::Token => {},
        }
    }
    lemma_push_keeps_wf(before, with, input.kind(), id@);
}

/// Deleting a record that was just added, by its identifier, gives back
/// the collection as it was before.
pub proof fn lemma_delete_undoes_add(
    before: VaultData,
    with: VaultData,
    after: VaultData,
    input: NewSecret,
    id: String,
    now: i64,
)
    requires
        before.wf(),
        !before.has_id(id@),
        added(before, with, input, id, now),
        with.lookup_spec(id@) matches Some(
            (k, i),
        ) && removed_at(with, after, k, i),
    ensures
        after.passwords@ == before.passwords@,
        after.api_keys@ == before.api_keys@,
        after.notes@ == before.notes@,
        after.db_credentials@ == before.db_credentials@,
        after.tokens@ == before.tokens@,
{
    lemma_added_keys(before, with, input, id, now);
    let k = input.kind();
    let n = before.group_len(k);
    assert(with.keys(k, true)[n] == id@);
    lemma_lookup_by_id(with, k, n);
    match input {
        NewSecret::Password { .. } => assert(with.passwords@.remove(n) =~= before.passwords@),
        NewSecret::ApiKey { .. } => assert(with.api_keys@.remove(n) =~= before.api_keys@),
        NewSecret::Note { .. } => assert(with.notes@.remove(n) =~= before.notes@),
        NewSecret::DbCredential { .. } => assert(with.db_credentials@.remove(n) =~= before.db_credentials@),
        NewSecret::Token { .. } => assert(with.tokens@.remove(n) =~= before.tokens@),
    }
}

} // verus!
