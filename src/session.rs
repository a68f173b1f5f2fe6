//! The session cache: a derived key kept across invocations for a limited
//! time, so that commands need not ask for the master password again.
//!
//! The session file's contents are modelled by `SessionStore`; reading and
//! writing the file itself is left to the caller. The cached key is combined
//! byte-wise with a machine key taken from the home directory and the user
//! name. That only keeps the key from casual reading: whoever can read the
//! session file can read the vault file as well.

use crate::encoding::{b64_decode, b64_decoded, b64_encode, b64_encoded};
use std::collections::hash_map::DefaultHasher;
use std::hash::Hasher;
use vstd::prelude::*;
use vstd::std_specs::hash::DefaultHasherAdditionalSpecFns;
use vstd::utf8::encode_utf8;

verus! {

/// Settings of the session cache.
#[derive(Debug, Clone, Copy, PartialEq, Eq, Structural)]
pub struct SessionConfig {
    /// Minutes that an unlocked session lasts; 0 asks for the password every time.
    pub timeout_minutes: u32,
}

/// Minutes that a session lasts unless configured otherwise.
pub const DEFAULT_TIMEOUT_MINUTES: u32 = 10;

impl Default for SessionConfig {
    fn default() -> (r: SessionConfig)
        ensures
            r.timeout_minutes == DEFAULT_TIMEOUT_MINUTES,
    {
        SessionConfig { timeout_minutes: DEFAULT_TIMEOUT_MINUTES }
    }
}

/// One cached session: the obfuscated key in base64 and its expiry, in
/// seconds since the Unix epoch.
#[derive(Debug)]
pub struct SessionData {
    pub key_data: String,
    pub expires_at: i64,
}

/// What a session file holds, seen as values.
pub struct SessionView {
    pub key_data: Seq<char>,
    pub expires_at: i64,
}

impl View for SessionData {
    type V = SessionView;

    open spec fn view(&self) -> SessionView {
        SessionView { key_data: self.key_data@, expires_at: self.expires_at }
    }
}

/// The contents of the session file: `None` when there is no file.
#[derive(Debug)]
pub struct SessionStore {
    pub record: Option<SessionData>,
}

impl View for SessionStore {
    type V = Option<SessionView>;

    open spec fn view(&self) -> Option<SessionView> {
        match self.record {
            Some(d) => Some(d@),
            None => None,
        }
    }
}

/// Fixed text mixed into the machine key.
pub const SESSION_TAG: &'static str = "kookie_session_v1";

/// The bytes that `Hash::hash` feeds a hasher for a string: its UTF-8 bytes,
/// then the byte 0xFF.
pub open spec fn str_hash_chunks(s: Seq<char>) -> Seq<Seq<u8>> {
    seq![encode_utf8(s), seq![0xffu8]]
}

/// Everything written to the hasher for the machine key.
pub open spec fn machine_hash_input(home: Option<Seq<char>>, user: Option<Seq<char>>) -> Seq<
    Seq<u8>,
> {
    let h = match home {
        Some(s) => str_hash_chunks(s),
        None => Seq::empty(),
    };
    let u = match user {
        Some(s) => str_hash_chunks(s),
        None => Seq::empty(),
    };
    h + u + str_hash_chunks(SESSION_TAG@)
}

/// Byte `j` (0 to 7) of a `u64` in little-endian order.
pub open spec fn le_byte(h: u64, j: int) -> u8 {
    ((h >> ((8 * j) as u64)) & 0xff) as u8
}

/// The 64-bit hash repeated four times, little-endian.
pub open spec fn spread_hash(h: u64) -> Seq<u8> {
    Seq::new(32, |i: int| le_byte(h, i % 8))
}

/// The machine key for a home directory and a user name, either of which may
/// be unknown.
pub open spec fn machine_key_spec(home: Option<Seq<char>>, user: Option<Seq<char>>) -> Seq<u8> {
    spread_hash(DefaultHasher::spec_finish(machine_hash_input(home, user)))
}

/// The view of an optional text.
pub open spec fn opt_view(s: Option<&str>) -> Option<Seq<char>> {
    match s {
        Some(t) => Some(t@),
        None => None,
    }
}

fn hash_str(hasher: &mut DefaultHasher, s: &str)
    ensures
        final(hasher)@ == old(hasher)@ + str_hash_chunks(s@),
{
    hasher.write(s.as_bytes());
    let tail: [u8; 1] = [0xff];
    assert(tail@ =~= seq![0xffu8]);
    hasher.write(tail.as_slice());
    assert(hasher@ =~= old(hasher)@ + str_hash_chunks(s@));
}

/// Derives the machine key from the home directory and the user name.
pub fn get_machine_key(home: Option<&str>, user: Option<&str>) -> (r: [u8; 32])
    ensures
        r@ == machine_key_spec(opt_view(home), opt_view(user)),
{
    let mut hasher = DefaultHasher::new();
    if let Some(h) = home {
        hash_str(&mut hasher, h);
    }
    if let Some(u) = user {
        hash_str(&mut hasher, u);
    }
    hash_str(&mut hasher, SESSION_TAG);
    assert(hasher@ =~= machine_hash_input(opt_view(home), opt_view(user)));
    let hash = hasher.finish();
    let mut key = [0u8; 32];
    let mut i: usize = 0;
    while i < 32
        invariant
            0 <= i <= 32,
            hash == DefaultHasher::spec_finish(machine_hash_input(opt_view(home), opt_view(user))),
            forall|j: int| 0 <= j < i ==> key@[j] == le_byte(hash, j % 8),
        decreases 32 - i,
    {
        let shift: u64 = 8 * ((i % 8) as u64);
        key[i] = ((hash >> shift) & 0xff) as u8;
        i = i + 1;
    }
    assert(key@ =~= spread_hash(hash));
    key
}

/// Byte-wise exclusive or of two 32-byte sequences.
pub open spec fn xor_bytes(a: Seq<u8>, b: Seq<u8>) -> Seq<u8> {
    Seq::new(32, |i: int| a[i] ^ b[i])
}

fn xor_key(a: &[u8], b: &[u8; 32]) -> (r: [u8; 32])
    requires
        a@.len() == 32,
    ensures
        r@ == xor_bytes(a@, b@),
{
    let mut out = [0u8; 32];
    let mut i: usize = 0;
    while i < 32
        invariant
            0 <= i <= 32,
            a@.len() == 32,
            forall|j: int| 0 <= j < i ==> out@[j] == a@[j] ^ b@[j],
        decreases 32 - i,
    {
        out[i] = a[i] ^ b[i];
        i = i + 1;
    }
    assert(out@ =~= xor_bytes(a@, b@));
    out
}

/// Combining twice with the same mask gives the key back.
proof fn lemma_xor_twice(k: Seq<u8>, m: Seq<u8>)
    requires
        k.len() == 32,
        m.len() == 32,
    ensures
        xor_bytes(xor_bytes(k, m), m) == k,
        xor_bytes(k, m).len() == 32,
{
    assert forall|i: int| 0 <= i < 32 implies #[trigger] xor_bytes(xor_bytes(k, m), m)[i] == k[i] by {
        let a = k[i];
        let b = m[i];
        assert((a ^ b) ^ b == a) by (bit_vector);
    }
    assert(xor_bytes(xor_bytes(k, m), m) =~= k);
}

/// When a session saved at `now` for `timeout_minutes` expires; the sum is
/// capped at the largest timestamp.
pub open spec fn expiry(now: i64, timeout_minutes: u32) -> i64 {
    if now + 60 * timeout_minutes > i64::MAX {
        i64::MAX
    } else {
        (now + 60 * timeout_minutes) as i64
    }
}

/// The session file after `save_session`.
pub open spec fn saved_session(
    old: Option<SessionView>,
    key: Seq<u8>,
    timeout_minutes: u32,
    now: i64,
    machine_key: Seq<u8>,
) -> Option<SessionView> {
    if timeout_minutes == 0 {
        old
    } else {
        Some(
            SessionView {
                key_data: b64_encoded(xor_bytes(key, machine_key)),
                expires_at: expiry(now, timeout_minutes),
            },
        )
    }
}

/// Saves a session for `key` that lasts `timeout_minutes` from `now`.
/// A timeout of 0 saves nothing.
pub fn save_session(
    store: &mut SessionStore,
    key: &[u8; 32],
    timeout_minutes: u32,
    now: i64,
    machine_key: &[u8; 32],
)
    ensures
        final(store)@ == saved_session(old(store)@, key@, timeout_minutes, now, machine_key@),
        timeout_minutes > 0 ==> (final(store)@ matches Some(d) && b64_decoded(d.key_data) == Some(
            xor_bytes(key@, machine_key@),
        )),
        timeout_minutes > 0 ==> forall|t: i64|
            t <= expiry(now, timeout_minutes) ==> #[trigger] cache_read(final(store)@, t, machine_key@)
                == (Some(key@), final(store)@),
{
    proof {
        lemma_xor_twice(key@, machine_key@);
    }
    if timeout_minutes == 0 {
        return;
    }
    let obfuscated = xor_key(key.as_slice(), machine_key);
    let delta: i64 = 60 * (timeout_minutes as i64);
    let expires_at: i64 = if now > i64::MAX - delta {
        i64::MAX
    } else {
        now + delta
    };
    let key_data = b64_encode(obfuscated.as_slice());
    store.record = Some(SessionData { key_data, expires_at });
}

/// The key that a session yields at time `now`, and the session file after
/// the read: an expired session is removed and yields nothing; one whose key
/// text is not 32 bytes of base64 yields nothing and stays.
pub open spec fn cache_read(stored: Option<SessionView>, now: i64, machine_key: Seq<u8>) -> (
    Option<Seq<u8>>,
    Option<SessionView>,
) {
    match stored {
        None => (None, None),
        Some(d) => if d.expires_at < now {
            (None, None)
        } else {
            match b64_decoded(d.key_data) {
                Some(bytes) => if bytes.len() == 32 {
                    (Some(xor_bytes(bytes, machine_key)), stored)
                } else {
                    (None, stored)
                },
                None => (None, stored),
            }
        },
    }
}

/// Returns the cached key if the session is still valid at `now`; removes
/// an expired session.
pub fn get_cached_key(store: &mut SessionStore, now: i64, machine_key: &[u8; 32]) -> (r: Option<
    [u8; 32],
>)
    ensures
        ({
            let (k, after) = cache_read(old(store)@, now, machine_key@);
            &&& final(store)@ == after
            &&& match r {
                Some(key) => k == Some(key@),
                None => k is None,
            }
        }),
{
    let expired = match &store.record {
        None => return None,
        Some(d) => d.expires_at < now,
    };
    if expired {
        store.record = None;
        return None;
    }
    let decoded = match &store.record {
        Some(d) => b64_decode(d.key_data.as_str()),
        None => return None,
    };
    match decoded {
        Ok(bytes) => {
            if bytes.len() != 32 {
                return None;
            }
            Some(xor_key(bytes.as_slice(), machine_key))
        },
        Err(_) => None,
    }
}

/// Removes the session.
pub fn clear_session(store: &mut SessionStore)
    ensures
        final(store)@ is None,
{
    store.record = None;
}

/// The session file after `refresh_session`.
pub open spec fn refreshed_session(
    stored: Option<SessionView>,
    timeout_minutes: u32,
    now: i64,
    machine_key: Seq<u8>,
) -> Option<SessionView> {
    let (k, after) = cache_read(stored, now, machine_key);
    match k {
        Some(key) => saved_session(after, key, timeout_minutes, now, machine_key),
        None => after,
    }
}

/// Slides a valid session's expiry forward: saves its key again with the
/// configured timeout, counted from `now`.
pub fn refresh_session(
    store: &mut SessionStore,
    timeout_minutes: u32,
    now: i64,
    machine_key: &[u8; 32],
)
    ensures
        final(store)@ == refreshed_session(old(store)@, timeout_minutes, now, machine_key@),
{
    if let Some(key) = get_cached_key(store, now, machine_key) {
        save_session(store, &key, timeout_minutes, now, machine_key);
    }
}

/// A session saved with a positive timeout is gone once its expiry has
/// passed: the next read yields no key and removes the session file.
pub proof fn lemma_expired_session_is_removed(
    stored: Option<SessionView>,
    key: Seq<u8>,
    timeout_minutes: u32,
    saved_at: i64,
    read_at: i64,
    machine_key: Seq<u8>,
)
    requires
        timeout_minutes > 0,
        read_at > expiry(saved_at, timeout_minutes),
    ensures
        cache_read(
            saved_session(stored, key, timeout_minutes, saved_at, machine_key),
            read_at,
            machine_key,
        ) == (None::<Seq<u8>>, None::<SessionView>),
{
}

} // verus!
