use vstd::prelude::*;
use vstd::string::StringSliceAdditionalSpecFns;
use crate::config::SecurityConfig;
use crate::error::{message3, SnaptoError};

verus! {

/// Name under which the system store keeps the list of known keys.
pub const KEYS_INDEX: &'static str = "__snapto_keys__";

/// Length of an AES-GCM nonce, in bytes.
pub const NONCE_SIZE: usize = 12;

/// Longest master secret, in characters, that Argon2 is given (its limit
/// is 2^32 - 1 bytes, and a character takes at most four).
pub const MAX_SECRET_CHARS: u64 = 0x3FFF_FFFF;

/// Longest plaintext AES-GCM encrypts, in bytes.
pub const MAX_PLAINTEXT: u64 = 0x10_0000_0000;

/// Length of a fresh Argon2 salt, in bytes (before base64).
pub const SALT_SIZE: usize = 16;

/// Key derived by Argon2 (default parameters) from a password and a base64 salt.
pub uninterp spec fn argon2_key(password: Seq<char>, salt: Seq<char>) -> Seq<u8>;

/// Whether argon2 accepts a salt: `SaltString::from_b64` reads it and it
/// decodes to at least 8 bytes.
pub uninterp spec fn argon2_salt_ok(salt: Seq<char>) -> bool;

/// Whether bytes are valid UTF-8.
pub uninterp spec fn utf8_valid(bytes: Seq<u8>) -> bool;

/// AES-256-GCM ciphertext (with tag) of a plaintext under a key and nonce.
pub uninterp spec fn aead_seal(key: Seq<u8>, nonce: Seq<u8>, plaintext: Seq<u8>) -> Seq<u8>;

/// AES-256-GCM decryption of a ciphertext; `None` when authentication fails.
pub uninterp spec fn aead_open(key: Seq<u8>, nonce: Seq<u8>, ciphertext: Seq<u8>) -> Option<Seq<u8>>;

/// serde_json's text of a string-to-string object, as UTF-8 bytes.
pub uninterp spec fn json_of_map(m: Map<Seq<char>, Seq<char>>) -> Seq<u8>;

/// The string-to-string object that serde_json reads from bytes, if any.
pub uninterp spec fn map_of_json(bytes: Seq<u8>) -> Option<Map<Seq<char>, Seq<char>>>;

/// The text whose UTF-8 encoding is `bytes`.
pub uninterp spec fn utf8_text(bytes: Seq<u8>) -> Seq<char>;

/// serde_json's text of a list of strings.
pub uninterp spec fn json_of_list(items: Seq<Seq<char>>) -> Seq<char>;

/// The list of strings that serde_json reads from a text, if any.
pub uninterp spec fn list_of_json(text: Seq<char>) -> Option<Seq<Seq<char>>>;

/// No key occurs twice.
pub open spec fn pairs_unique(s: Seq<(String, String)>) -> bool {
    forall|i: int, j: int| 0 <= i < j < s.len() ==> s[i].0@ != s[j].0@
}

/// The mapping that a list of key/value pairs stands for.
pub open spec fn pairs_map(s: Seq<(String, String)>) -> Map<Seq<char>, Seq<char>>
    decreases s.len(),
{
    if s.len() == 0 {
        Map::empty()
    } else {
        pairs_map(s.drop_last()).insert(s.last().0@, s.last().1@)
    }
}

proof fn lemma_pairs_absent(s: Seq<(String, String)>, k: Seq<char>)
    requires
        forall|i: int| 0 <= i < s.len() ==> s[i].0@ != k,
    ensures
        !pairs_map(s).contains_key(k),
    decreases s.len(),
{
    if s.len() > 0 {
        lemma_pairs_absent(s.drop_last(), k);
    }
}

proof fn lemma_pairs_index(s: Seq<(String, String)>, i: int)
    requires
        pairs_unique(s),
        0 <= i < s.len(),
    ensures
        pairs_map(s).contains_key(s[i].0@),
        pairs_map(s)[s[i].0@] == s[i].1@,
    decreases s.len(),
{
    if i < s.len() - 1 {
        lemma_pairs_index(s.drop_last(), i);
    }
}

proof fn lemma_pairs_domain(s: Seq<(String, String)>, k: Seq<char>)
    requires
        pairs_map(s).contains_key(k),
    ensures
        exists|i: int| 0 <= i < s.len() && s[i].0@ == k,
    decreases s.len(),
{
    if s.len() > 0 && s.last().0@ != k {
        lemma_pairs_domain(s.drop_last(), k);
        let i = choose|i: int| 0 <= i < s.drop_last().len() && s.drop_last()[i].0@ == k;
        assert(s[i].0@ == k);
    }
}

proof fn lemma_pairs_update(s: Seq<(String, String)>, i: int, p: (String, String))
    requires
        pairs_unique(s),
        0 <= i < s.len(),
        p.0@ == s[i].0@,
    ensures
        pairs_map(s.update(i, p)) == pairs_map(s).insert(p.0@, p.1@),
    decreases s.len(),
{
    let t = s.update(i, p);
    if i == s.len() - 1 {
        assert(t.drop_last() =~= s.drop_last());
        assert(pairs_map(t) =~= pairs_map(s).insert(p.0@, p.1@));
    } else {
        assert(t.drop_last() =~= s.drop_last().update(i, p));
        lemma_pairs_update(s.drop_last(), i, p);
        assert(pairs_map(t) =~= pairs_map(s).insert(p.0@, p.1@));
    }
}

proof fn lemma_pairs_remove(s: Seq<(String, String)>, i: int)
    requires
        pairs_unique(s),
        0 <= i < s.len(),
    ensures
        pairs_map(s.remove(i)) == pairs_map(s).remove(s[i].0@),
    decreases s.len(),
{
    let k = s[i].0@;
    let t = s.remove(i);
    if i == s.len() - 1 {
        assert(t =~= s.drop_last());
        assert forall|j: int| 0 <= j < s.drop_last().len() implies s.drop_last()[j].0@ != k by {
            assert(s[j].0@ != s[i].0@);
        }
        lemma_pairs_absent(s.drop_last(), k);
        assert(pairs_map(t) =~= pairs_map(s).remove(k));
    } else {
        assert(t.drop_last() =~= s.drop_last().remove(i));
        assert(t.last() == s.last());
        lemma_pairs_remove(s.drop_last(), i);
        assert(s.last().0@ != k);
        assert(pairs_map(t) =~= pairs_map(s).remove(k));
    }
}

/// The secrets of one vault: a mapping from key to value, kept as pairs in
/// insertion order with no key twice.
#[derive(Debug, Clone)]
pub struct CredentialMap {
    entries: Vec<(String, String)>,
}

impl View for CredentialMap {
    type V = Map<Seq<char>, Seq<char>>;

    closed spec fn view(&self) -> Map<Seq<char>, Seq<char>> {
        pairs_map(self.entries@)
    }
}

impl CredentialMap {
    /// Keys are unique.
    pub closed spec fn wf(&self) -> bool {
        pairs_unique(self.entries@)
    }

    pub fn new() -> (r: Self)
        ensures
            r.wf(),
            r@ == Map::<Seq<char>, Seq<char>>::empty(),
    {
        CredentialMap { entries: Vec::new() }
    }

    /// Builds a map from pairs whose keys are unique.
    pub fn from_pairs(entries: Vec<(String, String)>) -> (r: Self)
        requires
            pairs_unique(entries@),
        ensures
            r.wf(),
            r@ == pairs_map(entries@),
    {
        CredentialMap { entries }
    }

    /// The pairs, in insertion order.
    pub fn pairs(&self) -> (r: &Vec<(String, String)>)
        requires
            self.wf(),
        ensures
            pairs_unique(r@),
            pairs_map(r@) == self@,
    {
        &self.entries
    }

    fn position(&self, key: &str) -> (r: Option<usize>)
        requires
            self.wf(),
        ensures
            r matches Some(i) ==> i < self.entries@.len() && self.entries@[i as int].0@ == key@,
            r is None ==> forall|j: int| 0 <= j < self.entries@.len() ==> self.entries@[j].0@ != key@,
    {
        let k = String::from_str(key);
        let mut i: usize = 0;
        while i < self.entries.len()
            invariant
                i <= self.entries@.len(),
                k@ == key@,
                forall|j: int| 0 <= j < i ==> self.entries@[j].0@ != key@,
            decreases self.entries@.len() - i,
        {
            if self.entries[i].0 == k {
                return Some(i);
            }
            i = i + 1;
        }
        None
    }

    /// The value stored under `key`.
    pub fn get(&self, key: &str) -> (r: Option<String>)
        requires
            self.wf(),
        ensures
            r is Some <==> self@.contains_key(key@),
            r matches Some(v) ==> v@ == self@[key@],
    {
        match self.position(key) {
            Some(i) => {
                proof { lemma_pairs_index(self.entries@, i as int); }
                Some(self.entries[i].1.clone())
            }
            None => {
                proof { lemma_pairs_absent(self.entries@, key@); }
                None
            }
        }
    }

    /// Stores `value` under `key`, replacing any earlier value.
    pub fn insert(&mut self, key: &str, value: &str)
        requires
            old(self).wf(),
        ensures
            final(self).wf(),
            final(self)@ == old(self)@.insert(key@, value@),
    {
        let p = (String::from_str(key), String::from_str(value));
        match self.position(key) {
            Some(i) => {
                proof { lemma_pairs_update(self.entries@, i as int, p); }
                self.entries.set(i, p);
                proof {
                    assert forall|a: int, b: int| 0 <= a < b < self.entries@.len()
                        implies self.entries@[a].0@ != self.entries@[b].0@ by {
                        assert(old(self).entries@[a].0@ != old(self).entries@[b].0@);
                    }
                }
            }
            None => {
                self.entries.push(p);
                proof {
                    assert(self.entries@.drop_last() =~= old(self).entries@);
                }
            }
        }
    }

    /// Removes `key` and its value, if present.
    pub fn remove(&mut self, key: &str)
        requires
            old(self).wf(),
        ensures
            final(self).wf(),
            final(self)@ == old(self)@.remove(key@),
    {
        match self.position(key) {
            Some(i) => {
                proof { lemma_pairs_remove(self.entries@, i as int); }
                self.entries.remove(i);
                proof {
                    assert forall|a: int, b: int| 0 <= a < b < self.entries@.len()
                        implies self.entries@[a].0@ != self.entries@[b].0@ by {
                        if a >= i as int {
                            assert(old(self).entries@[a + 1].0@ != old(self).entries@[b + 1].0@);
                        } else if b >= i as int {
                            assert(old(self).entries@[a].0@ != old(self).entries@[b + 1].0@);
                        } else {
                            assert(old(self).entries@[a].0@ != old(self).entries@[b].0@);
                        }
                    }
                }
            }
            None => {
                proof {
                    lemma_pairs_absent(self.entries@, key@);
                    assert(old(self)@.remove(key@) =~= old(self)@);
                }
            }
        }
    }

    /// Every key, once each, in insertion order.
    pub fn keys(&self) -> (r: Vec<String>)
        requires
            self.wf(),
        ensures
            r@.len() == self@.len(),
            forall|k: Seq<char>| self@.contains_key(k) <==> exists|i: int| 0 <= i < r@.len() && (#[trigger] r@[i])@ == k,
    {
        let mut r: Vec<String> = Vec::new();
        let mut i: usize = 0;
        while i < self.entries.len()
            invariant
                i <= self.entries@.len(),
                r@.len() == i,
                forall|j: int| 0 <= j < i ==> (#[trigger] r@[j])@ == self.entries@[j].0@,
            decreases self.entries@.len() - i,
        {
            r.push(self.entries[i].0.clone());
            i = i + 1;
        }
        proof {
            self.lemma_len();
            assert forall|k: Seq<char>| self@.contains_key(k) implies exists|i: int| 0 <= i < r@.len() && (#[trigger] r@[i])@ == k by {
                lemma_pairs_domain(self.entries@, k);
                let j = choose|j: int| 0 <= j < self.entries@.len() && self.entries@[j].0@ == k;
                assert(r@[j]@ == k);
            }
            assert forall|k: Seq<char>| (exists|i: int| 0 <= i < r@.len() && (#[trigger] r@[i])@ == k) implies self@.contains_key(k) by {
                let j = choose|j: int| 0 <= j < r@.len() && (#[trigger] r@[j])@ == k;
                lemma_pairs_index(self.entries@, j);
            }
        }
        r
    }

    pub fn len(&self) -> (r: usize)
        requires
            self.wf(),
        ensures
            r == self@.len(),
    {
        proof { self.lemma_len(); }
        self.entries.len()
    }

    proof fn lemma_len(&self)
        requires
            self.wf(),
        ensures
            self@.len() == self.entries@.len(),
    {
        lemma_pairs_len(self.entries@);
    }
}

proof fn lemma_pairs_len(s: Seq<(String, String)>)
    requires
        pairs_unique(s),
    ensures
        pairs_map(s).dom().finite(),
        pairs_map(s).len() == s.len(),
    decreases s.len(),
{
    if s.len() > 0 {
        lemma_pairs_len(s.drop_last());
        assert forall|j: int| 0 <= j < s.drop_last().len() implies s.drop_last()[j].0@ != s.last().0@ by {
            assert(s[j].0@ != s[s.len() - 1].0@);
        }
        lemma_pairs_absent(s.drop_last(), s.last().0@);
    }
}

/// The views of a list of texts.
pub open spec fn texts_view(v: Seq<String>) -> Seq<Seq<char>> {
    v.map_values(|s: String| s@)
}

/// Relies on argon2: `SaltString::from_b64` reads the salt and
/// `Argon2::default().hash_password` derives the key, 32 bytes with the
/// default parameters. With a password under 2^32 bytes it fails only on
/// the salt.
#[verifier::external_body]
fn argon2_derive(password: &str, salt: &str) -> (r: Result<Vec<u8>, String>)
    requires
        password@.len() <= MAX_SECRET_CHARS,
    ensures
        r is Ok <==> argon2_salt_ok(salt@),
        r matches Ok(k) ==> k@ == argon2_key(password@, salt@) && k@.len() == 32,
{
    let salt = argon2::password_hash::SaltString::from_b64(salt).map_err(|e| e.to_string())?;
    let argon = argon2::Argon2::default();
    let hash = argon2::PasswordHasher::hash_password(&argon, password.as_bytes(), &salt)
        .map_err(|e| e.to_string())?;
    hash.hash.map(|h| h.as_bytes().to_vec()).ok_or_else(|| String::from("no hash produced"))
}

/// Relies on aes_gcm: `Aes256Gcm::new_from_slice` and `Aead::encrypt`; the
/// ciphertext decrypts to the plaintext under the same key and nonce.
/// `Nonce::from_slice` panics unless the nonce has twelve bytes.
#[verifier::external_body]
fn aes_seal(key: &Vec<u8>, nonce: &Vec<u8>, plaintext: &[u8]) -> (r: Result<Vec<u8>, String>)
    requires
        nonce@.len() == NONCE_SIZE,
    ensures
        r matches Ok(c) ==> c@ == aead_seal(key@, nonce@, plaintext@)
            && aead_open(key@, nonce@, c@) == Some(plaintext@),
        key@.len() == 32 && plaintext@.len() <= MAX_PLAINTEXT ==> r is Ok,
{
    let cipher = <aes_gcm::Aes256Gcm as aes_gcm::KeyInit>::new_from_slice(key).map_err(|e| e.to_string())?;
    aes_gcm::aead::Aead::encrypt(&cipher, aes_gcm::Nonce::from_slice(nonce), plaintext)
        .map_err(|e| e.to_string())
}

/// Relies on aes_gcm: `Aes256Gcm::new_from_slice` and `Aead::decrypt`, which
/// fails on a ciphertext that does not authenticate.
/// `Nonce::from_slice` panics unless the nonce has twelve bytes.
#[verifier::external_body]
fn aes_open(key: &Vec<u8>, nonce: &Vec<u8>, ciphertext: &Vec<u8>) -> (r: Result<Vec<u8>, String>)
    requires
        nonce@.len() == NONCE_SIZE,
    ensures
        r matches Ok(p) ==> aead_open(key@, nonce@, ciphertext@) == Some(p@),
        key@.len() == 32 && aead_open(key@, nonce@, ciphertext@) is Some ==> r is Ok,
{
    let cipher = <aes_gcm::Aes256Gcm as aes_gcm::KeyInit>::new_from_slice(key).map_err(|e| e.to_string())?;
    aes_gcm::aead::Aead::decrypt(&cipher, aes_gcm::Nonce::from_slice(nonce), ciphertext.as_slice())
        .map_err(|e| e.to_string())
}

/// Relies on `String::from_utf8`: the text, when the bytes are valid UTF-8.
#[verifier::external_body]
fn text_from_utf8(bytes: Vec<u8>) -> (r: Option<String>)
    ensures
        r is Some <==> utf8_valid(bytes@),
        r matches Some(s) ==> s@ == utf8_text(bytes@),
{
    String::from_utf8(bytes).ok()
}

/// Relies on serde_json::to_vec over a `BTreeMap`: the JSON object of the
/// pairs, which serde_json reads back as the same mapping.
#[verifier::external_body]
fn json_encode_map(entries: &Vec<(String, String)>) -> (r: Vec<u8>)
    requires
        pairs_unique(entries@),
    ensures
        r@ == json_of_map(pairs_map(entries@)),
        map_of_json(r@) == Some(pairs_map(entries@)),
{
    let m: std::collections::BTreeMap<&String, &String> = entries.iter().map(|(k, v)| (k, v)).collect();
    serde_json::to_vec(&m).unwrap_or_default()
}

/// Relies on serde_json::from_slice into a `BTreeMap`, whose keys are unique.
#[verifier::external_body]
fn json_decode_map(bytes: &Vec<u8>) -> (r: Option<Vec<(String, String)>>)
    ensures
        r is Some <==> map_of_json(bytes@) is Some,
        r matches Some(v) ==> pairs_unique(v@) && map_of_json(bytes@) == Some(pairs_map(v@)),
{
    serde_json::from_slice::<std::collections::BTreeMap<String, String>>(bytes)
        .ok()
        .map(|m| m.into_iter().collect())
}

/// Relies on serde_json::to_string over a list of strings, which cannot fail.
#[verifier::external_body]
fn json_encode_list(items: &Vec<String>) -> (r: String)
    ensures
        r@ == json_of_list(texts_view(items@)),
{
    serde_json::to_string(items).unwrap_or_default()
}

/// Relies on serde_json::from_str into a list of strings.
#[verifier::external_body]
fn json_decode_list(text: &str) -> (r: Option<Vec<String>>)
    ensures
        r is Some <==> list_of_json(text@) is Some,
        r matches Some(v) ==> list_of_json(text@) == Some(texts_view(v@)),
{
    serde_json::from_str::<Vec<String>>(text).ok()
}

/// Relies on argon2's `SaltString::encode_b64`: the unpadded base64 text of
/// the bytes, or `None` when it would not fit a salt. Sixteen bytes give 22
/// characters, which argon2 reads back as a 16-byte salt.
#[verifier::external_body]
fn salt_from_bytes(bytes: &Vec<u8>) -> (r: Option<String>)
    ensures
        r is None ==> bytes@.len() != SALT_SIZE,
        r matches Some(s) ==> (bytes@.len() == SALT_SIZE ==> argon2_salt_ok(s@)),
{
    argon2::password_hash::SaltString::encode_b64(bytes).ok().map(|s| s.as_str().to_string())
}

/// Relies on `RngCore::try_fill_bytes` of the OS random source: `len`
/// random bytes, or `None` when the source fails.
#[verifier::external_body]
pub(crate) fn fresh_bytes(len: usize) -> (r: Option<Vec<u8>>)
    ensures
        r matches Some(b) ==> b@.len() == len,
{
    let mut bytes = vec![0u8; len];
    match argon2::password_hash::rand_core::RngCore::try_fill_bytes(&mut aes_gcm::aead::OsRng, &mut bytes) {
        Ok(()) => Some(bytes),
        Err(_) => None,
    }
}

/// Relies on keyring's `Entry::new` and `Entry::set_password`. What the
/// system store does is outside this process; nothing is stated of it.
#[verifier::external_body]
fn keyring_set(service: &str, key: &str, value: &str) -> (r: Result<(), String>)
{
    let entry = keyring::Entry::new(service, key).map_err(|e| e.to_string())?;
    entry.set_password(value).map_err(|e| e.to_string())
}

/// Relies on keyring's `Entry::new` and `Entry::get_password`; a missing
/// entry (`Error::NoEntry`) is `Ok(None)`.
#[verifier::external_body]
fn keyring_get(service: &str, key: &str) -> (r: Result<Option<String>, String>)
{
    let entry = keyring::Entry::new(service, key).map_err(|e| e.to_string())?;
    match entry.get_password() {
        Ok(p) => Ok(Some(p)),
        Err(keyring::Error::NoEntry) => Ok(None),
        Err(e) => Err(e.to_string()),
    }
}

/// Relies on keyring's `Entry::new` and `Entry::delete_credential`;
/// `Ok(false)` when there was no entry (`Error::NoEntry`).
#[verifier::external_body]
fn keyring_delete(service: &str, key: &str) -> (r: Result<bool, String>)
{
    let entry = keyring::Entry::new(service, key).map_err(|e| e.to_string())?;
    match entry.delete_credential() {
        Ok(()) => Ok(true),
        Err(keyring::Error::NoEntry) => Ok(false),
        Err(e) => Err(e.to_string()),
    }
}

/// Service name under which the system store keeps this tool's secrets.
pub const SERVICE_NAME: &'static str = "snapto";

/// The value of `k` in `m`, if any.
pub open spec fn lookup(m: Map<Seq<char>, Seq<char>>, k: Seq<char>) -> Option<Seq<char>> {
    if m.contains_key(k) {
        Some(m[k])
    } else {
        None
    }
}

/// The list of known keys after recording that `key` was stored (`add`) or removed.
pub open spec fn keys_after(keys: Seq<Seq<char>>, key: Seq<char>, add: bool) -> Seq<Seq<char>> {
    if add {
        if keys.contains(key) {
            keys
        } else {
            keys.push(key)
        }
    } else {
        without(keys, key)
    }
}

/// `keys` with every occurrence of `key` taken out, order kept.
pub open spec fn without(keys: Seq<Seq<char>>, key: Seq<char>) -> Seq<Seq<char>>
    decreases keys.len(),
{
    if keys.len() == 0 {
        keys
    } else if keys.last() == key {
        without(keys.drop_last(), key)
    } else {
        without(keys.drop_last(), key).push(keys.last())
    }
}

/// The list of known keys after recording that `key` was stored or removed.
pub fn updated_keys(keys: Vec<String>, key: &str, add: bool) -> (r: Vec<String>)
    ensures
        texts_view(r@) == keys_after(texts_view(keys@), key@, add),
{
    let k = String::from_str(key);
    let ghost kv = texts_view(keys@);
    if add {
        let mut i: usize = 0;
        while i < keys.len()
            invariant
                add,
                i <= keys@.len(),
                k@ == key@,
                kv == texts_view(keys@),
                forall|j: int| 0 <= j < i ==> keys@[j]@ != key@,
            decreases keys@.len() - i,
        {
            let same = keys[i] == k;
            if same {
                proof {
                    assert(kv[i as int] == keys@[i as int]@);
                    assert(kv[i as int] == key@);
                    assert(kv.contains(key@));
                }
                return keys;
            }
            i = i + 1;
        }
        proof {
            assert(!kv.contains(key@)) by {
                if kv.contains(key@) {
                    let j = choose|j: int| 0 <= j < kv.len() && kv[j] == key@;
                    assert(keys@[j]@ == key@);
                }
            }
        }
        let mut r = keys;
        r.push(k);
        proof {
            assert(texts_view(r@) =~= kv.push(key@));
        }
        r
    } else {
        let mut r: Vec<String> = Vec::new();
        let mut i: usize = 0;
        while i < keys.len()
            invariant
                i <= keys@.len(),
                k@ == key@,
                kv == texts_view(keys@),
                texts_view(r@) == without(kv.subrange(0, i as int), key@),
            decreases keys@.len() - i,
        {
            let ghost before = r@;
            proof {
                assert(kv.subrange(0, i + 1).drop_last() =~= kv.subrange(0, i as int));
                assert(kv.subrange(0, i + 1).last() == kv[i as int]);
                assert(kv[i as int] == keys@[i as int]@);
            }
            let same = keys[i] == k;
            if !same {
                r.push(keys[i].clone());
                proof {
                    assert(kv[i as int] != key@);
                    assert(texts_view(r@) =~= texts_view(before).push(kv[i as int]));
                }
            } else {
                proof {
                    assert(kv[i as int] == key@);
                }
            }
            i = i + 1;
        }
        proof {
            assert(kv.subrange(0, keys@.len() as int) =~= kv);
        }
        r
    }
}

/// Key, nonce and ciphertext of the encrypted credentials file. `salt` is
/// base64 text, and the ciphertext decrypts to the JSON object of all secrets.
#[derive(Debug, Clone)]
pub struct EncryptedStore {
    pub salt: String,
    pub nonce: Vec<u8>,
    pub data: Vec<u8>,
}

/// `s` holds `m` encrypted under a key derived from `master`.
pub open spec fn seals(master: Seq<char>, s: EncryptedStore, m: Map<Seq<char>, Seq<char>>) -> bool {
    &&& s.nonce@.len() == NONCE_SIZE
    &&& s.data@ == aead_seal(argon2_key(master, s.salt@), s.nonce@, json_of_map(m))
}

/// The secrets that a stored file holds under `master`, or `None` when it
/// does not decrypt and parse. No file holds no secrets.
pub open spec fn store_contents(master: Seq<char>, stored: Option<EncryptedStore>) -> Option<Map<Seq<char>, Seq<char>>> {
    match stored {
        None => Some(Map::empty()),
        Some(s) => if s.nonce@.len() != NONCE_SIZE || !argon2_salt_ok(s.salt@) || master.len() > MAX_SECRET_CHARS {
            None
        } else {
            match aead_open(argon2_key(master, s.salt@), s.nonce@, s.data@) {
                Some(p) => map_of_json(p),
                None => None,
            }
        },
    }
}

/// The ciphertext decrypts: the nonce has twelve bytes, the master secret
/// and salt are accepted by Argon2, and the ciphertext authenticates.
pub open spec fn opens(master: Seq<char>, salt: Seq<char>, nonce: Seq<u8>, data: Seq<u8>) -> bool {
    &&& nonce.len() == NONCE_SIZE
    &&& master.len() <= MAX_SECRET_CHARS
    &&& argon2_salt_ok(salt)
    &&& aead_open(argon2_key(master, salt), nonce, data) is Some
}

/// `m` can be sealed under `master`: Argon2 accepts the secret and the
/// JSON text of `m` fits AES-GCM.
pub open spec fn sealable(master: Seq<char>, m: Map<Seq<char>, Seq<char>>) -> bool {
    master.len() <= MAX_SECRET_CHARS && json_of_map(m).len() <= MAX_PLAINTEXT
}

/// Whether an error is a vault failure.
pub open spec fn is_vault_error(e: SnaptoError) -> bool {
    e is Keychain || e is Encryption
}

/// Stores and retrieves secrets, either in the system's secret store or in an
/// AES-256-GCM encrypted file keyed by an Argon2 hash of a master secret.
/// For the file, the caller reads and writes the bytes: the methods take what
/// the file held and return what it must hold next.
#[derive(Debug, Clone)]
pub struct KeychainManager {
    use_system_keychain: bool,
    encrypted_file_path: Option<String>,
    master_password: String,
}

impl KeychainManager {
    pub closed spec fn spec_uses_system(&self) -> bool {
        self.use_system_keychain
    }

    pub closed spec fn spec_master(&self) -> Seq<char> {
        self.master_password@
    }

    pub closed spec fn spec_file_path(&self) -> Option<Seq<char>> {
        crate::upload::opt_view(self.encrypted_file_path)
    }

    /// A manager for `config`. With the encrypted file, the file lives at
    /// `<home>/.snapto/credentials.enc` and is keyed by `master_password`.
    pub fn new(config: &SecurityConfig, home: &str, master_password: String) -> (r: Self)
        ensures
            r.spec_uses_system() == config.use_system_keychain,
            r.spec_master() == master_password@,
            config.use_system_keychain ==> r.spec_file_path() is None,
            !config.use_system_keychain ==> r.spec_file_path() == Some(home@ + "/.snapto/credentials.enc"@),
    {
        let path = if !config.use_system_keychain {
            let mut p = String::from_str(home);
            p.append("/.snapto/credentials.enc");
            Some(p)
        } else {
            None
        };
        KeychainManager { use_system_keychain: config.use_system_keychain, encrypted_file_path: path, master_password }
    }

    pub fn use_system_keychain(&self) -> (r: bool)
        ensures
            r == self.spec_uses_system(),
    {
        self.use_system_keychain
    }

    pub fn encrypted_file_path(&self) -> (r: Option<String>)
        ensures
            crate::upload::opt_view(r) == self.spec_file_path(),
    {
        crate::upload::copy_opt(&self.encrypted_file_path)
    }

    fn derive_key(&self, password: &str, salt: &str) -> (r: Result<Vec<u8>, SnaptoError>)
        ensures
            r is Ok <==> password@.len() <= MAX_SECRET_CHARS && argon2_salt_ok(salt@),
            r matches Ok(k) ==> k@ == argon2_key(password@, salt@) && k@.len() == 32,
            r matches Err(e) ==> e is Encryption,
    {
        if password.unicode_len() > 0x3FFF_FFFF {
            return Err(SnaptoError::Encryption(String::from_str("Master secret too long")));
        }
        match argon2_derive(password, salt) {
            Ok(k) => Ok(k),
            Err(e) => Err(SnaptoError::Encryption(message3("Failed to derive key: ", e.as_str(), ""))),
        }
    }

    /// Encrypts `data` with AES-256-GCM under the Argon2 key of `master_password` and `salt`.
    pub fn encrypt(&self, data: &str, master_password: &str, salt: &str, nonce: &[u8]) -> (r: Result<Vec<u8>, SnaptoError>)
        ensures
            r matches Ok(c) ==> nonce@.len() == NONCE_SIZE
                && c@ == aead_seal(argon2_key(master_password@, salt@), nonce@, data.spec_bytes()),
            nonce@.len() != NONCE_SIZE ==> r is Err,
            nonce@.len() == NONCE_SIZE && master_password@.len() <= MAX_SECRET_CHARS && argon2_salt_ok(salt@)
                && data.spec_bytes().len() <= MAX_PLAINTEXT ==> r is Ok,
            r matches Err(e) ==> e is Encryption,
    {
        if nonce.len() != NONCE_SIZE {
            return Err(SnaptoError::Encryption(String::from_str("Nonce must be twelve bytes")));
        }
        let key = self.derive_key(master_password, salt)?;
        let n = vstd::slice::slice_to_vec(nonce);
        match aes_seal(&key, &n, data.as_bytes()) {
            Ok(c) => Ok(c),
            Err(e) => Err(SnaptoError::Encryption(message3("Encryption failed: ", e.as_str(), ""))),
        }
    }

    fn decrypt_bytes(&self, data: &Vec<u8>, master_password: &str, salt: &str, nonce: &Vec<u8>) -> (r: Result<Vec<u8>, SnaptoError>)
        ensures
            r matches Ok(p) ==> nonce@.len() == NONCE_SIZE
                && aead_open(argon2_key(master_password@, salt@), nonce@, data@) == Some(p@),
            r is Ok <==> opens(master_password@, salt@, nonce@, data@),
            r matches Err(e) ==> e is Encryption,
    {
        if nonce.len() != NONCE_SIZE {
            return Err(SnaptoError::Encryption(String::from_str("Nonce must be twelve bytes")));
        }
        let key = self.derive_key(master_password, salt)?;
        match aes_open(&key, nonce, data) {
            Ok(p) => Ok(p),
            Err(e) => Err(SnaptoError::Encryption(message3("Decryption failed: ", e.as_str(), ""))),
        }
    }

    /// Decrypts `data` and reads it as UTF-8 text.
    pub fn decrypt(&self, data: &[u8], master_password: &str, salt: &str, nonce: &[u8]) -> (r: Result<String, SnaptoError>)
        ensures
            r matches Ok(t) ==> nonce@.len() == NONCE_SIZE && exists|p: Seq<u8>|
                aead_open(argon2_key(master_password@, salt@), nonce@, data@) == Some(p) && t@ == utf8_text(p),
            r is Ok <==> opens(master_password@, salt@, nonce@, data@)
                && utf8_valid(aead_open(argon2_key(master_password@, salt@), nonce@, data@)->Some_0),
            r matches Err(e) ==> e is Encryption,
    {
        let d = vstd::slice::slice_to_vec(data);
        let n = vstd::slice::slice_to_vec(nonce);
        let p = self.decrypt_bytes(&d, master_password, salt, &n)?;
        match text_from_utf8(p) {
            Some(t) => Ok(t),
            None => Err(SnaptoError::Encryption(String::from_str("Invalid UTF-8"))),
        }
    }

    /// The secrets a stored file holds; no file holds none. A file that does
    /// not decrypt or parse is an error, never an empty vault.
    pub fn open_store(&self, stored: Option<&EncryptedStore>) -> (r: Result<CredentialMap, SnaptoError>)
        ensures
            r matches Ok(m) ==> m.wf() && store_contents(self.spec_master(), copy_of(stored)) == Some(m@),
            store_contents(self.spec_master(), copy_of(stored)) is None <==> r is Err,
            r matches Err(e) ==> is_vault_error(e),
    {
        match stored {
            None => Ok(CredentialMap::new()),
            Some(s) => {
                let plain = self.decrypt_bytes(&s.data, self.master_password.as_str(), s.salt.as_str(), &s.nonce)?;
                match json_decode_map(&plain) {
                    Some(pairs) => Ok(CredentialMap::from_pairs(pairs)),
                    None => Err(SnaptoError::Keychain(String::from_str("Failed to parse store"))),
                }
            }
        }
    }

    /// Encrypts all of `map` under the salt encoded from `salt_bytes` and
    /// under `nonce`. It succeeds whenever the master secret is accepted and
    /// the JSON text fits AES-GCM.
    pub fn seal_with(&self, map: &CredentialMap, salt_bytes: &Vec<u8>, nonce: Vec<u8>) -> (r: Result<EncryptedStore, SnaptoError>)
        requires
            map.wf(),
            salt_bytes@.len() == SALT_SIZE,
            nonce@.len() == NONCE_SIZE,
        ensures
            r matches Ok(s) ==> seals(self.spec_master(), s, map@) && s.nonce@ == nonce@
                && store_contents(self.spec_master(), Some(s)) == Some(map@),
            sealable(self.spec_master(), map@) ==> r is Ok,
            r matches Err(e) ==> is_vault_error(e),
    {
        let json = json_encode_map(map.pairs());
        let salt = match salt_from_bytes(salt_bytes) {
            Some(s) => s,
            None => return Err(SnaptoError::Encryption(String::from_str("Failed to encode salt"))),
        };
        let key = self.derive_key(self.master_password.as_str(), salt.as_str())?;
        match aes_seal(&key, &nonce, json.as_slice()) {
            Ok(data) => Ok(EncryptedStore { salt, nonce, data }),
            Err(e) => Err(SnaptoError::Encryption(message3("Encryption failed: ", e.as_str(), ""))),
        }
    }

    /// A fresh salt (16 bytes) and nonce (12 bytes) from the OS random source.
    fn draw_salt_and_nonce(&self) -> (r: Result<(Vec<u8>, Vec<u8>), SnaptoError>)
        ensures
            r matches Ok(p) ==> p.0@.len() == SALT_SIZE && p.1@.len() == NONCE_SIZE,
            r matches Err(e) ==> is_vault_error(e),
    {
        let salt = match fresh_bytes(SALT_SIZE) {
            Some(b) => b,
            None => return Err(SnaptoError::Encryption(String::from_str("No random salt available"))),
        };
        let nonce = match fresh_bytes(NONCE_SIZE) {
            Some(n) => n,
            None => return Err(SnaptoError::Encryption(String::from_str("No random nonce available"))),
        };
        Ok((salt, nonce))
    }

    /// Encrypts all of `map` under a fresh salt and nonce.
    pub fn seal_store(&self, map: &CredentialMap) -> (r: Result<EncryptedStore, SnaptoError>)
        requires
            map.wf(),
        ensures
            r matches Ok(s) ==> seals(self.spec_master(), s, map@)
                && store_contents(self.spec_master(), Some(s)) == Some(map@),
            r matches Err(e) ==> is_vault_error(e),
    {
        let (salt, nonce) = self.draw_salt_and_nonce()?;
        self.seal_with(map, &salt, nonce)
    }

    /// The file contents after storing `value` under `key`, sealed with the
    /// given salt bytes and nonce. A readable file always gives a result,
    /// unless the JSON text would not fit AES-GCM.
    pub fn set_encrypted_file_with(&self, stored: Option<&EncryptedStore>, key: &str, value: &str, salt_bytes: &Vec<u8>, nonce: Vec<u8>) -> (r: Result<EncryptedStore, SnaptoError>)
        requires
            salt_bytes@.len() == SALT_SIZE,
            nonce@.len() == NONCE_SIZE,
        ensures
            r matches Ok(s) ==> store_contents(self.spec_master(), copy_of(stored)) is Some
                && seals(self.spec_master(), s, store_contents(self.spec_master(), copy_of(stored))->Some_0.insert(key@, value@))
                && store_contents(self.spec_master(), Some(s)) == Some(store_contents(self.spec_master(), copy_of(stored))->Some_0.insert(key@, value@)),
            store_contents(self.spec_master(), copy_of(stored)) is None ==> r is Err,
            store_contents(self.spec_master(), copy_of(stored)) is Some
                && sealable(self.spec_master(), store_contents(self.spec_master(), copy_of(stored))->Some_0.insert(key@, value@))
                ==> r is Ok,
            r matches Err(e) ==> is_vault_error(e),
    {
        let mut map = self.open_store(stored)?;
        map.insert(key, value);
        self.seal_with(&map, salt_bytes, nonce)
    }

    /// The file contents after removing `key`, sealed with the given salt
    /// bytes and nonce.
    pub fn delete_encrypted_file_with(&self, stored: Option<&EncryptedStore>, key: &str, salt_bytes: &Vec<u8>, nonce: Vec<u8>) -> (r: Result<EncryptedStore, SnaptoError>)
        requires
            salt_bytes@.len() == SALT_SIZE,
            nonce@.len() == NONCE_SIZE,
        ensures
            r matches Ok(s) ==> store_contents(self.spec_master(), copy_of(stored)) is Some
                && seals(self.spec_master(), s, store_contents(self.spec_master(), copy_of(stored))->Some_0.remove(key@))
                && store_contents(self.spec_master(), Some(s)) == Some(store_contents(self.spec_master(), copy_of(stored))->Some_0.remove(key@)),
            store_contents(self.spec_master(), copy_of(stored)) is None ==> r is Err,
            store_contents(self.spec_master(), copy_of(stored)) is Some
                && sealable(self.spec_master(), store_contents(self.spec_master(), copy_of(stored))->Some_0.remove(key@))
                ==> r is Ok,
            r matches Err(e) ==> is_vault_error(e),
    {
        let mut map = self.open_store(stored)?;
        map.remove(key);
        self.seal_with(&map, salt_bytes, nonce)
    }

    /// The file contents after storing `value` under `key`, under a fresh
    /// salt and nonce.
    pub fn set_encrypted_file(&self, stored: Option<&EncryptedStore>, key: &str, value: &str) -> (r: Result<EncryptedStore, SnaptoError>)
        ensures
            r matches Ok(s) ==> store_contents(self.spec_master(), copy_of(stored)) is Some
                && seals(self.spec_master(), s, store_contents(self.spec_master(), copy_of(stored))->Some_0.insert(key@, value@))
                && store_contents(self.spec_master(), Some(s)) == Some(store_contents(self.spec_master(), copy_of(stored))->Some_0.insert(key@, value@)),
            store_contents(self.spec_master(), copy_of(stored)) is None ==> r is Err,
            r matches Err(e) ==> is_vault_error(e),
    {
        let (salt, nonce) = self.draw_salt_and_nonce()?;
        self.set_encrypted_file_with(stored, key, value, &salt, nonce)
    }

    /// The value stored under `key` in the file.
    pub fn get_encrypted_file(&self, stored: Option<&EncryptedStore>, key: &str) -> (r: Result<Option<String>, SnaptoError>)
        ensures
            r matches Ok(v) ==> store_contents(self.spec_master(), copy_of(stored)) is Some
                && crate::upload::opt_view(v) == lookup(store_contents(self.spec_master(), copy_of(stored))->Some_0, key@),
            store_contents(self.spec_master(), copy_of(stored)) is None <==> r is Err,
            r matches Err(e) ==> is_vault_error(e),
    {
        let map = self.open_store(stored)?;
        Ok(map.get(key))
    }

    fn set_system_keychain(&self, key: &str, value: &str) -> (r: Result<(), SnaptoError>)
        ensures
            r matches Err(e) ==> e is Keychain,
    {
        match keyring_set(SERVICE_NAME, key, value) {
            Ok(()) => self.update_keys_list(key, true),
            Err(e) => Err(SnaptoError::Keychain(message3("Failed to set password: ", e.as_str(), ""))),
        }
    }

    fn get_system_keychain(&self, key: &str) -> (r: Result<Option<String>, SnaptoError>)
        ensures
            r matches Err(e) ==> e is Keychain,
    {
        match keyring_get(SERVICE_NAME, key) {
            Ok(v) => Ok(v),
            Err(e) => Err(SnaptoError::Keychain(message3("Failed to get password: ", e.as_str(), ""))),
        }
    }

    fn delete_system_keychain(&self, key: &str) -> (r: Result<(), SnaptoError>)
        ensures
            r matches Err(e) ==> e is Keychain,
    {
        match keyring_delete(SERVICE_NAME, key) {
            Ok(true) => self.update_keys_list(key, false),
            Ok(false) => Ok(()),
            Err(e) => Err(SnaptoError::Keychain(message3("Failed to delete password: ", e.as_str(), ""))),
        }
    }

    /// The keys recorded in the system store's index entry. An index that
    /// does not parse is an error when `strict`, else counts as empty.
    fn system_keys(&self, strict: bool) -> (r: Result<Vec<String>, SnaptoError>)
        ensures
            r matches Err(e) ==> e is Keychain,
    {
        match self.get_system_keychain(KEYS_INDEX)? {
            Some(json) => match json_decode_list(json.as_str()) {
                Some(keys) => Ok(keys),
                None => if strict {
                    Err(SnaptoError::Keychain(String::from_str("Failed to parse keys list")))
                } else {
                    Ok(Vec::new())
                },
            },
            None => Ok(Vec::new()),
        }
    }

    /// Records in the system store's index that `key` was stored or removed.
    /// The index entry itself is never listed.
    fn update_keys_list(&self, key: &str, add: bool) -> (r: Result<(), SnaptoError>)
        ensures
            r matches Err(e) ==> e is Keychain,
    {
        let k = String::from_str(key);
        if crate::config::text_is(&k, KEYS_INDEX) {
            return Ok(());
        }
        let keys = self.system_keys(false)?;
        let updated = updated_keys(keys, key, add);
        let json = json_encode_list(&updated);
        match keyring_set(SERVICE_NAME, KEYS_INDEX, json.as_str()) {
            Ok(()) => Ok(()),
            Err(e) => Err(SnaptoError::Keychain(message3("Failed to save keys list: ", e.as_str(), ""))),
        }
    }

    /// Stores `value` under `key`. With the encrypted file, the result holds
    /// what the file must contain next; with the system store, `None`.
    pub fn set(&self, stored: Option<&EncryptedStore>, key: &str, value: &str) -> (r: Result<Option<EncryptedStore>, SnaptoError>)
        ensures
            self.spec_uses_system() ==> (r matches Ok(o) ==> o is None),
            !self.spec_uses_system() ==> (r matches Ok(o) ==> o matches Some(s)
                && store_contents(self.spec_master(), copy_of(stored)) is Some
                && seals(self.spec_master(), s, store_contents(self.spec_master(), copy_of(stored))->Some_0.insert(key@, value@))
                && store_contents(self.spec_master(), Some(s)) == Some(store_contents(self.spec_master(), copy_of(stored))->Some_0.insert(key@, value@))),
            !self.spec_uses_system() && store_contents(self.spec_master(), copy_of(stored)) is None ==> r is Err,
            r matches Err(e) ==> is_vault_error(e),
    {
        if self.use_system_keychain {
            self.set_system_keychain(key, value)?;
            Ok(None)
        } else {
            let s = self.set_encrypted_file(stored, key, value)?;
            Ok(Some(s))
        }
    }

    /// The value stored under `key`.
    pub fn get(&self, stored: Option<&EncryptedStore>, key: &str) -> (r: Result<Option<String>, SnaptoError>)
        ensures
            !self.spec_uses_system() ==> (r matches Ok(v) ==> store_contents(self.spec_master(), copy_of(stored)) is Some
                && crate::upload::opt_view(v) == lookup(store_contents(self.spec_master(), copy_of(stored))->Some_0, key@)),
            !self.spec_uses_system() ==> (store_contents(self.spec_master(), copy_of(stored)) is None <==> r is Err),
            r matches Err(e) ==> is_vault_error(e),
    {
        if self.use_system_keychain {
            self.get_system_keychain(key)
        } else {
            self.get_encrypted_file(stored, key)
        }
    }

    /// Removes `key`. With the encrypted file, the result holds what the file
    /// must contain next; with the system store, `None`.
    pub fn delete(&self, stored: Option<&EncryptedStore>, key: &str) -> (r: Result<Option<EncryptedStore>, SnaptoError>)
        ensures
            self.spec_uses_system() ==> (r matches Ok(o) ==> o is None),
            !self.spec_uses_system() ==> (r matches Ok(o) ==> o matches Some(s)
                && store_contents(self.spec_master(), copy_of(stored)) is Some
                && seals(self.spec_master(), s, store_contents(self.spec_master(), copy_of(stored))->Some_0.remove(key@))
                && store_contents(self.spec_master(), Some(s)) == Some(store_contents(self.spec_master(), copy_of(stored))->Some_0.remove(key@))),
            !self.spec_uses_system() && store_contents(self.spec_master(), copy_of(stored)) is None ==> r is Err,
            r matches Err(e) ==> is_vault_error(e),
    {
        if self.use_system_keychain {
            self.delete_system_keychain(key)?;
            Ok(None)
        } else {
            let s = self.delete_encrypted_file(stored, key)?;
            Ok(Some(s))
        }
    }

    /// Every stored key. The system store cannot list its entries, so its
    /// keys come from an index entry that the vault keeps up to date.
    pub fn list_keys(&self, stored: Option<&EncryptedStore>) -> (r: Result<Vec<String>, SnaptoError>)
        ensures
            !self.spec_uses_system() ==> (r matches Ok(v) ==> store_contents(self.spec_master(), copy_of(stored)) matches Some(m)
                && v@.len() == m.len()
                && forall|k: Seq<char>| m.contains_key(k) <==> exists|i: int| 0 <= i < v@.len() && (#[trigger] v@[i])@ == k),
            !self.spec_uses_system() ==> (store_contents(self.spec_master(), copy_of(stored)) is None <==> r is Err),
            r matches Err(e) ==> is_vault_error(e),
    {
        if self.use_system_keychain {
            self.system_keys(true)
        } else {
            let map = self.open_store(stored)?;
            Ok(map.keys())
        }
    }

    /// Removes every secret. With the system store each entry and the index
    /// are deleted and the result is `false`; with the encrypted file the
    /// result is `true`: the caller removes the file.
    pub fn clear_all(&self) -> (r: Result<bool, SnaptoError>)
        ensures
            r matches Ok(remove_file) ==> remove_file == !self.spec_uses_system(),
            !self.spec_uses_system() ==> r == Ok::<bool, SnaptoError>(true),
            r matches Err(e) ==> is_vault_error(e),
    {
        if self.use_system_keychain {
            let keys = self.system_keys(true)?;
            let mut i: usize = 0;
            while i < keys.len()
                invariant
                    i <= keys@.len(),
                    self.spec_uses_system(),
                decreases keys@.len() - i,
            {
                self.delete_system_keychain(keys[i].as_str())?;
                i = i + 1;
            }
            let _ = self.delete_system_keychain(KEYS_INDEX);
            Ok(false)
        } else {
            Ok(true)
        }
    }

    /// The file contents after removing `key`.
    pub fn delete_encrypted_file(&self, stored: Option<&EncryptedStore>, key: &str) -> (r: Result<EncryptedStore, SnaptoError>)
        ensures
            r matches Ok(s) ==> store_contents(self.spec_master(), copy_of(stored)) is Some
                && seals(self.spec_master(), s, store_contents(self.spec_master(), copy_of(stored))->Some_0.remove(key@))
                && store_contents(self.spec_master(), Some(s)) == Some(store_contents(self.spec_master(), copy_of(stored))->Some_0.remove(key@)),
            store_contents(self.spec_master(), copy_of(stored)) is None ==> r is Err,
            r matches Err(e) ==> is_vault_error(e),
    {
        let (salt, nonce) = self.draw_salt_and_nonce()?;
        self.delete_encrypted_file_with(stored, key, &salt, nonce)
    }
}

/// The value behind an optional reference.
pub open spec fn copy_of(s: Option<&EncryptedStore>) -> Option<EncryptedStore> {
    match s {
        Some(x) => Some(*x),
        None => None,
    }
}

/// For the encrypted file: reading `k` from the file that storing `v`
/// under `k` produced gives `v`, and reading it from the file that then
/// deleting `k` produced gives nothing.
pub proof fn lemma_vault_round_trip(
    master: Seq<char>,
    before: Map<Seq<char>, Seq<char>>,
    after_set: EncryptedStore,
    after_delete: EncryptedStore,
    k: Seq<char>,
    v: Seq<char>,
)
    requires
        store_contents(master, Some(after_set)) == Some(before.insert(k, v)),
        store_contents(master, Some(after_delete)) == Some(before.insert(k, v).remove(k)),
    ensures
        lookup(store_contents(master, Some(after_set))->Some_0, k) == Some(v),
        lookup(store_contents(master, Some(after_delete))->Some_0, k) is None,
{
}

} // verus!
