//! The key directory: user names mapped to their OpenSSH public keys, and
//! verification of SSH-format signatures over a ticket's challenge. Keys
//! are held as OpenSSH text lines; parsing and cryptographic verification
//! are the `ssh_key` crate's work.

use vstd::prelude::*;
use crate::token::spec_words_view;
use crate::text::str_eq;

verus! {

/// Whether a line of text parses as an OpenSSH public key; a function of
/// the text alone.
pub uninterp spec fn spec_is_pubkey_line(s: Seq<char>) -> bool;

/// Whether `response` is a valid SSH-format signature by the key in
/// `key_line` over namespace `bytebeam` and the challenge bytes; a function
/// of the three texts alone.
pub uninterp spec fn spec_sig_ok(
    key_line: Seq<char>,
    challenge: Seq<char>,
    response: Seq<char>,
) -> bool;

/// Relies on `ssh_key::PublicKey::from_openssh`: whether a line parses as
/// an OpenSSH public key, determined by the text alone.
#[verifier::external_body]
fn is_pubkey_line(s: &String) -> (r: bool)
    ensures
        r == spec_is_pubkey_line(s@),
{
    ssh_key::PublicKey::from_openssh(s).is_ok()
}

/// Relies on `ssh_key::PublicKey::from_openssh`, `ssh_key::SshSig`'s PEM
/// parser, and `ssh_key::PublicKey::verify` over namespace `bytebeam`:
/// whether `response` carries a signature by the key in `key_line` over the
/// challenge bytes. All three steps are deterministic in the texts; any
/// parse or verification failure counts as no.
#[verifier::external_body]
fn line_verifies(key_line: &String, challenge: &String, response: &String) -> (r: bool)
    ensures
        r == spec_sig_ok(key_line@, challenge@, response@),
{
    let key = match ssh_key::PublicKey::from_openssh(key_line) {
        Ok(k) => k,
        Err(_) => return false,
    };
    let sig = match response.parse::<ssh_key::SshSig>() {
        Ok(s) => s,
        Err(_) => return false,
    };
    key.verify("bytebeam", challenge.as_bytes(), &sig).is_ok()
}

/// The OpenSSH public key lines an `authorized_keys` body holds, in
/// order, with entries that do not parse dropped; a function of the text
/// alone.
pub uninterp spec fn spec_authorized_keys(body: Seq<char>) -> Seq<Seq<char>>;

/// Relies on `ssh_key::AuthorizedKeys::new` and
/// `ssh_key::PublicKey::to_openssh`: the public keys found in an
/// `authorized_keys`-formatted body, re-encoded one per line; entries that
/// do not parse or re-encode are dropped. Both the stream and the
/// re-encoding are determined by the text alone.
#[verifier::external_body]
fn parse_authorized_keys(body: &String) -> (r: Vec<String>)
    ensures
        spec_words_view(r@) == spec_authorized_keys(body@),
{
    let mut out = Vec::new();
    for entry in ssh_key::authorized_keys::AuthorizedKeys::new(body) {
        if let Ok(e) = entry {
            if let Ok(line) = e.public_key().to_openssh() {
                out.push(line);
            }
        }
    }
    out
}

/// Maps user names to their OpenSSH public key lines and answers whether a
/// challenge response was signed by one of a user's keys.
#[derive(Debug, Clone)]
pub struct KeyManager {
    /// Optional keyserver URL template, holding `{}` where a user name is
    /// substituted; the fetch itself happens outside this crate.
    pub keyserver: Option<String>,
    /// Known users, each with the OpenSSH lines of their keys. Names are
    /// unique.
    pub users: Vec<(String, Vec<String>)>,
}

impl KeyManager {
    /// Names are unique, so a user's keys are well defined.
    pub open spec fn wf(&self) -> bool {
        forall|i: int, j: int|
            0 <= i < j < self.users@.len() ==> self.users@[i].0@ != self.users@[j].0@
    }

    pub open spec fn spec_has_user(&self, name: Seq<char>) -> bool {
        exists|i: int| 0 <= i < self.users@.len() && self.users@[i].0@ == name
    }

    /// The key lines stored for a user.
    pub open spec fn spec_keys_of(&self, name: Seq<char>) -> Seq<Seq<char>> {
        spec_words_view(
            self.users@[choose|i: int|
                0 <= i < self.users@.len() && self.users@[i].0@ == name].1@,
        )
    }

    /// Whether some key of the user accepts the response as a signature
    /// over the challenge.
    pub open spec fn spec_verifies(
        &self,
        name: Seq<char>,
        challenge: Seq<char>,
        response: Seq<char>,
    ) -> bool {
        self.spec_has_user(name) && exists|j: int|
            0 <= j < self.spec_keys_of(name).len() && spec_sig_ok(
                self.spec_keys_of(name)[j],
                challenge,
                response,
            )
    }

    /// An empty directory for the given keyserver template.
    pub fn new(keyserver: Option<String>) -> (r: KeyManager)
        ensures
            r.wf(),
            r.keyserver == keyserver,
            r.users@.len() == 0,
    {
        KeyManager { keyserver, users: Vec::new() }
    }

    fn find_user(&self, name: &String) -> (r: Option<usize>)
        requires
            self.wf(),
        ensures
            r is Some <==> self.spec_has_user(name@),
            r matches Some(i) ==> i < self.users@.len() && self.users@[i as int].0@ == name@,
    {
        let mut i: usize = 0;
        while i < self.users.len()
            invariant
                i <= self.users@.len(),
                forall|k: int| 0 <= k < i ==> self.users@[k].0@ != name@,
            decreases self.users@.len() - i,
        {
            if str_eq(self.users[i].0.as_str(), name.as_str()) {
                return Some(i);
            }
            i = i + 1;
        }
        None
    }

    /// Stores (or replaces) a user's key lines.
    pub fn set_user_keys(&mut self, name: String, keys: Vec<String>)
        requires
            old(self).wf(),
        ensures
            final(self).wf(),
            final(self).keyserver == old(self).keyserver,
            final(self).spec_has_user(name@),
            final(self).spec_keys_of(name@) == spec_words_view(keys@),
            forall|other: Seq<char>| other != name@
                ==> #[trigger] final(self).spec_has_user(other) == old(self).spec_has_user(other),
            forall|other: Seq<char>| other != name@ && old(self).spec_has_user(other)
                ==> #[trigger] final(self).spec_keys_of(other) == old(self).spec_keys_of(other),
    {
        let found = self.find_user(&name);
        match found {
            Some(i) => {
                let ghost pre = self.users@;
                self.users.set(i, (name, keys));
                proof {
                    lemma_user_lookup(*self, i as int);
                    assert forall|other: Seq<char>|
                        other != pre[i as int].0@ && #[trigger] old(self).spec_has_user(other)
                        implies final(self).spec_has_user(other) by {
                        let k = choose|k: int|
                            0 <= k < pre.len() && pre[k].0@ == other;
                        assert(self.users@[k].0@ == other);
                    }
                    assert forall|other: Seq<char>|
                        other != pre[i as int].0@ && #[trigger] final(self).spec_has_user(other)
                        implies old(self).spec_has_user(other) by {
                        let k = choose|k: int|
                            0 <= k < self.users@.len() && self.users@[k].0@ == other;
                        assert(pre[k].0@ == other);
                    }
                    assert forall|other: Seq<char>|
                        other != pre[i as int].0@ && old(self).spec_has_user(other) implies #[trigger] final(self).spec_keys_of(other) == old(self).spec_keys_of(other) by {
                        let k = choose|k: int|
                            0 <= k < pre.len() && pre[k].0@ == other;
                        assert(self.users@[k].0@ == other);
                        lemma_user_lookup(*old(self), k);
                        lemma_user_lookup(*self, k);
                    }
                }
            },
            None => {
                let ghost pre = self.users@;
                self.users.push((name, keys));
                proof {
                    assert(self.users@[pre.len() as int].0@ == name@);
                    lemma_user_lookup(*self, pre.len() as int);
                    assert forall|other: Seq<char>|
                        other != name@ && #[trigger] old(self).spec_has_user(other) implies final(self).spec_has_user(other) by {
                        let k = choose|k: int|
                            0 <= k < pre.len() && pre[k].0@ == other;
                        assert(self.users@[k].0@ == other);
                    }
                    assert forall|other: Seq<char>|
                        other != name@ && #[trigger] final(self).spec_has_user(other) implies old(self).spec_has_user(other) by {
                        let k = choose|k: int|
                            0 <= k < self.users@.len() && self.users@[k].0@ == other;
                        assert(k < pre.len());
                        assert(pre[k].0@ == other);
                    }
                    assert forall|other: Seq<char>|
                        other != name@ && old(self).spec_has_user(other)
                        implies #[trigger] final(self).spec_keys_of(other) == old(self).spec_keys_of(other) by {
                        let k = choose|k: int|
                            0 <= k < pre.len() && pre[k].0@ == other;
                        assert(self.users@[k].0@ == other);
                        lemma_user_lookup(*old(self), k);
                        lemma_user_lookup(*self, k);
                    }
                }
            },
        }
    }

    /// Adds a configured user entry that is itself an OpenSSH public key
    /// line: it is stored under its own text, as its single key. Returns
    /// whether the line was such a key; if not, the caller is expected to
    /// resolve the name against the keyserver and hand the result to
    /// [`Self::add_fetched_user`].
    pub fn add_key_user(&mut self, line: String) -> (r: bool)
        requires
            old(self).wf(),
        ensures
            final(self).wf(),
            final(self).keyserver == old(self).keyserver,
            r == spec_is_pubkey_line(line@),
            r ==> final(self).spec_has_user(line@) && final(self).spec_keys_of(line@) =~= seq![
                line@,
            ],
            forall|other: Seq<char>| other != line@
                ==> #[trigger] final(self).spec_has_user(other) == old(self).spec_has_user(other),
            forall|other: Seq<char>| other != line@ && old(self).spec_has_user(other)
                ==> #[trigger] final(self).spec_keys_of(other) == old(self).spec_keys_of(other),
            !r ==> *final(self) == *old(self),
    {
        if is_pubkey_line(&line) {
            let mut keys: Vec<String> = Vec::new();
            keys.push(line.clone());
            self.set_user_keys(line, keys);
            true
        } else {
            false
        }
    }

    /// Stores the keys a keyserver returned for a user, parsing the body as
    /// an `authorized_keys` stream.
    pub fn add_fetched_user(&mut self, name: String, body: &String)
        requires
            old(self).wf(),
        ensures
            final(self).wf(),
            final(self).keyserver == old(self).keyserver,
            final(self).spec_has_user(name@),
            final(self).spec_keys_of(name@) == spec_authorized_keys(body@),
            forall|other: Seq<char>| other != name@
                ==> #[trigger] final(self).spec_has_user(other) == old(self).spec_has_user(other),
            forall|other: Seq<char>| other != name@ && old(self).spec_has_user(other)
                ==> #[trigger] final(self).spec_keys_of(other) == old(self).spec_keys_of(other),
    {
        let keys = parse_authorized_keys(body);
        self.set_user_keys(name, keys);
    }

    /// Builds a directory from the configured users, sorting out which of
    /// them need the keyserver: every entry that is itself an OpenSSH
    /// public key line is stored under its own text, and the remaining
    /// entries are returned as the names whose keys must be fetched from
    /// the keyserver and handed to [`Self::add_fetched_user`]. The fetch
    /// itself happens outside this crate.
    pub fn new_checking_keyserver(keyserver: Option<String>, users: Vec<String>) -> (r: (
        KeyManager,
        Vec<String>,
    ))
        ensures
            r.0.wf(),
            r.0.keyserver == keyserver,
            forall|j: int|
                0 <= j < users@.len() && spec_is_pubkey_line(#[trigger] users@[j]@)
                    ==> r.0.spec_has_user(users@[j]@) && r.0.spec_keys_of(users@[j]@) == seq![
                    users@[j]@,
                ],
            forall|j: int|
                0 <= j < r.1@.len() ==> !spec_is_pubkey_line(#[trigger] r.1@[j]@)
                    && spec_words_view(users@).contains(r.1@[j]@),
            forall|j: int|
                0 <= j < users@.len() && !spec_is_pubkey_line(#[trigger] users@[j]@)
                    ==> spec_words_view(r.1@).contains(users@[j]@),
    {
        let mut km = KeyManager::new(keyserver);
        let mut unresolved: Vec<String> = Vec::new();
        let mut i: usize = 0;
        while i < users.len()
            invariant
                km.wf(),
                km.keyserver == keyserver,
                i <= users@.len(),
                forall|j: int|
                    0 <= j < i && spec_is_pubkey_line(#[trigger] users@[j]@)
                        ==> km.spec_has_user(users@[j]@) && km.spec_keys_of(users@[j]@)
                        == seq![users@[j]@],
                forall|j: int|
                    0 <= j < unresolved@.len() ==> !spec_is_pubkey_line(
                        #[trigger] unresolved@[j]@,
                    ) && spec_words_view(users@).contains(unresolved@[j]@),
                forall|j: int|
                    0 <= j < i && !spec_is_pubkey_line(#[trigger] users@[j]@)
                        ==> spec_words_view(unresolved@).contains(users@[j]@),
            decreases users@.len() - i,
        {
            let user = users[i].clone();
            let ghost pre_unresolved = unresolved@;
            let added = km.add_key_user(user.clone());
            proof {
                assert(user@ == users@[i as int]@);
                if added {
                    assert(km.spec_has_user(users@[i as int]@));
                    assert(km.spec_keys_of(users@[i as int]@) == seq![users@[i as int]@]);
                }
            }
            if !added {
                unresolved.push(user);
                proof {
                    assert(spec_words_view(users@)[i as int] == users@[i as int]@);
                    assert(spec_words_view(unresolved@)[pre_unresolved.len() as int]
                        == users@[i as int]@);
                    assert forall|j: int|
                        0 <= j < i + 1 && !spec_is_pubkey_line(#[trigger] users@[j]@)
                        implies spec_words_view(unresolved@).contains(users@[j]@) by {
                        if j < i {
                            let k = choose|k: int|
                                0 <= k < spec_words_view(pre_unresolved).len()
                                    && spec_words_view(pre_unresolved)[k] == users@[j]@;
                            assert(spec_words_view(unresolved@)[k] == users@[j]@);
                        }
                    }
                }
            }
            i = i + 1;
        }
        (km, unresolved)
    }

    /// Whether the response proves possession of one of the user's keys:
    /// true iff the user is known and any of their keys verifies the
    /// response as a signature over the challenge. An unknown user, a
    /// malformed response and a non-matching signature are all just `false`.
    pub fn verify(&self, name: &String, challenge: &String, response: &String) -> (r: bool)
        requires
            self.wf(),
        ensures
            r == self.spec_verifies(name@, challenge@, response@),
    {
        let idx = match self.find_user(name) {
            Some(i) => i,
            None => {
                return false;
            },
        };
        proof {
            lemma_user_lookup(*self, idx as int);
        }
        let keys = &self.users[idx].1;
        let mut j: usize = 0;
        while j < keys.len()
            invariant
                self.wf(),
                idx < self.users@.len(),
                self.users@[idx as int].0@ == name@,
                keys == &self.users@[idx as int].1,
                self.spec_keys_of(name@) == spec_words_view(keys@),
                j <= keys@.len(),
                forall|k: int|
                    0 <= k < j ==> !spec_sig_ok(
                        self.spec_keys_of(name@)[k],
                        challenge@,
                        response@,
                    ),
            decreases keys@.len() - j,
        {
            if line_verifies(&keys[j], challenge, response) {
                proof {
                    assert(self.spec_keys_of(name@)[j as int] == keys@[j as int]@);
                }
                return true;
            }
            proof {
                assert(self.spec_keys_of(name@)[j as int] == keys@[j as int]@);
            }
            j = j + 1;
        }
        false
    }
}

/// Under uniqueness of names, the chosen index for a present name is the
/// index where it stands.
proof fn lemma_user_lookup(m: KeyManager, i: int)
    requires
        m.wf(),
        0 <= i < m.users@.len(),
    ensures
        m.spec_has_user(m.users@[i].0@),
        m.spec_keys_of(m.users@[i].0@) == spec_words_view(m.users@[i].1@),
{
    assert(m.spec_has_user(m.users@[i].0@));
    let k = choose|k: int| 0 <= k < m.users@.len() && m.users@[k].0@ == m.users@[i].0@;
    assert(k == i);
}

} // verus!
