//! The ticket registry: every pending transfer's metadata together with the
//! two ends of its bounded chunk channel, all state transitions, the
//! challenge upgrade, deletion and culling. The channel ends are `tokio`
//! bounded-channel handles; the registry stores and moves them, while
//! sending and receiving happen outside this crate. Callers serialize
//! access (one registry behind one lock), so every operation here is a
//! single atomic step on the whole state.

use vstd::prelude::*;
use crate::compression::Compression;
use crate::keymanager::KeyManager;
use crate::metadata::{FileMetadata, FileSize, FileState};
use crate::serveropts::ServerOptions;
use crate::token::{spec_minted, spec_words_view};
use vstd::pervasive::VecAdditionalExecFns;

verus! {

#[verifier::external_type_specification]
#[verifier::external_body]
#[verifier::reject_recursive_types(T)]
pub struct ExSender<T>(tokio::sync::mpsc::Sender<T>);

#[verifier::external_type_specification]
#[verifier::external_body]
#[verifier::reject_recursive_types(T)]
pub struct ExReceiver<T>(tokio::sync::mpsc::Receiver<T>);

/// The bound a `tokio` bounded channel was created with, read off its send
/// end; fixed for the channel's lifetime.
pub uninterp spec fn spec_sender_bound(s: tokio::sync::mpsc::Sender<Vec<u8>>) -> usize;

/// The channel a send end belongs to, as an abstract identity; fixed for
/// the handle's lifetime and shared by every clone of the end.
pub uninterp spec fn spec_sender_channel(s: tokio::sync::mpsc::Sender<Vec<u8>>) -> int;

/// The channel a receive end belongs to, under the same identities as
/// [`spec_sender_channel`].
pub uninterp spec fn spec_receiver_channel(r: tokio::sync::mpsc::Receiver<Vec<u8>>) -> int;

/// Relies on `tokio::sync::mpsc::channel`: a bounded channel whose send end
/// reports the requested bound as its maximum capacity, and whose two ends
/// belong to one channel. The call panics on a zero bound and on one above
/// the semaphore's permit limit, an eighth of the machine word range; the
/// requires leave both out.
#[verifier::external_body]
fn channel_pair(cap: usize) -> (r: (
    tokio::sync::mpsc::Sender<Vec<u8>>,
    tokio::sync::mpsc::Receiver<Vec<u8>>,
))
    requires
        cap >= 1,
        cap <= crate::serveropts::MAX_CACHE_SIZE,
    ensures
        spec_sender_bound(r.0) == cap,
        spec_sender_channel(r.0) == spec_receiver_channel(r.1),
{
    tokio::sync::mpsc::channel(cap)
}

/// Relies on `tokio::sync::mpsc::Sender::capacity`: the currently free
/// buffer slots, never more than the bound.
#[verifier::external_body]
fn sender_capacity(s: &tokio::sync::mpsc::Sender<Vec<u8>>) -> (r: usize)
    ensures
        r <= spec_sender_bound(*s),
{
    s.capacity()
}

/// Relies on `tokio::sync::mpsc::Sender::clone`: another send end of the
/// same channel, with the same bound.
#[verifier::external_body]
fn sender_clone(s: &tokio::sync::mpsc::Sender<Vec<u8>>) -> (r: tokio::sync::mpsc::Sender<
    Vec<u8>,
>)
    ensures
        spec_sender_bound(r) == spec_sender_bound(*s),
        spec_sender_channel(r) == spec_sender_channel(*s),
{
    s.clone()
}

/// Why an upload may not begin.
#[derive(Debug, Clone, Copy, PartialEq, Eq, Structural)]
pub enum UploadError {
    /// The ticket does not exist.
    NotFound,
    /// The ticket is already locked for upload; uploads are one-shot.
    Conflict,
    /// The upload key does not match.
    Forbidden,
    /// The producer end is no longer held by the registry.
    Gone,
}

impl UploadError {
    /// The HTTP status each refusal maps to.
    pub fn status_code(&self) -> (r: u16)
        ensures
            *self == UploadError::NotFound ==> r == 404,
            *self == UploadError::Conflict ==> r == 409,
            *self == UploadError::Forbidden ==> r == 403,
            *self == UploadError::Gone ==> r == 410,
    {
        match self {
            UploadError::NotFound => 404,
            UploadError::Conflict => 409,
            UploadError::Forbidden => 403,
            UploadError::Gone => 410,
        }
    }
}

/// The registry: three parallel vectors keyed by position, holding each
/// ticket's metadata, the send end of its channel (while the registry still
/// holds one), and the receive end (until a download takes it out).
pub struct AppState {
    /// Ticket metadata; `files[i].path` is the key of position `i`.
    pub files: Vec<FileMetadata>,
    /// Send ends; `None` once gone for good.
    pub uploads: Vec<Option<tokio::sync::mpsc::Sender<Vec<u8>>>>,
    /// Receive ends; `None` while a download holds it.
    pub downloads: Vec<Option<tokio::sync::mpsc::Receiver<Vec<u8>>>>,
    /// Tier for tickets minted anonymously.
    pub reg_options: ServerOptions,
    /// Tier applied after a successful challenge upgrade.
    pub auth_options: ServerOptions,
    /// The key directory challenges are verified against.
    pub keys: KeyManager,
}

impl AppState {
    /// The three vectors run in parallel, ticket paths are unique, and the
    /// tiers and the key directory are themselves well formed.
    pub open spec fn wf(&self) -> bool {
        &&& self.files@.len() == self.uploads@.len()
        &&& self.files@.len() == self.downloads@.len()
        &&& forall|i: int, j: int|
            0 <= i < j < self.files@.len() ==> self.files@[i].path@ != self.files@[j].path@
        &&& self.reg_options.wf()
        &&& self.auth_options.wf()
        &&& self.keys.wf()
    }

    pub open spec fn spec_has_ticket(&self, t: Seq<char>) -> bool {
        exists|i: int| 0 <= i < self.files@.len() && self.files@[i].path@ == t
    }

    pub open spec fn spec_index_of(&self, t: Seq<char>) -> int {
        choose|i: int| 0 <= i < self.files@.len() && self.files@[i].path@ == t
    }

    /// The metadata of a present ticket.
    pub open spec fn spec_meta(&self, t: Seq<char>) -> FileMetadata {
        self.files@[self.spec_index_of(t)]
    }

    /// The send end the registry holds for a present ticket, if any.
    pub open spec fn spec_producer(&self, t: Seq<char>) -> Option<
        tokio::sync::mpsc::Sender<Vec<u8>>,
    > {
        self.uploads@[self.spec_index_of(t)]
    }

    /// The receive end the registry holds for a present ticket, if any.
    pub open spec fn spec_consumer(&self, t: Seq<char>) -> Option<
        tokio::sync::mpsc::Receiver<Vec<u8>>,
    > {
        self.downloads@[self.spec_index_of(t)]
    }

    /// One ticket reads the same in two registry states.
    pub open spec fn spec_same_ticket(a: AppState, b: AppState, t: Seq<char>) -> bool {
        &&& a.spec_has_ticket(t) == b.spec_has_ticket(t)
        &&& (a.spec_has_ticket(t) ==> a.spec_meta(t) == b.spec_meta(t) && a.spec_producer(t)
            == b.spec_producer(t) && a.spec_consumer(t) == b.spec_consumer(t))
    }

    /// Every ticket but `t` reads the same in two registry states.
    pub open spec fn spec_others_same(a: AppState, b: AppState, t: Seq<char>) -> bool {
        forall|u: Seq<char>| u != t ==> #[trigger] AppState::spec_same_ticket(a, b, u)
    }

    /// The configuration part of the state is unchanged.
    pub open spec fn spec_config_same(a: AppState, b: AppState) -> bool {
        &&& a.reg_options == b.reg_options
        &&& a.auth_options == b.auth_options
        &&& a.keys == b.keys
    }

    /// A fresh registry over the two tiers and the key directory.
    pub fn new(reg_options: ServerOptions, auth_options: ServerOptions, keys: KeyManager) -> (r:
        AppState)
        requires
            reg_options.wf(),
            auth_options.wf(),
            keys.wf(),
        ensures
            r.wf(),
            r.files@.len() == 0,
            r.reg_options == reg_options,
            r.auth_options == auth_options,
            r.keys == keys,
    {
        AppState {
            files: Vec::new(),
            uploads: Vec::new(),
            downloads: Vec::new(),
            reg_options,
            auth_options,
            keys,
        }
    }

    fn find_ticket(&self, ticket: &String) -> (r: Option<usize>)
        requires
            self.wf(),
        ensures
            r is Some <==> self.spec_has_ticket(ticket@),
            r matches Some(i) ==> i < self.files@.len() && self.files@[i as int].path@ == ticket@
                && self.spec_index_of(ticket@) == i as int,
    {
        let mut i: usize = 0;
        while i < self.files.len()
            invariant
                self.wf(),
                i <= self.files@.len(),
                forall|k: int| 0 <= k < i ==> self.files@[k].path@ != ticket@,
            decreases self.files@.len() - i,
        {
            if crate::text::str_eq(self.files[i].path.as_str(), ticket.as_str()) {
                proof {
                    lemma_ticket_lookup(*self, i as int);
                }
                return Some(i);
            }
            i = i + 1;
        }
        None
    }
}

impl AppState {
    /// Mints nothing itself: inserts a ready-made ticket record under its
    /// path, with a fresh bounded channel of the public tier's capacity.
    /// Succeeds exactly when the path is not taken; on a collision the
    /// registry is untouched.
    pub fn register_ticket(&mut self, meta: FileMetadata) -> (r: bool)
        requires
            old(self).wf(),
        ensures
            final(self).wf(),
            AppState::spec_config_same(*old(self), *final(self)),
            r == !old(self).spec_has_ticket(meta.path@),
            !r ==> *final(self) == *old(self),
            r ==> {
                &&& final(self).spec_has_ticket(meta.path@)
                &&& final(self).spec_meta(meta.path@) == meta
                &&& (final(self).spec_producer(meta.path@) matches Some(tx)
                    && spec_sender_bound(tx) == old(self).reg_options.cache_size)
                &&& final(self).spec_consumer(meta.path@) is Some
                &&& spec_sender_channel(final(self).spec_producer(meta.path@).unwrap())
                    == spec_receiver_channel(final(self).spec_consumer(meta.path@).unwrap())
                &&& AppState::spec_others_same(*old(self), *final(self), meta.path@)
            },
    {
        if self.find_ticket(&meta.path).is_some() {
            return false;
        }
        let (tx, rx) = channel_pair(self.reg_options.get_cache_size());
        let ghost pre = *self;
        let ghost key = meta.path@;
        self.files.push(meta);
        self.uploads.push(Some(tx));
        self.downloads.push(Some(rx));
        proof {
            let n = pre.files@.len() as int;
            assert forall|i: int, j: int| 0 <= i < j < self.files@.len() implies self.files@[i].path@
                != self.files@[j].path@ by {
                if j < n {
                    assert(pre.files@[i].path@ != pre.files@[j].path@);
                } else {
                    assert(self.files@[j].path@ == key);
                    assert(self.files@[i] == pre.files@[i]);
                }
            }
            lemma_ticket_lookup(*self, n);
            assert forall|u: Seq<char>| u != key implies #[trigger] AppState::spec_same_ticket(
                pre,
                *self,
                u,
            ) by {
                if pre.spec_has_ticket(u) {
                    let k = choose|k: int| 0 <= k < pre.files@.len() && pre.files@[k].path@ == u;
                    assert(self.files@[k].path@ == u);
                    lemma_ticket_lookup(pre, k);
                    lemma_ticket_lookup(*self, k);
                }
                if self.spec_has_ticket(u) {
                    let k = choose|k: int|
                        0 <= k < self.files@.len() && self.files@[k].path@ == u;
                    assert(k != n);
                    assert(pre.files@[k].path@ == u);
                }
            }
        }
        true
    }

    /// Creates a new anonymous ticket: mints a path, an upload key and a
    /// challenge under the public tier, records the file name and the
    /// intended user, and installs a fresh channel. Refuses only if the
    /// minted path collides with a live ticket, leaving the registry
    /// untouched; with UUID path templates such a collision is treated as
    /// out of the question in practice, so callers may answer it as a
    /// refused mint.
    pub fn generate_file_upload(
        &mut self,
        file_name: &String,
        user: Option<&String>,
        now_ms: u64,
    ) -> (r: Option<FileMetadata>)
        requires
            old(self).wf(),
        ensures
            final(self).wf(),
            AppState::spec_config_same(*old(self), *final(self)),
            r is None ==> *final(self) == *old(self),
            r matches Some(m) ==> {
                &&& m.file_name@ == file_name@
                &&& spec_minted(
                    old(self).reg_options.token_format@,
                    m.path@,
                    spec_words_view(old(self).reg_options.words@),
                )
                &&& spec_minted(
                    old(self).reg_options.upload_format@,
                    m.upload_key@,
                    spec_words_view(old(self).reg_options.words@),
                )
                &&& m.upload == FileState::NotStarted
                &&& m.download == FileState::NotStarted
                &&& m.created == now_ms
                &&& m.accessed == now_ms
                &&& m.authenticated == false
                &&& m.compression == Compression::Plain
                &&& m.file_size.uploaded_size == 0
                &&& m.file_size.downloaded_size == 0
                &&& m.file_size.file_size is None
                &&& m.file_size.upload_complete == false
                &&& m.file_size.file_size_trustworthy == true
                &&& (user is Some <==> m.authed_user is Some)
                &&& (user matches Some(u) ==> m.authed_user == Some(*u))
                &&& crate::token::spec_is_uuid_draw(m.challenge@)
                &&& !old(self).spec_has_ticket(m.path@)
                &&& final(self).spec_has_ticket(m.path@)
                &&& final(self).spec_meta(m.path@) == m
                &&& (final(self).spec_producer(m.path@) matches Some(tx) && spec_sender_bound(tx)
                    == old(self).reg_options.cache_size)
                &&& final(self).spec_consumer(m.path@) is Some
                &&& spec_sender_channel(final(self).spec_producer(m.path@).unwrap())
                    == spec_receiver_channel(final(self).spec_consumer(m.path@).unwrap())
                &&& AppState::spec_others_same(*old(self), *final(self), m.path@)
            },
    {
        let mut meta = FileMetadata::new(&self.reg_options, user, now_ms);
        meta.file_name = file_name.clone();
        let copy = meta.clone();
        if self.register_ticket(meta) {
            Some(copy)
        } else {
            None
        }
    }

    /// Reads a ticket's metadata, refreshing its access time; the returned
    /// copy is the record as of this read.
    pub fn get_file_metadata(&mut self, ticket: &String, now_ms: u64) -> (r: Option<
        FileMetadata,
    >)
        requires
            old(self).wf(),
        ensures
            final(self).wf(),
            AppState::spec_config_same(*old(self), *final(self)),
            r is Some <==> old(self).spec_has_ticket(ticket@),
            !old(self).spec_has_ticket(ticket@) ==> *final(self) == *old(self),
            old(self).spec_has_ticket(ticket@) ==> {
                &&& r == Some(
                    (FileMetadata { accessed: now_ms, ..old(self).spec_meta(ticket@) }),
                )
                &&& final(self).spec_has_ticket(ticket@)
                &&& final(self).spec_meta(ticket@) == (FileMetadata {
                    accessed: now_ms,
                    ..old(self).spec_meta(ticket@)
                })
                &&& final(self).spec_producer(ticket@) == old(self).spec_producer(ticket@)
                &&& final(self).spec_consumer(ticket@) == old(self).spec_consumer(ticket@)
                &&& AppState::spec_others_same(*old(self), *final(self), ticket@)
            },
    {
        let idx = match self.find_ticket(ticket) {
            Some(i) => i,
            None => {
                return None;
            },
        };
        let ghost pre = *self;
        let mut m = self.files[idx].clone();
        m.access(now_ms);
        let copy = m.clone();
        self.files.set(idx, m);
        proof {
            assert(self.files@[idx as int].path@ == ticket@);
            assert forall|i: int, j: int| 0 <= i < j < self.files@.len() implies self.files@[i].path@
                != self.files@[j].path@ by {
                assert(pre.files@[i].path@ != pre.files@[j].path@);
            }
            lemma_ticket_lookup(*self, idx as int);
            lemma_frame_at(pre, *self, idx as int);
        }
        Some(copy)
    }
}

impl AppState {
    /// Grabs the upload side of a ticket: on success the upload is locked
    /// and the caller gets a clone of the send end together with the tier
    /// that governs the transfer. Refusals, in the order they are checked:
    /// an unknown ticket, an already locked upload, a wrong key, and a send
    /// end the registry no longer holds.
    pub fn begin_upload(&mut self, ticket: &String, key: &String) -> (r: Result<
        (tokio::sync::mpsc::Sender<Vec<u8>>, ServerOptions),
        UploadError,
    >)
        requires
            old(self).wf(),
        ensures
            final(self).wf(),
            AppState::spec_config_same(*old(self), *final(self)),
            !old(self).spec_has_ticket(ticket@) ==> r == Err::<
                (tokio::sync::mpsc::Sender<Vec<u8>>, ServerOptions),
                UploadError,
            >(UploadError::NotFound) && *final(self) == *old(self),
            old(self).spec_has_ticket(ticket@) && old(self).spec_meta(
                ticket@,
            ).spec_upload_locked() ==> r == Err::<
                (tokio::sync::mpsc::Sender<Vec<u8>>, ServerOptions),
                UploadError,
            >(UploadError::Conflict) && *final(self) == *old(self),
            old(self).spec_has_ticket(ticket@) && !old(self).spec_meta(
                ticket@,
            ).spec_upload_locked() && old(self).spec_meta(ticket@).upload_key@ != key@ ==> r
                == Err::<
                (tokio::sync::mpsc::Sender<Vec<u8>>, ServerOptions),
                UploadError,
            >(UploadError::Forbidden) && *final(self) == *old(self),
            old(self).spec_has_ticket(ticket@) && !old(self).spec_meta(
                ticket@,
            ).spec_upload_locked() && old(self).spec_meta(ticket@).upload_key@ == key@ && old(
                self,
            ).spec_producer(ticket@) is None ==> r == Err::<
                (tokio::sync::mpsc::Sender<Vec<u8>>, ServerOptions),
                UploadError,
            >(UploadError::Gone) && *final(self) == *old(self),
            old(self).spec_has_ticket(ticket@) && !old(self).spec_meta(
                ticket@,
            ).spec_upload_locked() && old(self).spec_meta(ticket@).upload_key@ == key@ && old(
                self,
            ).spec_producer(ticket@) is Some ==> {
                &&& r is Ok
                &&& spec_sender_bound(r.unwrap().0) == spec_sender_bound(
                    old(self).spec_producer(ticket@).unwrap(),
                )
                &&& spec_sender_channel(r.unwrap().0) == spec_sender_channel(
                    old(self).spec_producer(ticket@).unwrap(),
                )
                &&& crate::serveropts::spec_options_equiv(
                    r.unwrap().1,
                    if old(self).spec_meta(ticket@).authenticated {
                        old(self).auth_options
                    } else {
                        old(self).reg_options
                    },
                )
                &&& final(self).spec_has_ticket(ticket@)
                &&& final(self).spec_meta(ticket@) == (FileMetadata {
                    upload: FileState::InProgress,
                    ..old(self).spec_meta(ticket@)
                })
                &&& final(self).spec_producer(ticket@) == old(self).spec_producer(ticket@)
                &&& final(self).spec_consumer(ticket@) == old(self).spec_consumer(ticket@)
                &&& AppState::spec_others_same(*old(self), *final(self), ticket@)
            },
    {
        let idx = match self.find_ticket(ticket) {
            Some(i) => i,
            None => {
                return Err(UploadError::NotFound);
            },
        };
        if self.files[idx].upload_locked() {
            return Err(UploadError::Conflict);
        }
        if !self.files[idx].check_key(key) {
            return Err(UploadError::Forbidden);
        }
        let tx = match &self.uploads[idx] {
            Some(tx) => sender_clone(tx),
            None => {
                return Err(UploadError::Gone);
            },
        };
        let options = if self.files[idx].authenticated() {
            self.auth_options.clone()
        } else {
            self.reg_options.clone()
        };
        let ghost pre = *self;
        let mut m = self.files[idx].clone();
        let ok = m.start_upload(key);
        self.files.set(idx, m);
        proof {
            assert(ok);
            lemma_after_update(pre, *self, idx as int);
        }
        Ok((tx, options))
    }

    /// Takes the download side of a ticket: on success the receive end
    /// moves out of the registry and the download is locked until it
    /// completes or is returned. Refused for an unknown ticket, a locked
    /// download, or a receive end already taken.
    pub fn begin_download(&mut self, ticket: &String) -> (r: Option<
        tokio::sync::mpsc::Receiver<Vec<u8>>,
    >)
        requires
            old(self).wf(),
        ensures
            final(self).wf(),
            AppState::spec_config_same(*old(self), *final(self)),
            !old(self).spec_has_ticket(ticket@) ==> r is None && *final(self) == *old(self),
            old(self).spec_has_ticket(ticket@) && old(self).spec_meta(
                ticket@,
            ).spec_download_locked() ==> r is None && *final(self) == *old(self),
            old(self).spec_has_ticket(ticket@) && !old(self).spec_meta(
                ticket@,
            ).spec_download_locked() && old(self).spec_consumer(ticket@) is None ==> r is None
                && *final(self) == *old(self),
            old(self).spec_has_ticket(ticket@) && !old(self).spec_meta(
                ticket@,
            ).spec_download_locked() && old(self).spec_consumer(ticket@) is Some ==> {
                &&& r == old(self).spec_consumer(ticket@)
                &&& final(self).spec_has_ticket(ticket@)
                &&& final(self).spec_meta(ticket@) == (FileMetadata {
                    download: FileState::InProgress,
                    ..old(self).spec_meta(ticket@)
                })
                &&& final(self).spec_producer(ticket@) == old(self).spec_producer(ticket@)
                &&& final(self).spec_consumer(ticket@) is None
                &&& AppState::spec_others_same(*old(self), *final(self), ticket@)
            },
    {
        let idx = match self.find_ticket(ticket) {
            Some(i) => i,
            None => {
                return None;
            },
        };
        if self.files[idx].download_locked() {
            return None;
        }
        if self.downloads[idx].is_none() {
            return None;
        }
        let ghost pre = *self;
        let mut taken: Option<tokio::sync::mpsc::Receiver<Vec<u8>>> = None;
        self.downloads.set_and_swap(idx, &mut taken);
        let mut m = self.files[idx].clone();
        m.start_download();
        self.files.set(idx, m);
        proof {
            lemma_after_update(pre, *self, idx as int);
        }
        taken
    }

    /// Hands a paused download's receive end back: accepted only while the
    /// download is in progress, which then becomes paused, re-enabling a
    /// later download to resume.
    pub fn return_download(
        &mut self,
        ticket: &String,
        stream: tokio::sync::mpsc::Receiver<Vec<u8>>,
    ) -> (r: bool)
        requires
            old(self).wf(),
        ensures
            final(self).wf(),
            AppState::spec_config_same(*old(self), *final(self)),
            r == (old(self).spec_has_ticket(ticket@) && old(self).spec_meta(
                ticket@,
            ).spec_download_pausable()),
            !r ==> *final(self) == *old(self),
            r ==> {
                &&& final(self).spec_has_ticket(ticket@)
                &&& final(self).spec_meta(ticket@) == (FileMetadata {
                    download: FileState::Paused,
                    ..old(self).spec_meta(ticket@)
                })
                &&& final(self).spec_producer(ticket@) == old(self).spec_producer(ticket@)
                &&& final(self).spec_consumer(ticket@) == Some(stream)
                &&& AppState::spec_others_same(*old(self), *final(self), ticket@)
            },
    {
        let idx = match self.find_ticket(ticket) {
            Some(i) => i,
            None => {
                return false;
            },
        };
        if !self.files[idx].download_pausable() {
            return false;
        }
        let ghost pre = *self;
        let mut m = self.files[idx].clone();
        m.pause_download();
        self.files.set(idx, m);
        self.downloads.set(idx, Some(stream));
        proof {
            lemma_after_update(pre, *self, idx as int);
        }
        true
    }

    /// Partial metadata update: each present argument is written. Setting a
    /// compression also decides whether the declared size can serve as a
    /// `Content-Length`: only the absence of compression is trustworthy.
    pub fn set_metadata(
        &mut self,
        ticket: &String,
        name: Option<String>,
        size: Option<usize>,
        compression: Option<Compression>,
    ) -> (r: bool)
        requires
            old(self).wf(),
        ensures
            final(self).wf(),
            AppState::spec_config_same(*old(self), *final(self)),
            r == old(self).spec_has_ticket(ticket@),
            !r ==> *final(self) == *old(self),
            r ==> {
                &&& final(self).spec_has_ticket(ticket@)
                &&& final(self).spec_meta(ticket@).file_name@ == (match name {
                    Some(n) => n@,
                    None => old(self).spec_meta(ticket@).file_name@,
                })
                &&& final(self).spec_meta(ticket@).file_size.file_size == (match size {
                    Some(v) => Some(v),
                    None => old(self).spec_meta(ticket@).file_size.file_size,
                })
                &&& final(self).spec_meta(ticket@).compression == (match compression {
                    Some(c) => c,
                    None => old(self).spec_meta(ticket@).compression,
                })
                &&& final(self).spec_meta(ticket@).file_size.file_size_trustworthy == (
                match compression {
                    Some(c) => c == Compression::Plain,
                    None => old(self).spec_meta(ticket@).file_size.file_size_trustworthy,
                })
                &&& final(self).spec_meta(ticket@).file_size.uploaded_size == old(
                    self,
                ).spec_meta(ticket@).file_size.uploaded_size
                &&& final(self).spec_meta(ticket@).file_size.downloaded_size == old(
                    self,
                ).spec_meta(ticket@).file_size.downloaded_size
                &&& final(self).spec_meta(ticket@).file_size.upload_complete == old(
                    self,
                ).spec_meta(ticket@).file_size.upload_complete
                &&& final(self).spec_meta(ticket@).path == old(self).spec_meta(ticket@).path
                &&& final(self).spec_meta(ticket@).upload_key == old(self).spec_meta(
                    ticket@,
                ).upload_key
                &&& final(self).spec_meta(ticket@).upload == old(self).spec_meta(
                    ticket@,
                ).upload
                &&& final(self).spec_meta(ticket@).download == old(self).spec_meta(
                    ticket@,
                ).download
                &&& final(self).spec_meta(ticket@).created == old(self).spec_meta(
                    ticket@,
                ).created
                &&& final(self).spec_meta(ticket@).accessed == old(self).spec_meta(
                    ticket@,
                ).accessed
                &&& final(self).spec_meta(ticket@).authed_user == old(self).spec_meta(
                    ticket@,
                ).authed_user
                &&& final(self).spec_meta(ticket@).challenge == old(self).spec_meta(
                    ticket@,
                ).challenge
                &&& final(self).spec_meta(ticket@).authenticated == old(self).spec_meta(
                    ticket@,
                ).authenticated
                &&& final(self).spec_producer(ticket@) == old(self).spec_producer(ticket@)
                &&& final(self).spec_consumer(ticket@) == old(self).spec_consumer(ticket@)
                &&& AppState::spec_others_same(*old(self), *final(self), ticket@)
            },
    {
        let idx = match self.find_ticket(ticket) {
            Some(i) => i,
            None => {
                return false;
            },
        };
        let ghost pre = *self;
        let mut m = self.files[idx].clone();
        match name {
            Some(n) => {
                m.file_name = n;
            },
            None => {},
        }
        match size {
            Some(v) => {
                m.file_size.set_file_size(v);
            },
            None => {},
        }
        match compression {
            Some(c) => {
                m.set_compression(c);
            },
            None => {},
        }
        self.files.set(idx, m);
        proof {
            lemma_after_update(pre, *self, idx as int);
        }
        true
    }

    /// Adds to a ticket's uploaded and downloaded byte counts, saturating
    /// at the machine limit, and reports the new totals. The counters never
    /// decrease.
    pub fn increase_upload_download_numbers(
        &mut self,
        ticket: &String,
        up: usize,
        down: usize,
    ) -> (r: Option<(usize, usize)>)
        requires
            old(self).wf(),
        ensures
            final(self).wf(),
            AppState::spec_config_same(*old(self), *final(self)),
            r is Some <==> old(self).spec_has_ticket(ticket@),
            !old(self).spec_has_ticket(ticket@) ==> *final(self) == *old(self),
            old(self).spec_has_ticket(ticket@) ==> {
                &&& final(self).spec_has_ticket(ticket@)
                &&& final(self).spec_meta(ticket@).file_size.uploaded_size == if old(
                    self,
                ).spec_meta(ticket@).file_size.uploaded_size + up <= usize::MAX {
                    old(self).spec_meta(ticket@).file_size.uploaded_size + up
                } else {
                    usize::MAX as int
                }
                &&& final(self).spec_meta(ticket@).file_size.downloaded_size == if old(
                    self,
                ).spec_meta(ticket@).file_size.downloaded_size + down <= usize::MAX {
                    old(self).spec_meta(ticket@).file_size.downloaded_size + down
                } else {
                    usize::MAX as int
                }
                &&& final(self).spec_meta(ticket@).file_size.uploaded_size >= old(
                    self,
                ).spec_meta(ticket@).file_size.uploaded_size
                &&& final(self).spec_meta(ticket@).file_size.downloaded_size >= old(
                    self,
                ).spec_meta(ticket@).file_size.downloaded_size
                &&& r == Some(
                    (
                        final(self).spec_meta(ticket@).file_size.uploaded_size,
                        final(self).spec_meta(ticket@).file_size.downloaded_size,
                    ),
                )
                &&& final(self).spec_meta(ticket@) == (FileMetadata {
                    file_size: final(self).spec_meta(ticket@).file_size,
                    ..old(self).spec_meta(ticket@)
                })
                &&& final(self).spec_meta(ticket@).file_size == (FileSize {
                    uploaded_size: final(self).spec_meta(ticket@).file_size.uploaded_size,
                    downloaded_size: final(self).spec_meta(ticket@).file_size.downloaded_size,
                    ..old(self).spec_meta(ticket@).file_size
                })
                &&& final(self).spec_producer(ticket@) == old(self).spec_producer(ticket@)
                &&& final(self).spec_consumer(ticket@) == old(self).spec_consumer(ticket@)
                &&& AppState::spec_others_same(*old(self), *final(self), ticket@)
            },
    {
        let idx = match self.find_ticket(ticket) {
            Some(i) => i,
            None => {
                return None;
            },
        };
        let ghost pre = *self;
        let mut m = self.files[idx].clone();
        m.file_size.increase_upload(up);
        m.file_size.increase_download(down);
        let uploaded = m.file_size.get_uploaded_size();
        let downloaded = m.file_size.get_download_progress();
        self.files.set(idx, m);
        proof {
            lemma_after_update(pre, *self, idx as int);
        }
        Some((uploaded, downloaded))
    }

    /// Marks both sides of a ticket complete: the terminal state after the
    /// consumer has read through the sentinel.
    pub fn end(&mut self, ticket: &String) -> (r: bool)
        requires
            old(self).wf(),
        ensures
            final(self).wf(),
            AppState::spec_config_same(*old(self), *final(self)),
            r == old(self).spec_has_ticket(ticket@),
            !r ==> *final(self) == *old(self),
            r ==> {
                &&& final(self).spec_has_ticket(ticket@)
                &&& final(self).spec_meta(ticket@) == (FileMetadata {
                    upload: FileState::Complete,
                    download: FileState::Complete,
                    file_size: (FileSize {
                        upload_complete: true,
                        ..old(self).spec_meta(ticket@).file_size
                    }),
                    ..old(self).spec_meta(ticket@)
                })
                &&& final(self).spec_producer(ticket@) == old(self).spec_producer(ticket@)
                &&& final(self).spec_consumer(ticket@) == old(self).spec_consumer(ticket@)
                &&& AppState::spec_others_same(*old(self), *final(self), ticket@)
            },
    {
        let idx = match self.find_ticket(ticket) {
            Some(i) => i,
            None => {
                return false;
            },
        };
        let ghost pre = *self;
        let mut m = self.files[idx].clone();
        m.end_download();
        m.end_upload();
        self.files.set(idx, m);
        proof {
            lemma_after_update(pre, *self, idx as int);
        }
        true
    }

    /// Marks a ticket's upload complete; its uploaded byte count is final
    /// from here on.
    pub fn end_upload(&mut self, ticket: &String) -> (r: bool)
        requires
            old(self).wf(),
        ensures
            final(self).wf(),
            AppState::spec_config_same(*old(self), *final(self)),
            r == old(self).spec_has_ticket(ticket@),
            !r ==> *final(self) == *old(self),
            r ==> {
                &&& final(self).spec_has_ticket(ticket@)
                &&& final(self).spec_meta(ticket@) == (FileMetadata {
                    upload: FileState::Complete,
                    file_size: (FileSize {
                        upload_complete: true,
                        ..old(self).spec_meta(ticket@).file_size
                    }),
                    ..old(self).spec_meta(ticket@)
                })
                &&& final(self).spec_producer(ticket@) == old(self).spec_producer(ticket@)
                &&& final(self).spec_consumer(ticket@) == old(self).spec_consumer(ticket@)
                &&& AppState::spec_others_same(*old(self), *final(self), ticket@)
            },
    {
        let idx = match self.find_ticket(ticket) {
            Some(i) => i,
            None => {
                return false;
            },
        };
        let ghost pre = *self;
        let mut m = self.files[idx].clone();
        m.end_upload();
        self.files.set(idx, m);
        proof {
            lemma_after_update(pre, *self, idx as int);
        }
        true
    }
}

impl AppState {
    /// Removes a ticket outright. Dropping the stored channel ends closes
    /// the channel, which unblocks and fails any party still attached to
    /// it. Returns whether the ticket existed.
    pub fn delete(&mut self, ticket: &String) -> (r: bool)
        requires
            old(self).wf(),
        ensures
            final(self).wf(),
            AppState::spec_config_same(*old(self), *final(self)),
            r == old(self).spec_has_ticket(ticket@),
            !r ==> *final(self) == *old(self),
            !final(self).spec_has_ticket(ticket@),
            AppState::spec_others_same(*old(self), *final(self), ticket@),
            final(self).files@.len() == old(self).files@.len() - (if r {
                1int
            } else {
                0int
            }),
    {
        let idx = match self.find_ticket(ticket) {
            Some(i) => i,
            None => {
                proof {
                    assert forall|u: Seq<char>| u != ticket@ implies
                        #[trigger] AppState::spec_same_ticket(*old(self), *self, u) by {}
                }
                return false;
            },
        };
        let ghost pre = *self;
        let _ = self.files.swap_remove(idx);
        let _ = self.uploads.swap_remove(idx);
        let _ = self.downloads.swap_remove(idx);
        proof {
            let n = pre.files@.len() as int;
            assert forall|a: int, b: int| 0 <= a < b < self.files@.len() implies
                self.files@[a].path@ != self.files@[b].path@ by {
                let pa: int = if a == idx { n - 1 } else { a };
                let pb: int = if b == idx { n - 1 } else { b };
                assert(self.files@[a] == pre.files@[pa]);
                assert(self.files@[b] == pre.files@[pb]);
            }
            assert(!self.spec_has_ticket(ticket@)) by {
                if self.spec_has_ticket(ticket@) {
                    let k = choose|k: int|
                        0 <= k < self.files@.len() && self.files@[k].path@ == ticket@;
                    let pk: int = if k == idx { n - 1 } else { k };
                    assert(pre.files@[pk].path@ == ticket@);
                    assert(pk == idx);
                }
            }
            assert forall|u: Seq<char>| u != ticket@ implies
                #[trigger] AppState::spec_same_ticket(pre, *self, u) by {
                if pre.spec_has_ticket(u) {
                    let k = choose|k: int|
                        0 <= k < pre.files@.len() && pre.files@[k].path@ == u;
                    assert(k != idx);
                    let nk: int = if k == n - 1 { idx as int } else { k };
                    if k == n - 1 {
                        assert(self.files@[nk] == pre.files@[k]);
                    } else {
                        assert(self.files@[nk] == pre.files@[k]);
                    }
                    lemma_ticket_lookup(pre, k);
                    lemma_ticket_lookup(*self, nk);
                }
                if self.spec_has_ticket(u) {
                    let k = choose|k: int|
                        0 <= k < self.files@.len() && self.files@[k].path@ == u;
                    let pk: int = if k == idx { n - 1 } else { k };
                    assert(self.files@[k] == pre.files@[pk]);
                    assert(pre.spec_has_ticket(u));
                }
            }
        }
        true
    }
}

impl AppState {
    /// Whether the culler may drop a ticket now: it has been idle longer
    /// than its tier's cull timeout, the tier chosen by its own
    /// authentication flag, and it is still waiting (either side has not
    /// started).
    pub open spec fn spec_cullable(&self, m: FileMetadata, now_ms: u64) -> bool {
        let limit = if m.authenticated {
            self.auth_options.cull_time
        } else {
            self.reg_options.cull_time
        };
        let age: int = if now_ms >= m.accessed {
            now_ms - m.accessed
        } else {
            0
        };
        age > limit && m.spec_is_in_waiting_state()
    }

    /// Drops every cullable ticket, leaving all others untouched, and
    /// reports how many were dropped. Tickets where a transfer has begun
    /// are never culled, however old.
    pub fn cull(&mut self, now_ms: u64) -> (r: usize)
        requires
            old(self).wf(),
        ensures
            final(self).wf(),
            AppState::spec_config_same(*old(self), *final(self)),
            forall|t: Seq<char>|
                #[trigger] final(self).spec_has_ticket(t) <==> (old(self).spec_has_ticket(t)
                    && !old(self).spec_cullable(old(self).spec_meta(t), now_ms)),
            forall|t: Seq<char>|
                #[trigger] final(self).spec_has_ticket(t) ==> final(self).spec_meta(t) == old(
                    self,
                ).spec_meta(t) && final(self).spec_producer(t) == old(self).spec_producer(t)
                    && final(self).spec_consumer(t) == old(self).spec_consumer(t),
            r == old(self).files@.len() - final(self).files@.len(),
    {
        let ghost snap = *self;
        let mut doomed: Vec<String> = Vec::new();
        let ghost mut idxs: Seq<int> = Seq::empty();
        let mut i: usize = 0;
        while i < self.files.len()
            invariant
                self.wf(),
                *self == snap,
                i <= self.files@.len(),
                idxs.len() == doomed@.len(),
                forall|j: int|
                    0 <= j < idxs.len() ==> 0 <= #[trigger] idxs[j] < i && self.files@[idxs[j]].path@
                        == doomed@[j]@ && self.spec_cullable(self.files@[idxs[j]], now_ms),
                forall|j1: int, j2: int| 0 <= j1 < j2 < idxs.len() ==> idxs[j1] < idxs[j2],
                forall|k: int|
                    0 <= k < i && self.spec_cullable(#[trigger] self.files@[k], now_ms)
                        ==> exists|j: int| 0 <= j < idxs.len() && idxs[j] == k,
            decreases self.files@.len() - i,
        {
            let limit = if self.files[i].authenticated() {
                self.auth_options.get_cull_time()
            } else {
                self.reg_options.get_cull_time()
            };
            if self.files[i].age(now_ms) > limit && self.files[i].is_in_waiting_state() {
                let ghost pre_doomed = doomed@;
                let ghost pre_idxs = idxs;
                doomed.push(self.files[i].path.clone());
                proof {
                    idxs = idxs.push(i as int);
                    assert(self.spec_cullable(self.files@[i as int], now_ms));
                    assert forall|j: int|
                        0 <= j < idxs.len() implies 0 <= #[trigger] idxs[j] < i + 1
                        && self.files@[idxs[j]].path@ == doomed@[j]@ && self.spec_cullable(
                        self.files@[idxs[j]],
                        now_ms,
                    ) by {
                        if j < pre_idxs.len() {
                            assert(idxs[j] == pre_idxs[j]);
                            assert(doomed@[j] == pre_doomed[j]);
                        } else {
                            assert(idxs[j] == i as int);
                        }
                    }
                    assert(idxs[idxs.len() - 1] == i as int);
                    assert forall|k: int|
                        0 <= k < i + 1 && self.spec_cullable(#[trigger] self.files@[k], now_ms)
                        implies exists|j: int| 0 <= j < idxs.len() && idxs[j] == k by {
                        if k < i {
                            let j0 = choose|j0: int|
                                0 <= j0 < pre_idxs.len() && pre_idxs[j0] == k;
                            assert(idxs[j0] == k);
                        } else {
                            assert(idxs[idxs.len() - 1] == k);
                        }
                    }
                }
            } else {
                proof {
                    assert(!self.spec_cullable(self.files@[i as int], now_ms));
                }
            }
            i = i + 1;
        }
        let total = doomed.len();
        let ghost n = snap.files@.len() as int;
        let mut j: usize = 0;
        while j < total
            invariant
                self.wf(),
                snap.wf(),
                n == snap.files@.len(),
                AppState::spec_config_same(snap, *self),
                total == doomed@.len(),
                j <= total,
                idxs.len() == doomed@.len(),
                forall|jj: int|
                    0 <= jj < idxs.len() ==> 0 <= #[trigger] idxs[jj] < n && snap.files@[idxs[jj]].path@
                        == doomed@[jj]@ && snap.spec_cullable(snap.files@[idxs[jj]], now_ms),
                forall|j1: int, j2: int| 0 <= j1 < j2 < idxs.len() ==> idxs[j1] < idxs[j2],
                forall|k: int|
                    0 <= k < n && snap.spec_cullable(#[trigger] snap.files@[k], now_ms)
                        ==> exists|jj: int| 0 <= jj < idxs.len() && idxs[jj] == k,
                forall|t: Seq<char>|
                    #[trigger] self.spec_has_ticket(t) <==> (snap.spec_has_ticket(t) && !(
                    exists|jj: int| 0 <= jj < j && doomed@[jj]@ == t)),
                forall|t: Seq<char>|
                    #[trigger] self.spec_has_ticket(t) ==> self.spec_meta(t) == snap.spec_meta(t)
                        && self.spec_producer(t) == snap.spec_producer(t) && self.spec_consumer(
                        t,
                    ) == snap.spec_consumer(t),
                self.files@.len() == n - j,
            decreases total - j,
        {
            let ghost mid = *self;
            let ghost t = doomed@[j as int]@;
            proof {
                lemma_ticket_lookup(snap, idxs[j as int]);
                assert(snap.spec_has_ticket(t));
                assert forall|jj: int| 0 <= jj < j implies doomed@[jj]@ != t by {
                    assert(idxs[jj] < idxs[j as int]);
                    assert(snap.files@[idxs[jj]].path@ == doomed@[jj]@);
                }
                assert(mid.spec_has_ticket(t));
            }
            let ok = self.delete(&doomed[j]);
            proof {
                assert(ok);
                assert forall|t2: Seq<char>| #[trigger] self.spec_has_ticket(t2) implies (
                snap.spec_has_ticket(t2) && !(exists|jj: int|
                    0 <= jj < j + 1 && doomed@[jj]@ == t2)) by {
                    assert(t2 != t);
                    assert(AppState::spec_same_ticket(mid, *self, t2));
                    assert(mid.spec_has_ticket(t2));
                }
                assert forall|t2: Seq<char>|
                    snap.spec_has_ticket(t2) && !(exists|jj: int|
                        0 <= jj < j + 1 && doomed@[jj]@ == t2) implies #[trigger] self.spec_has_ticket(
                    t2,
                ) by {
                    assert(mid.spec_has_ticket(t2));
                    assert(t2 != t);
                    assert(AppState::spec_same_ticket(mid, *self, t2));
                }
                assert forall|t2: Seq<char>| #[trigger] self.spec_has_ticket(t2) implies
                    self.spec_meta(t2) == snap.spec_meta(t2) && self.spec_producer(t2)
                        == snap.spec_producer(t2) && self.spec_consumer(t2) == snap.spec_consumer(
                        t2,
                    ) by {
                    assert(t2 != t);
                    assert(AppState::spec_same_ticket(mid, *self, t2));
                    assert(mid.spec_has_ticket(t2));
                }
            }
            j = j + 1;
        }
        proof {
            assert forall|t: Seq<char>| #[trigger] self.spec_has_ticket(t) implies (
            snap.spec_has_ticket(t) && !snap.spec_cullable(snap.spec_meta(t), now_ms)) by {
                assert(snap.spec_has_ticket(t));
                if snap.spec_cullable(snap.spec_meta(t), now_ms) {
                    let k = snap.spec_index_of(t);
                    lemma_ticket_lookup(snap, k);
                    assert(snap.spec_cullable(snap.files@[k], now_ms));
                    let jj = choose|jj: int| 0 <= jj < idxs.len() && idxs[jj] == k;
                    assert(doomed@[jj]@ == t);
                }
            }
            assert forall|t: Seq<char>|
                snap.spec_has_ticket(t) && !snap.spec_cullable(snap.spec_meta(t), now_ms)
                implies #[trigger] self.spec_has_ticket(t) by {
                if exists|jj: int| 0 <= jj < total && doomed@[jj]@ == t {
                    let jj = choose|jj: int| 0 <= jj < total && doomed@[jj]@ == t;
                    lemma_ticket_lookup(snap, idxs[jj]);
                    assert(snap.spec_meta(t) == snap.files@[idxs[jj]]);
                    assert(snap.spec_cullable(snap.spec_meta(t), now_ms));
                }
            }
        }
        total
    }
}

impl AppState {
    /// Attempts the two-tier upgrade of a ticket. The ticket must name an
    /// intended user; an already authenticated ticket is returned as it is.
    /// Otherwise every challenge response is tried against the user's keys:
    /// if none verifies, nothing changes and nothing is returned. On a
    /// verified response the ticket is re-issued under the authenticated
    /// tier — marked authenticated, its path and upload key rotated under
    /// the tier's templates — and its channel is replaced by one of the
    /// authenticated capacity if the old send end was still unused (its
    /// free capacity matching the public bound), else carried over; a
    /// collision of the rotated path with a live ticket aborts the upgrade
    /// with nothing changed. The rotated path and key are independent
    /// fresh draws: the contract fixes their templates but does not force
    /// them to differ from the old ones, which only a draw repeating the
    /// old text could violate.
    pub fn upgrade(
        &mut self,
        ticket: &String,
        challenge_responses: &Vec<String>,
        now_ms: u64,
    ) -> (r: Option<FileMetadata>)
        requires
            old(self).wf(),
        ensures
            final(self).wf(),
            AppState::spec_config_same(*old(self), *final(self)),
            !old(self).spec_has_ticket(ticket@) ==> r is None && *final(self) == *old(self),
            old(self).spec_has_ticket(ticket@) && old(self).spec_meta(ticket@).authed_user
                is None ==> r is None && *final(self) == *old(self),
            old(self).spec_has_ticket(ticket@) && old(self).spec_meta(ticket@).authed_user
                is Some && old(self).spec_meta(ticket@).authenticated ==> r == Some(
                old(self).spec_meta(ticket@),
            ) && *final(self) == *old(self),
            old(self).spec_has_ticket(ticket@) && old(self).spec_meta(ticket@).authed_user
                is Some && !old(self).spec_meta(ticket@).authenticated && (forall|q: int|
                0 <= q < challenge_responses@.len() ==> !old(self).keys.spec_verifies(
                    old(self).spec_meta(ticket@).authed_user.unwrap()@,
                    old(self).spec_meta(ticket@).challenge@,
                    challenge_responses@[q]@,
                )) ==> r is None && *final(self) == *old(self),
            old(self).spec_has_ticket(ticket@) && old(self).spec_meta(ticket@).authed_user
                is Some && !old(self).spec_meta(ticket@).authenticated && (exists|q: int|
                0 <= q < challenge_responses@.len() && old(self).keys.spec_verifies(
                    old(self).spec_meta(ticket@).authed_user.unwrap()@,
                    old(self).spec_meta(ticket@).challenge@,
                    challenge_responses@[q]@,
                )) ==> ((r is None && *final(self) == *old(self)) || (r matches Some(m) && {
                &&& m.authenticated == true
                &&& spec_minted(
                    old(self).auth_options.token_format@,
                    m.path@,
                    spec_words_view(old(self).auth_options.words@),
                )
                &&& spec_minted(
                    old(self).auth_options.upload_format@,
                    m.upload_key@,
                    spec_words_view(old(self).auth_options.words@),
                )
                &&& m.accessed == now_ms
                &&& m.file_name == old(self).spec_meta(ticket@).file_name
                &&& m.file_size == old(self).spec_meta(ticket@).file_size
                &&& m.compression == old(self).spec_meta(ticket@).compression
                &&& m.upload == old(self).spec_meta(ticket@).upload
                &&& m.download == old(self).spec_meta(ticket@).download
                &&& m.created == old(self).spec_meta(ticket@).created
                &&& m.authed_user == old(self).spec_meta(ticket@).authed_user
                &&& m.challenge == old(self).spec_meta(ticket@).challenge
                &&& final(self).spec_has_ticket(m.path@)
                &&& final(self).spec_meta(m.path@) == m
                &&& (m.path@ != ticket@ ==> !final(self).spec_has_ticket(ticket@))
                &&& ((final(self).spec_producer(m.path@) == old(self).spec_producer(ticket@)
                    && final(self).spec_consumer(m.path@) == old(self).spec_consumer(ticket@))
                    || ((final(self).spec_producer(m.path@) matches Some(tx)
                    && spec_sender_bound(tx) == old(self).auth_options.cache_size)
                    && final(self).spec_consumer(m.path@) is Some))
                &&& (forall|u: Seq<char>|
                    u != ticket@ && u != m.path@ ==> #[trigger] AppState::spec_same_ticket(
                        *old(self),
                        *final(self),
                        u,
                    ))
            })),
    {
        let idx = match self.find_ticket(ticket) {
            Some(i) => i,
            None => {
                return None;
            },
        };
        let (already, user, challenge) = match self.files[idx].get_challenge_details() {
            Some(d) => (d.0, d.1.clone(), d.2.clone()),
            None => {
                return None;
            },
        };
        if already {
            return Some(self.files[idx].clone());
        }
        let mut found = false;
        let mut q: usize = 0;
        while q < challenge_responses.len()
            invariant
                self.keys.wf(),
                q <= challenge_responses@.len(),
                found == (exists|p: int|
                    0 <= p < q && self.keys.spec_verifies(
                        user@,
                        challenge@,
                        challenge_responses@[p]@,
                    )),
            decreases challenge_responses@.len() - q,
        {
            if !found {
                if self.keys.verify(&user, &challenge, &challenge_responses[q]) {
                    found = true;
                }
            }
            q = q + 1;
        }
        if !found {
            return None;
        }
        let mut m = self.files[idx].clone();
        m.upgrade(&self.auth_options, now_ms);
        let replace = match &self.uploads[idx] {
            Some(tx) => sender_capacity(tx) == self.reg_options.get_cache_size(),
            None => false,
        };
        let copy = m.clone();
        if self.apply_upgrade(ticket, m, replace) {
            Some(copy)
        } else {
            None
        }
    }

    /// Installs a re-issued record for a live ticket, the second half of an
    /// upgrade: the entry keyed by `ticket` is replaced by `new_meta`,
    /// re-keyed under its path, and the ticket's channel is replaced by a
    /// fresh one of the authenticated tier's capacity when
    /// `replace_channel` is set, else carried over. Succeeds exactly when
    /// the ticket is live and the new path is the old one or free; on a
    /// refusal nothing changes.
    pub fn apply_upgrade(
        &mut self,
        ticket: &String,
        new_meta: FileMetadata,
        replace_channel: bool,
    ) -> (r: bool)
        requires
            old(self).wf(),
        ensures
            final(self).wf(),
            AppState::spec_config_same(*old(self), *final(self)),
            r == (old(self).spec_has_ticket(ticket@) && (new_meta.path@ == ticket@ || !old(
                self,
            ).spec_has_ticket(new_meta.path@))),
            !r ==> *final(self) == *old(self),
            r ==> {
                &&& final(self).spec_has_ticket(new_meta.path@)
                &&& final(self).spec_meta(new_meta.path@) == new_meta
                &&& (new_meta.path@ != ticket@ ==> !final(self).spec_has_ticket(ticket@))
                &&& (replace_channel ==> (final(self).spec_producer(new_meta.path@)
                    matches Some(tx) && spec_sender_bound(tx) == old(self).auth_options.cache_size)
                    && final(self).spec_consumer(new_meta.path@) is Some
                    && spec_sender_channel(final(self).spec_producer(new_meta.path@).unwrap())
                    == spec_receiver_channel(final(self).spec_consumer(new_meta.path@).unwrap()))
                &&& (!replace_channel ==> final(self).spec_producer(new_meta.path@) == old(
                    self,
                ).spec_producer(ticket@) && final(self).spec_consumer(new_meta.path@) == old(
                    self,
                ).spec_consumer(ticket@))
                &&& (forall|u: Seq<char>|
                    u != ticket@ && u != new_meta.path@ ==> #[trigger] AppState::spec_same_ticket(
                        *old(self),
                        *final(self),
                        u,
                    ))
            },
    {
        let idx = match self.find_ticket(ticket) {
            Some(i) => i,
            None => {
                return false;
            },
        };
        match self.find_ticket(&new_meta.path) {
            Some(k) => {
                if k != idx {
                    proof {
                        lemma_ticket_lookup(*self, idx as int);
                    }
                    return false;
                }
            },
            None => {},
        }
        let ghost pre = *self;
        let ghost old_path = pre.files@[idx as int].path@;
        let ghost new_path = new_meta.path@;
        if replace_channel {
            let (ntx, nrx) = channel_pair(self.auth_options.get_cache_size());
            self.uploads.set(idx, Some(ntx));
            self.downloads.set(idx, Some(nrx));
        }
        self.files.set(idx, new_meta);
        proof {
            assert(pre.spec_index_of(old_path) == idx as int) by {
                lemma_ticket_lookup(pre, idx as int);
            }
            assert forall|a: int, b: int| 0 <= a < b < self.files@.len() implies
                self.files@[a].path@ != self.files@[b].path@ by {
                if a != idx && b != idx {
                    assert(pre.files@[a].path@ != pre.files@[b].path@);
                } else {
                    let other: int = if a == idx {
                        b
                    } else {
                        a
                    };
                    assert(self.files@[other] == pre.files@[other]);
                    if pre.files@[other].path@ == new_path {
                        lemma_ticket_lookup(pre, other);
                        assert(pre.spec_has_ticket(new_path));
                        assert(pre.spec_index_of(new_path) == other);
                    }
                }
            }
            lemma_ticket_lookup(*self, idx as int);
            if new_path != old_path {
                assert(!self.spec_has_ticket(old_path)) by {
                    if self.spec_has_ticket(old_path) {
                        let k = choose|k: int|
                            0 <= k < self.files@.len() && self.files@[k].path@ == old_path;
                        assert(k != idx);
                        assert(pre.files@[k].path@ == old_path);
                        lemma_ticket_lookup(pre, k);
                    }
                }
            }
            assert forall|u: Seq<char>| u != old_path && u != new_path implies
                #[trigger] AppState::spec_same_ticket(pre, *self, u) by {
                if pre.spec_has_ticket(u) {
                    let k = choose|k: int|
                        0 <= k < pre.files@.len() && pre.files@[k].path@ == u;
                    assert(k != idx);
                    assert(self.files@[k].path@ == u);
                    lemma_ticket_lookup(pre, k);
                    lemma_ticket_lookup(*self, k);
                }
                if self.spec_has_ticket(u) {
                    let k = choose|k: int|
                        0 <= k < self.files@.len() && self.files@[k].path@ == u;
                    assert(k != idx);
                    assert(pre.files@[k].path@ == u);
                }
            }
        }
        true
    }
}

/// After an in-place update at position `i` that keeps the path there, the
/// state is still well formed, the ticket at `i` is still found at `i`, and
/// every other ticket reads unchanged.
proof fn lemma_after_update(pre: AppState, post: AppState, i: int)
    requires
        pre.wf(),
        0 <= i < pre.files@.len(),
        post.files@.len() == pre.files@.len(),
        post.uploads@.len() == pre.uploads@.len(),
        post.downloads@.len() == pre.downloads@.len(),
        post.files@[i].path@ == pre.files@[i].path@,
        forall|k: int|
            0 <= k < pre.files@.len() && k != i ==> post.files@[k] == pre.files@[k]
                && post.uploads@[k] == pre.uploads@[k] && post.downloads@[k]
                == pre.downloads@[k],
        post.reg_options == pre.reg_options,
        post.auth_options == pre.auth_options,
        post.keys == pre.keys,
    ensures
        post.wf(),
        AppState::spec_others_same(pre, post, pre.files@[i].path@),
        pre.spec_index_of(pre.files@[i].path@) == i,
        post.spec_has_ticket(pre.files@[i].path@),
        post.spec_index_of(pre.files@[i].path@) == i,
{
    assert forall|a: int, b: int| 0 <= a < b < post.files@.len() implies post.files@[a].path@
        != post.files@[b].path@ by {
        assert(pre.files@[a].path@ != pre.files@[b].path@);
    }
    lemma_ticket_lookup(pre, i);
    lemma_ticket_lookup(post, i);
    lemma_frame_at(pre, post, i);
}

/// Two well-formed states of equal length that agree at every position but
/// `i`, where at least the path agrees, read the same at every ticket other
/// than the one at `i`.
proof fn lemma_frame_at(a: AppState, b: AppState, i: int)
    requires
        a.wf(),
        b.wf(),
        0 <= i < a.files@.len(),
        a.files@.len() == b.files@.len(),
        b.files@[i].path@ == a.files@[i].path@,
        forall|k: int|
            0 <= k < a.files@.len() && k != i ==> a.files@[k] == b.files@[k] && a.uploads@[k]
                == b.uploads@[k] && a.downloads@[k] == b.downloads@[k],
    ensures
        AppState::spec_others_same(a, b, a.files@[i].path@),
{
    assert forall|u: Seq<char>| u != a.files@[i].path@ implies #[trigger] AppState::spec_same_ticket(
        a,
        b,
        u,
    ) by {
        if a.spec_has_ticket(u) {
            let k = choose|k: int| 0 <= k < a.files@.len() && a.files@[k].path@ == u;
            assert(k != i);
            assert(b.files@[k].path@ == u);
            lemma_ticket_lookup(a, k);
            lemma_ticket_lookup(b, k);
        }
        if b.spec_has_ticket(u) {
            let k = choose|k: int| 0 <= k < b.files@.len() && b.files@[k].path@ == u;
            assert(k != i);
            assert(a.files@[k].path@ == u);
        }
    }
}

/// Under uniqueness of paths, the chosen index for a present path is the
/// index where it stands.
proof fn lemma_ticket_lookup(s: AppState, i: int)
    requires
        s.wf(),
        0 <= i < s.files@.len(),
    ensures
        s.spec_has_ticket(s.files@[i].path@),
        s.spec_index_of(s.files@[i].path@) == i,
{
    assert(s.spec_has_ticket(s.files@[i].path@));
    let k = choose|k: int| 0 <= k < s.files@.len() && s.files@[k].path@ == s.files@[i].path@;
    assert(k == i);
}

} // verus!
