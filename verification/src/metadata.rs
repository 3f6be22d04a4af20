//! Ticket metadata: the record the registry keeps for every pending
//! transfer, its two independent state machines gating upload and download
//! exclusivity, the byte counters behind progress reporting, and the
//! redaction applied before metadata leaves the server.

use vstd::prelude::*;
use vstd::string::StringExecFns;
use crate::compression::Compression;
use crate::serveropts::ServerOptions;
use crate::token::{generate_challenge, spec_is_uuid_draw, spec_minted, spec_words_view};
use crate::text::{spec_decimal, decimal_string};

verus! {

/// One side of a transfer: its upload or its download.
///
/// Upload may only run `NotStarted -> InProgress -> Complete`. Download may
/// additionally pause: `InProgress -> Paused -> InProgress`.
#[derive(Debug, Clone, Copy, PartialEq, Eq, Structural)]
pub enum FileState {
    NotStarted,
    InProgress,
    Paused,
    Complete,
}

/// The transition relation of the upload state machine.
pub open spec fn spec_upload_step(pre: FileState, post: FileState) -> bool {
    ||| (pre == FileState::NotStarted && post == FileState::InProgress)
    ||| (pre == FileState::InProgress && post == FileState::Complete)
}

/// The transition relation of the download state machine.
pub open spec fn spec_download_step(pre: FileState, post: FileState) -> bool {
    ||| (pre == FileState::NotStarted && post == FileState::InProgress)
    ||| (pre == FileState::InProgress && post == FileState::Paused)
    ||| (pre == FileState::Paused && post == FileState::InProgress)
    ||| (pre == FileState::InProgress && post == FileState::Complete)
}

/// Byte accounting for one ticket: the declared size, the running uploaded
/// and downloaded counts, and the flags deciding which of them the download
/// side may advertise as `Content-Length`.
#[derive(Debug, Clone, Copy)]
pub struct FileSize {
    /// Size declared by the sender, before any client-side compression.
    pub file_size: Option<usize>,
    /// Bytes uploaded so far, after any client-side compression.
    pub uploaded_size: usize,
    /// Bytes downloaded so far.
    pub downloaded_size: usize,
    /// Whether the upload has finished, making `uploaded_size` final.
    pub upload_complete: bool,
    /// Whether the declared size describes the bytes on the wire; false
    /// whenever a compression is in effect.
    pub file_size_trustworthy: bool,
}

impl FileSize {
    pub fn new(trusted: bool) -> (r: FileSize)
        ensures
            r.file_size is None,
            r.uploaded_size == 0,
            r.downloaded_size == 0,
            r.upload_complete == false,
            r.file_size_trustworthy == trusted,
    {
        FileSize {
            file_size: None,
            uploaded_size: 0,
            downloaded_size: 0,
            upload_complete: false,
            file_size_trustworthy: trusted,
        }
    }

    pub fn set_file_size(&mut self, size: usize)
        ensures
            *final(self) == (FileSize { file_size: Some(size), ..*old(self) }),
    {
        self.file_size = Some(size);
    }

    /// The effective `Content-Length`: the declared size when trustworthy,
    /// else the uploaded count once the upload is complete, else unknown.
    pub fn get_content_length(&self) -> (r: Option<usize>)
        ensures
            self.file_size_trustworthy ==> r == self.file_size,
            !self.file_size_trustworthy && self.upload_complete ==> r == Some(
                self.uploaded_size,
            ),
            !self.file_size_trustworthy && !self.upload_complete ==> r is None,
    {
        if self.file_size_trustworthy {
            self.file_size
        } else if self.upload_complete {
            Some(self.uploaded_size)
        } else {
            None
        }
    }

    /// Adds to the uploaded count, saturating at the machine limit; the
    /// count never decreases.
    pub fn increase_upload(&mut self, size: usize)
        ensures
            final(self).uploaded_size == if old(self).uploaded_size + size <= usize::MAX {
                old(self).uploaded_size + size
            } else {
                usize::MAX as int
            },
            final(self).uploaded_size >= old(self).uploaded_size,
            *final(self) == (FileSize { uploaded_size: final(self).uploaded_size, ..*old(self) }),
    {
        self.uploaded_size = self.uploaded_size.saturating_add(size);
    }

    pub fn get_uploaded_size(&self) -> (r: usize)
        ensures
            r == self.uploaded_size,
    {
        self.uploaded_size
    }

    /// Adds to the downloaded count, saturating at the machine limit; the
    /// count never decreases.
    pub fn increase_download(&mut self, size: usize)
        ensures
            final(self).downloaded_size == if old(self).downloaded_size + size <= usize::MAX {
                old(self).downloaded_size + size
            } else {
                usize::MAX as int
            },
            final(self).downloaded_size >= old(self).downloaded_size,
            *final(self) == (FileSize {
                downloaded_size: final(self).downloaded_size,
                ..*old(self)
            }),
    {
        self.downloaded_size = self.downloaded_size.saturating_add(size);
    }

    pub fn get_download_progress(&self) -> (r: usize)
        ensures
            r == self.downloaded_size,
    {
        self.downloaded_size
    }

    fn set_trustworthiness(&mut self, trusted: bool)
        ensures
            *final(self) == (FileSize { file_size_trustworthy: trusted, ..*old(self) }),
    {
        self.file_size_trustworthy = trusted;
    }

    /// Whether the byte counts are final: true once the upload completed.
    pub fn download_complete(&self) -> (r: bool)
        ensures
            r == self.upload_complete,
    {
        self.upload_complete
    }

    /// A human-readable size line for landing pages: the rendered size and
    /// the exact byte count when the declared size is trustworthy and
    /// present, else a placeholder.
    pub fn get_file_string(&self) -> (r: String)
        ensures
            (self.file_size_trustworthy && self.file_size is Some) ==> r@ == spec_size_display(
                self.file_size.unwrap() as u64,
            ) + " ("@ + spec_decimal(self.file_size.unwrap() as nat) + " bytes)"@,
            !(self.file_size_trustworthy && self.file_size is Some) ==> r@ == "Unknown"@,
    {
        if self.file_size_trustworthy {
            if let Some(size) = self.file_size {
                let mut out = human_size(size as u64);
                out.append(" (");
                let digits = decimal_string(size);
                out.append(digits.as_str());
                out.append(" bytes)");
                return out;
            }
        }
        String::from_str("Unknown")
    }
}

/// The record kept for one ticket: its identifiers, byte accounting, the
/// two state machines, timestamps, and the authentication challenge.
#[derive(Debug)]
pub struct FileMetadata {
    /// Name the creator gave the file; shown on landing pages and used in
    /// the download redirect.
    pub file_name: String,
    /// Byte accounting and `Content-Length` flags.
    pub file_size: FileSize,
    /// Advertised payload encoding, echoed as `Content-Encoding`.
    pub compression: Compression,
    /// Ticket identifier, minted from the tier's path template.
    pub path: String,
    /// Secret needed to post the payload, minted from the key template.
    pub upload_key: String,
    /// Upload side state machine.
    pub upload: FileState,
    /// Download side state machine.
    pub download: FileState,
    /// Creation time, in milliseconds.
    pub created: u64,
    /// Last metadata access, in milliseconds; culling goes by this.
    pub accessed: u64,
    /// User named by the creator as the intended uploader, if any.
    pub authed_user: Option<String>,
    /// Fresh UUID the user signs to prove key ownership.
    pub challenge: String,
    /// Whether a challenge upgrade has succeeded; irreversible.
    pub authenticated: bool,
}

impl Clone for FileMetadata {
    /// A clone carries exactly the same record.
    fn clone(&self) -> (r: Self)
        ensures
            r == *self,
    {
        FileMetadata {
            file_name: self.file_name.clone(),
            file_size: self.file_size,
            compression: self.compression,
            path: self.path.clone(),
            upload_key: self.upload_key.clone(),
            upload: self.upload,
            download: self.download,
            created: self.created,
            accessed: self.accessed,
            authed_user: match &self.authed_user {
                Some(u) => Some(u.clone()),
                None => None,
            },
            challenge: self.challenge.clone(),
            authenticated: self.authenticated,
        }
    }
}

impl FileMetadata {
    /// Locked for upload once an upload has started; uploads are one-shot.
    pub open spec fn spec_upload_locked(&self) -> bool {
        self.upload == FileState::InProgress || self.upload == FileState::Complete
    }

    /// Locked for download while one runs or after it completed.
    pub open spec fn spec_download_locked(&self) -> bool {
        self.download == FileState::InProgress || self.download == FileState::Complete
    }

    /// A download can be paused only while it runs.
    pub open spec fn spec_download_pausable(&self) -> bool {
        self.download == FileState::InProgress
    }

    /// Waiting tickets, where either side has not started, are the ones the
    /// culler may drop.
    pub open spec fn spec_is_in_waiting_state(&self) -> bool {
        self.download == FileState::NotStarted || self.upload == FileState::NotStarted
    }

    /// A fresh ticket under the given tier: empty name, zero counters, both
    /// sides `NotStarted`, newly minted path and upload key, a fresh
    /// challenge, not authenticated.
    pub fn new(options: &ServerOptions, user: Option<&String>, now_ms: u64) -> (r: FileMetadata)
        requires
            options.wf(),
        ensures
            r.file_name@ == Seq::<char>::empty(),
            r.file_size.file_size is None,
            r.file_size.uploaded_size == 0,
            r.file_size.downloaded_size == 0,
            r.file_size.upload_complete == false,
            r.file_size.file_size_trustworthy == true,
            r.compression == Compression::Plain,
            spec_minted(options.token_format@, r.path@, spec_words_view(options.words@)),
            spec_minted(options.upload_format@, r.upload_key@, spec_words_view(options.words@)),
            r.upload == FileState::NotStarted,
            r.download == FileState::NotStarted,
            r.created == now_ms,
            r.accessed == now_ms,
            r.authed_user is Some <==> user is Some,
            user matches Some(u) ==> r.authed_user == Some(*u),
            spec_is_uuid_draw(r.challenge@),
            r.authenticated == false,
    {
        FileMetadata {
            file_name: String::new(),
            file_size: FileSize::new(true),
            compression: Compression::default(),
            path: options.generate_upload_token(),
            upload_key: options.generate_key_token(),
            upload: FileState::NotStarted,
            download: FileState::NotStarted,
            created: now_ms,
            accessed: now_ms,
            authed_user: match user {
                Some(u) => Some(u.clone()),
                None => None,
            },
            challenge: generate_challenge(),
            authenticated: false,
        }
    }

    /// The pair a sender needs: the ticket path and the upload key. This is
    /// the only way the upload key travels out.
    pub fn get_upload_info(&self) -> (r: (String, String))
        ensures
            r.0@ == self.path@,
            r.1@ == self.upload_key@,
    {
        (self.path.clone(), self.upload_key.clone())
    }

    pub fn upload_locked(&self) -> (r: bool)
        ensures
            r == self.spec_upload_locked(),
    {
        self.upload == FileState::InProgress || self.upload == FileState::Complete
    }

    pub fn download_finished(&self) -> (r: bool)
        ensures
            r == (self.download == FileState::Complete),
    {
        self.download == FileState::Complete
    }

    pub fn get_token(&self) -> (r: &String)
        ensures
            r@ == self.path@,
            *r == self.path,
    {
        &self.path
    }

    pub fn check_key(&self, key: &String) -> (r: bool)
        ensures
            r == (self.upload_key@ == key@),
    {
        self.upload_key == *key
    }

    /// Grabs the upload: succeeds only under the right key and then locks
    /// the upload side.
    pub fn start_upload(&mut self, key: &String) -> (r: bool)
        ensures
            r == (old(self).upload_key@ == key@),
            r ==> *final(self) == (FileMetadata { upload: FileState::InProgress, ..*old(self) }),
            !r ==> *final(self) == *old(self),
    {
        if !self.check_key(key) {
            return false;
        }
        self.upload = FileState::InProgress;
        true
    }

    /// Marks the upload complete; the uploaded byte count is final from
    /// here on and may serve as `Content-Length`.
    pub fn end_upload(&mut self)
        ensures
            *final(self) == (FileMetadata {
                upload: FileState::Complete,
                file_size: (FileSize { upload_complete: true, ..old(self).file_size }),
                ..*old(self)
            }),
    {
        self.upload = FileState::Complete;
        self.file_size.upload_complete = true;
    }

    pub fn start_download(&mut self)
        ensures
            *final(self) == (FileMetadata { download: FileState::InProgress, ..*old(self) }),
    {
        self.download = FileState::InProgress;
    }

    pub fn pause_download(&mut self)
        ensures
            *final(self) == (FileMetadata { download: FileState::Paused, ..*old(self) }),
    {
        self.download = FileState::Paused;
    }

    pub fn end_download(&mut self)
        ensures
            *final(self) == (FileMetadata { download: FileState::Complete, ..*old(self) }),
    {
        self.download = FileState::Complete;
    }

    pub fn download_locked(&self) -> (r: bool)
        ensures
            r == self.spec_download_locked(),
    {
        self.download == FileState::InProgress || self.download == FileState::Complete
    }

    pub fn download_pausable(&self) -> (r: bool)
        ensures
            r == self.spec_download_pausable(),
    {
        self.download == FileState::InProgress
    }

    /// The copy of the metadata that may leave the server: the file name
    /// and the upload key are replaced by the sentinel `"null"`, and the
    /// declared size is withheld when a compression is in effect, since it
    /// would leak the sender-side length.
    pub fn redact(&self) -> (r: FileMetadata)
        ensures
            r.file_name@ == "null"@,
            r.upload_key@ == "null"@,
            r.file_size.file_size == if self.compression == Compression::Plain {
                self.file_size.file_size
            } else {
                None::<usize>
            },
            r.file_size.uploaded_size == self.file_size.uploaded_size,
            r.file_size.downloaded_size == self.file_size.downloaded_size,
            r.file_size.upload_complete == self.file_size.upload_complete,
            r.file_size.file_size_trustworthy == self.file_size.file_size_trustworthy,
            r.compression == self.compression,
            r.path == self.path,
            r.upload == self.upload,
            r.download == self.download,
            r.created == self.created,
            r.accessed == self.accessed,
            r.authed_user == self.authed_user,
            r.challenge == self.challenge,
            r.authenticated == self.authenticated,
    {
        FileMetadata {
            file_name: String::from_str("null"),
            upload_key: String::from_str("null"),
            file_size: FileSize {
                file_size: if matches!(self.compression, Compression::Plain) {
                    self.file_size.file_size
                } else {
                    None
                },
                ..self.file_size.clone()
            },
            compression: self.compression,
            path: self.path.clone(),
            upload: self.upload,
            download: self.download,
            created: self.created,
            accessed: self.accessed,
            authed_user: self.authed_user.clone(),
            challenge: self.challenge.clone(),
            authenticated: self.authenticated,
        }
    }

    /// Refreshes the access time; culling measures idleness from here.
    pub fn access(&mut self, now_ms: u64)
        ensures
            *final(self) == (FileMetadata { accessed: now_ms, ..*old(self) }),
    {
        self.accessed = now_ms;
    }

    /// Milliseconds since the last access, zero if the clock went
    /// backwards.
    pub fn age(&self, now_ms: u64) -> (r: u64)
        ensures
            r == if now_ms >= self.accessed {
                now_ms - self.accessed
            } else {
                0
            },
    {
        if now_ms >= self.accessed {
            now_ms - self.accessed
        } else {
            0
        }
    }

    pub fn is_in_waiting_state(&self) -> (r: bool)
        ensures
            r == self.spec_is_in_waiting_state(),
    {
        self.download == FileState::NotStarted || self.upload == FileState::NotStarted
    }

    pub fn authenticated(&self) -> (r: bool)
        ensures
            r == self.authenticated,
    {
        self.authenticated
    }

    /// The data an upgrade needs: present exactly when a user was named,
    /// and then carries whether the ticket is already authenticated, the
    /// user, and the challenge to sign.
    pub fn get_challenge_details(&self) -> (r: Option<(bool, &String, &String)>)
        ensures
            r is Some <==> self.authed_user is Some,
            r matches Some(d) ==> d.0 == self.authenticated && *d.1 == self.authed_user.unwrap()
                && *d.2 == self.challenge,
    {
        match &self.authed_user {
            Some(user) => Some((self.authenticated, user, &self.challenge)),
            None => None,
        }
    }

    /// Re-issues the ticket under the authenticated tier: marks it
    /// authenticated, rotates the path and the upload key under the tier's
    /// templates, and refreshes the access time.
    pub fn upgrade(&mut self, options: &ServerOptions, now_ms: u64)
        requires
            options.wf(),
        ensures
            final(self).authenticated == true,
            spec_minted(options.token_format@, final(self).path@, spec_words_view(options.words@)),
            spec_minted(
                options.upload_format@,
                final(self).upload_key@,
                spec_words_view(options.words@),
            ),
            final(self).accessed == now_ms,
            final(self).file_name == old(self).file_name,
            final(self).file_size == old(self).file_size,
            final(self).compression == old(self).compression,
            final(self).upload == old(self).upload,
            final(self).download == old(self).download,
            final(self).created == old(self).created,
            final(self).authed_user == old(self).authed_user,
            final(self).challenge == old(self).challenge,
    {
        self.authenticated = true;
        self.path = options.generate_upload_token();
        self.upload_key = options.generate_key_token();
        self.accessed = now_ms;
    }

    /// Records the advertised encoding; any compression makes the declared
    /// size untrustworthy as a `Content-Length`.
    pub fn set_compression(&mut self, compression: Compression)
        ensures
            final(self).compression == compression,
            final(self).file_size.file_size_trustworthy == (compression == Compression::Plain),
            final(self).file_size == (FileSize {
                file_size_trustworthy: final(self).file_size.file_size_trustworthy,
                ..old(self).file_size
            }),
            final(self).file_name == old(self).file_name,
            final(self).path == old(self).path,
            final(self).upload_key == old(self).upload_key,
            final(self).upload == old(self).upload,
            final(self).download == old(self).download,
            final(self).created == old(self).created,
            final(self).accessed == old(self).accessed,
            final(self).authed_user == old(self).authed_user,
            final(self).challenge == old(self).challenge,
            final(self).authenticated == old(self).authenticated,
    {
        self.compression = compression;
        if !matches!(self.compression, Compression::Plain) {
            self.file_size.set_trustworthiness(false);
        } else {
            self.file_size.set_trustworthiness(true);
        }
    }

    pub fn get_compression(&self) -> (r: Compression)
        ensures
            r == self.compression,
    {
        self.compression
    }
}

/// What `bytesize` renders a byte count to in binary (IEC) units; a
/// function of the count alone.
pub uninterp spec fn spec_size_display(n: u64) -> Seq<char>;

/// Relies on `bytesize::ByteSize::display` in IEC mode: a human-readable
/// rendering of a byte count in binary units, determined by the count
/// alone.
#[verifier::external_body]
fn human_size(n: u64) -> (r: String)
    ensures
        r@ == spec_size_display(n),
{
    bytesize::ByteSize(n).display().iec().to_string()
}

} // verus!
