//! Per-tier admission policy: how many chunks the per-ticket channel may
//! buffer, the target chunk size on the wire, how long an untouched ticket
//! lives, the templates its tokens are minted from, and an optional pacing
//! delay between chunks. Two instances exist in a running server: one for
//! the public tier and one for the authenticated tier.

use vstd::prelude::*;
use vstd::string::StringExecFns;
use crate::token::{generate_token, spec_has_word_placeholder, spec_minted, spec_words_view};

verus! {

/// Milliseconds in one hour, the default cull timeout.
pub const HOUR_MS: u64 = 3600000;

/// Default chunk size in bytes.
pub const DEFAULT_BLOCK_SIZE: usize = 4096;

/// Default authenticated-tier channel capacity: one gibibyte of default
/// sized chunks.
pub const AUTH_CACHE_CHUNKS: usize = 262144;

/// The largest channel capacity a tier may ask for: the bounded channel's
/// semaphore holds at most an eighth of the machine word range of permits,
/// and its constructor panics above that.
pub const MAX_CACHE_SIZE: usize = usize::MAX / 8;

#[derive(Debug)]
pub struct ServerOptions {
    /// Number of chunks the bounded per-ticket channel may hold.
    pub cache_size: usize,
    /// Target chunk size in bytes between producer and consumer.
    pub block_size: usize,
    /// Milliseconds after which an untouched waiting ticket is culled.
    pub cull_time: u64,
    /// Template for ticket paths.
    pub token_format: String,
    /// Template for upload keys.
    pub upload_format: String,
    /// Optional pacing delay in milliseconds after each full chunk.
    pub packet_delay: Option<u64>,
    /// Word list the `{word}` placeholder draws from.
    pub words: Vec<String>,
}

/// Two tiers with the same parameters, compared by content.
pub open spec fn spec_options_equiv(a: ServerOptions, b: ServerOptions) -> bool {
    &&& a.cache_size == b.cache_size
    &&& a.block_size == b.block_size
    &&& a.cull_time == b.cull_time
    &&& a.token_format@ == b.token_format@
    &&& a.upload_format@ == b.upload_format@
    &&& a.packet_delay == b.packet_delay
    &&& a.words@ == b.words@
}

impl Clone for ServerOptions {
    /// A clone carries the same tier parameters.
    fn clone(&self) -> (r: Self)
        ensures
            spec_options_equiv(r, *self),
            r.wf() == self.wf(),
    {
        let mut words: Vec<String> = Vec::new();
        let mut i: usize = 0;
        while i < self.words.len()
            invariant
                i <= self.words@.len(),
                words@.len() == i,
                forall|j: int| 0 <= j < i ==> words@[j] == self.words@[j],
            decreases self.words@.len() - i,
        {
            words.push(self.words[i].clone());
            i = i + 1;
        }
        proof {
            assert(words@ =~= self.words@);
        }
        ServerOptions {
            cache_size: self.cache_size,
            block_size: self.block_size,
            cull_time: self.cull_time,
            token_format: self.token_format.clone(),
            upload_format: self.upload_format.clone(),
            packet_delay: self.packet_delay,
            words,
        }
    }
}

impl ServerOptions {
    /// A tier is well formed when its channel holds at least one chunk and
    /// no more than the channel's permit limit, its chunks are not empty,
    /// and any `{word}` placeholder has a word list to draw from.
    pub open spec fn wf(&self) -> bool {
        &&& self.cache_size >= 1
        &&& self.cache_size <= MAX_CACHE_SIZE
        &&& self.block_size >= 1
        &&& spec_has_word_placeholder(self.token_format@) ==> self.words@.len() > 0
        &&& spec_has_word_placeholder(self.upload_format@) ==> self.words@.len() > 0
    }

    pub fn new(
        cache_size: usize,
        block_size: usize,
        cull_time: u64,
        token_format: String,
        upload_format: String,
        packet_delay: Option<u64>,
        words: Vec<String>,
    ) -> (r: ServerOptions)
        requires
            cache_size >= 1,
            cache_size <= MAX_CACHE_SIZE,
            block_size >= 1,
            spec_has_word_placeholder(token_format@) ==> words@.len() > 0,
            spec_has_word_placeholder(upload_format@) ==> words@.len() > 0,
        ensures
            r.wf(),
            r.cache_size == cache_size,
            r.block_size == block_size,
            r.cull_time == cull_time,
            r.token_format == token_format,
            r.upload_format == upload_format,
            r.packet_delay == packet_delay,
            r.words == words,
    {
        ServerOptions { cache_size, block_size, cull_time, token_format, upload_format, packet_delay, words }
    }

    pub fn get_cache_size(&self) -> (r: usize)
        ensures
            r == self.cache_size,
    {
        self.cache_size
    }

    pub fn get_block_size(&self) -> (r: usize)
        ensures
            r == self.block_size,
    {
        self.block_size
    }

    pub fn get_cull_time(&self) -> (r: u64)
        ensures
            r == self.cull_time,
    {
        self.cull_time
    }

    pub fn get_delay_time(&self) -> (r: Option<u64>)
        ensures
            r == self.packet_delay,
    {
        self.packet_delay
    }

    /// Mints a ticket path from this tier's path template.
    pub fn generate_upload_token(&self) -> (r: String)
        requires
            self.wf(),
        ensures
            spec_minted(self.token_format@, r@, spec_words_view(self.words@)),
    {
        generate_token(self.token_format.as_str(), &self.words)
    }

    /// Mints an upload key from this tier's key template.
    pub fn generate_key_token(&self) -> (r: String)
        requires
            self.wf(),
        ensures
            spec_minted(self.upload_format@, r@, spec_words_view(self.words@)),
    {
        generate_token(self.upload_format.as_str(), &self.words)
    }

    /// The default public tier: a single-chunk buffer, 4 KiB chunks, an
    /// hour's cull timeout, UUID tokens, and a one-second pacing delay.
    pub fn default_public() -> (r: ServerOptions)
        ensures
            r.wf(),
            r.cache_size == 1,
            r.block_size == DEFAULT_BLOCK_SIZE,
            r.cull_time == HOUR_MS,
            r.token_format@ == "{uuid}"@,
            r.upload_format@ == "{uuid}"@,
            r.packet_delay == Some(1000u64),
    {
        let token_format = String::from_str("{uuid}");
        let upload_format = String::from_str("{uuid}");
        proof {
            reveal_strlit("{uuid}");
            assert(!spec_has_word_placeholder(token_format@)) by {
                lemma_uuid_template_no_word(token_format@);
            }
            assert(!spec_has_word_placeholder(upload_format@)) by {
                lemma_uuid_template_no_word(upload_format@);
            }
        }
        ServerOptions {
            cache_size: 1,
            block_size: DEFAULT_BLOCK_SIZE,
            cull_time: HOUR_MS,
            token_format,
            upload_format,
            packet_delay: Some(1000),
            words: Vec::new(),
        }
    }

    /// The default authenticated tier: a gibibyte of buffered chunks, 4 KiB
    /// chunks, an hour's cull timeout, word tokens from the given list, and
    /// no pacing delay.
    pub fn default_authenticated(words: Vec<String>) -> (r: ServerOptions)
        requires
            words@.len() > 0,
        ensures
            r.wf(),
            r.cache_size == AUTH_CACHE_CHUNKS,
            r.block_size == DEFAULT_BLOCK_SIZE,
            r.cull_time == HOUR_MS,
            r.token_format@ == "{number}-{word}-{word}-{word}"@,
            r.upload_format@ == "{number}-{word}-{word}-{word}"@,
            r.packet_delay is None,
            r.words == words,
    {
        ServerOptions {
            cache_size: AUTH_CACHE_CHUNKS,
            block_size: DEFAULT_BLOCK_SIZE,
            cull_time: HOUR_MS,
            token_format: String::from_str("{number}-{word}-{word}-{word}"),
            upload_format: String::from_str("{number}-{word}-{word}-{word}"),
            packet_delay: None,
            words,
        }
    }
}

/// A template whose characters never hold a word-placeholder match needs
/// no word list; in particular `{uuid}` templates.
proof fn lemma_uuid_template_no_word(t: Seq<char>)
    requires
        forall|j: int| 0 <= j < t.len() ==> t[j] != 'w',
    ensures
        !spec_has_word_placeholder(t),
    decreases t.len(),
{
    if t.len() > 0 {
        if crate::text::spec_match_at(t, 0, crate::token::word_pat()) {
            assert(t.subrange(0, 6)[1] == t[1]);
            assert(t[1] == 'w');
        }
        assert forall|j: int| 0 <= j < t.skip(1).len() implies t.skip(1)[j] != 'w' by {
            assert(t.skip(1)[j] == t[j + 1]);
        }
        lemma_uuid_template_no_word(t.skip(1));
        if crate::text::spec_match_at(t, 0, crate::token::number_pat()) {
            assert forall|j: int| 0 <= j < t.skip(8).len() implies t.skip(8)[j] != 'w' by {
                assert(t.skip(8)[j] == t[j + 8]);
            }
            lemma_uuid_template_no_word(t.skip(8));
        }
        if crate::text::spec_match_at(t, 0, crate::token::uuid_pat()) {
            assert forall|j: int| 0 <= j < t.skip(6).len() implies t.skip(6)[j] != 'w' by {
                assert(t.skip(6)[j] == t[j + 6]);
            }
            lemma_uuid_template_no_word(t.skip(6));
        }
    }
}

} // verus!
