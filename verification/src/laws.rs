//! Laws of the relay, stated over the state machines and the streaming
//! core. The registry's contracts show which transition each operation
//! performs; these lemmas show what any run made of those transitions can
//! and cannot do.

use vstd::prelude::*;
use crate::chunks::{download_step, ChunkAssembler, DownloadStep};
use crate::metadata::{spec_download_step, spec_upload_step, FileState};

verus! {

/// A run of the upload state machine: observations of one ticket's upload
/// side over time, starting fresh, where consecutive observations are
/// equal or one allowed transition apart.
pub open spec fn spec_valid_upload_run(chain: Seq<FileState>) -> bool {
    &&& chain.len() > 0
    &&& chain[0] == FileState::NotStarted
    &&& forall|i: int|
        0 <= i < chain.len() - 1 ==> chain[i] == chain[i + 1] || spec_upload_step(
            chain[i],
            #[trigger] chain[i + 1],
        )
}

/// A run of the download state machine, starting fresh.
pub open spec fn spec_valid_download_run(chain: Seq<FileState>) -> bool {
    &&& chain.len() > 0
    &&& chain[0] == FileState::NotStarted
    &&& forall|i: int|
        0 <= i < chain.len() - 1 ==> chain[i] == chain[i + 1] || spec_download_step(
            chain[i],
            #[trigger] chain[i + 1],
        )
}

/// How often a run enters a given state.
pub open spec fn spec_entry_count(chain: Seq<FileState>, target: FileState) -> nat
    decreases chain.len(),
{
    if chain.len() <= 1 {
        0
    } else {
        (if chain[0] != target && chain[1] == target {
            1nat
        } else {
            0nat
        }) + spec_entry_count(chain.skip(1), target)
    }
}

proof fn lemma_upload_entries_from(chain: Seq<FileState>)
    requires
        chain.len() > 0,
        forall|i: int|
            0 <= i < chain.len() - 1 ==> chain[i] == chain[i + 1] || spec_upload_step(
                chain[i],
                #[trigger] chain[i + 1],
            ),
    ensures
        spec_entry_count(chain, FileState::InProgress) <= if chain[0] == FileState::NotStarted {
            1nat
        } else {
            0nat
        },
    decreases chain.len(),
{
    if chain.len() > 1 {
        let rest = chain.skip(1);
        assert forall|i: int|
            0 <= i < rest.len() - 1 implies rest[i] == rest[i + 1] || spec_upload_step(
            rest[i],
            #[trigger] rest[i + 1],
        ) by {
            assert(rest[i] == chain[i + 1]);
            assert(rest[i + 1] == chain[i + 2]);
        }
        lemma_upload_entries_from(rest);
        assert(rest[0] == chain[1]);
    }
}

/// The upload lock is grabbed at most once: along any run of the upload
/// state machine, at most one step enters `InProgress`, so a second upload
/// can never begin.
pub proof fn lemma_upload_started_once(chain: Seq<FileState>)
    requires
        spec_valid_upload_run(chain),
    ensures
        spec_entry_count(chain, FileState::InProgress) <= 1,
{
    lemma_upload_entries_from(chain);
}

proof fn lemma_download_entries_from(chain: Seq<FileState>)
    requires
        chain.len() > 0,
        forall|i: int|
            0 <= i < chain.len() - 1 ==> chain[i] == chain[i + 1] || spec_download_step(
                chain[i],
                #[trigger] chain[i + 1],
            ),
    ensures
        spec_entry_count(chain, FileState::InProgress) <= spec_entry_count(
            chain,
            FileState::Paused,
        ) + if chain[0] == FileState::NotStarted || chain[0] == FileState::Paused {
            1nat
        } else {
            0nat
        },
    decreases chain.len(),
{
    if chain.len() > 1 {
        let rest = chain.skip(1);
        assert forall|i: int|
            0 <= i < rest.len() - 1 implies rest[i] == rest[i + 1] || spec_download_step(
            rest[i],
            #[trigger] rest[i + 1],
        ) by {
            assert(rest[i] == chain[i + 1]);
            assert(rest[i + 1] == chain[i + 2]);
        }
        lemma_download_entries_from(rest);
        assert(rest[0] == chain[1]);
    }
}

/// The download lock is grabbed at most once more than it is returned:
/// along any run of the download state machine, the entries into
/// `InProgress` exceed the entries into `Paused` by at most one. A taken
/// download must be returned before another can begin.
pub proof fn lemma_download_grabbed_once_per_return(chain: Seq<FileState>)
    requires
        spec_valid_download_run(chain),
    ensures
        spec_entry_count(chain, FileState::InProgress) <= spec_entry_count(
            chain,
            FileState::Paused,
        ) + 1,
{
    lemma_download_entries_from(chain);
}

/// No byte is lost, invented or reordered on the upload side: whatever
/// state a well-formed assembler is in, the blocks it has handed to the
/// channel, concatenated, followed by what still waits in its buffer, are
/// exactly the bytes fed into it; after a flush the buffer is empty and
/// the blocks alone account for every byte.
pub proof fn lemma_assembler_accounts_for_every_byte(a: ChunkAssembler)
    requires
        a.wf(),
    ensures
        a.emitted@.flatten() + a.buf@ == a.fed@,
        a.buf@.len() == 0 ==> a.emitted@.flatten() == a.fed@,
{
    if a.buf@.len() == 0 {
        assert(a.emitted@.flatten() + a.buf@ =~= a.emitted@.flatten());
    }
}

/// The download side ends exactly by reading through the sentinel: the
/// step function reports the transfer finished precisely on the empty
/// chunk the upload side ends with, never on payload and never on a lost
/// channel.
pub proof fn lemma_finished_iff_sentinel(msg: Option<Vec<u8>>, r: DownloadStep)
    requires
        call_ensures(download_step, (msg,), r),
    ensures
        r is Finished <==> (msg matches Some(v) && v@.len() == 0),
{
}

} // verus!
