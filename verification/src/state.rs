use vstd::prelude::*;
use vstd::utf8::encode_utf8;

use crate::chunking::is_chunking;
use crate::transfer::CHUNK_TARGET_BYTES;

verus! {

/// How far a transfer has come: `done` out of `total`.
#[derive(PartialEq, Eq, Structural, Clone, Copy, Debug)]
pub struct Progress {
    pub done: usize,
    pub total: usize,
}

impl Progress {
    /// Nothing sent yet.
    pub open spec fn spec_zero() -> Progress {
        Progress { done: 0, total: 1 }
    }

    /// Everything sent.
    pub open spec fn spec_complete() -> Progress {
        Progress { done: 1, total: 1 }
    }

    pub open spec fn wf(self) -> bool {
        0 < self.total && self.done <= self.total
    }

    #[verifier::when_used_as_spec(spec_zero)]
    pub fn zero() -> (r: Progress)
        ensures
            r == Progress::spec_zero(),
    {
        Progress { done: 0, total: 1 }
    }

    #[verifier::when_used_as_spec(spec_complete)]
    pub fn complete() -> (r: Progress)
        ensures
            r == Progress::spec_complete(),
    {
        Progress { done: 1, total: 1 }
    }
}

/// What the sender can say of its speed after a chunk: the chunk's size,
/// the time since the previous chunk, and the chunks still to go.
#[derive(PartialEq, Eq, Structural, Clone, Copy, Debug)]
pub struct SpeedNote {
    pub chunk_bytes: usize,
    pub elapsed_nanos: u64,
    pub remaining_chunks: usize,
}

/// The line of status text shown under the progress bar.
#[derive(Clone, Copy, Debug, PartialEq, Eq)]
pub enum StatusMessage {
    /// A fixed message.
    Text(&'static str),
    /// A transfer in progress, with its speed once two chunks have gone.
    Transferring { progress: Progress, speed: Option<SpeedNote> },
}

/// A transfer under way to one device.
#[derive(Debug)]
pub struct TransferState {
    pub device_addr: String,
    pub file_name: String,
    pub total_chunks: usize,
    pub chunk_size: usize,
    /// Byte offsets of the chunk cuts in the file's text.
    pub chunk_offsets: Vec<usize>,
    /// When the last chunk went out, in nanoseconds of the host's
    /// monotonic clock.
    pub last_chunk_time: Option<u64>,
}

impl TransferState {
    /// The transfer cuts `text` into its chunks.
    pub open spec fn wf_for(self, text: Option<String>) -> bool {
        &&& text is Some
        &&& is_chunking(encode_utf8(text->Some_0@), self.chunk_size as int, self.chunk_offsets@)
        &&& self.chunk_offsets@.len() == self.total_chunks + 1
        &&& self.total_chunks >= 1
    }
}

/// Everything the sender knows: the chosen file, what the UI shows, and
/// the transfer under way, if any.
#[derive(Debug)]
pub struct AppState {
    pub root_element_id: Option<String>,
    pub file_name: Option<String>,
    pub file_size: usize,
    pub file_text: Option<String>,
    pub status_message: Option<StatusMessage>,
    pub is_success_message: bool,
    pub is_sending: bool,
    pub progress: Progress,
    pub transfer: Option<TransferState>,
}

impl AppState {
    /// The state is consistent: the progress is a fraction, and a transfer
    /// under way means the sender is busy sending the chosen file's text,
    /// cut into chunks of the target size.
    pub open spec fn wf(&self) -> bool {
        &&& self.progress.wf()
        &&& match self.transfer {
            Some(t) => {
                &&& t.wf_for(self.file_text)
                &&& t.chunk_size == CHUNK_TARGET_BYTES
                &&& self.is_sending
            },
            None => true,
        }
    }
}

impl Default for AppState {
    fn default() -> (r: AppState)
        ensures
            r.wf(),
            r.root_element_id is None,
            r.file_name is None,
            r.file_size == 0,
            r.file_text is None,
            r.status_message is None,
            !r.is_success_message,
            !r.is_sending,
            r.progress == Progress::spec_zero(),
            r.transfer is None,
    {
        AppState {
            root_element_id: None,
            file_name: None,
            file_size: 0,
            file_text: None,
            status_message: None,
            is_success_message: false,
            is_sending: false,
            progress: Progress::zero(),
            transfer: None,
        }
    }
}

} // verus!
