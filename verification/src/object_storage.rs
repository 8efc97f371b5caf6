//! Identifiers of stored objects, and the decisions of the chunked upload to the object store.
use vstd::prelude::*;
use vstd::string::*;
use crate::id::{ID, ParseIntError, spec_parse_id, decimal_text};

verus! {

/// The identifier of a stored object: the id of its row in the file table.
#[derive(Debug, Clone, Copy, PartialEq, Eq)]
pub struct ObjectID(pub ID);

/// The characters `ObjectID = ` that open the text of an object id.
pub open spec fn object_id_prefix() -> Seq<char> {
    seq!['O', 'b', 'j', 'e', 'c', 't', 'I', 'D', ' ', '=', ' ']
}

impl ObjectID {
    /// Reads an object id: a positive decimal number that fits into 32 bits.
    pub fn parse_str(text: &str) -> (r: Result<ObjectID, ParseIntError>)
        ensures
            match spec_parse_id(text.spec_bytes()) {
                Ok(v) => r matches Ok(o) && o.0@ == v,
                Err(e) => r == Err::<ObjectID, ParseIntError>(ParseIntError { kind: e }),
            },
    {
        match ID::from_param(text) {
            Ok(id) => Ok(ObjectID(id)),
            Err(e) => Err(e),
        }
    }

    /// The text `ObjectID = <n>`.
    pub fn to_string(&self) -> (r: String)
        ensures
            r@ == object_id_prefix() + decimal_text(self.0@ as nat),
    {
        let mut s: String = String::new();
        s.append("ObjectID = ");
        proof { reveal_strlit("ObjectID = "); }
        let digits: String = self.0.to_string();
        s.append(digits.as_str());
        assert(s@ =~= object_id_prefix() + decimal_text(self.0@ as nat));
        s
    }
}

/// Bytes sent to the object store at once: 8 MiB, above the smallest part that S3 takes.
pub const CHUNK_SIZE: usize = 8388608;

/// What the upload asks of its driver next.
#[derive(Debug, Clone, Copy, PartialEq, Eq)]
pub enum UploadStep {
    /// Read from the source into the buffer from `offset` up to `CHUNK_SIZE`.
    Read { offset: usize },
    /// Create the object from the first `len` bytes of the buffer.
    Put { len: usize },
    /// Append the first `len` bytes of the buffer to the object.
    Append { len: usize },
    /// The object is stored completely.
    Done,
    /// Reading or sending failed; the upload stops.
    Failed,
}

/// What happened to the step that the driver carried out.
#[derive(Debug, Clone, Copy, PartialEq, Eq)]
pub enum UploadEvent {
    /// The read filled `n` more bytes of the buffer; zero means the source is exhausted.
    ReadBytes(usize),
    /// The read failed.
    ReadError,
    /// The chunk reached the object store.
    Sent,
    /// The object store refused the chunk.
    SendError,
}

/// Where the upload stands.
#[derive(Debug, Clone, Copy, PartialEq, Eq)]
pub enum UploadPhase {
    Reading,
    Sending,
    Finished,
    Aborted,
}

/// A chunked upload: fills a buffer of `CHUNK_SIZE` bytes from the source, creates
/// the object with the first full or final buffer and appends every later one.
pub struct ChunkedUpload {
    filled: usize,
    sent_any: bool,
    phase: UploadPhase,
    read_total: Ghost<nat>,
    sent_total: Ghost<nat>,
}

impl ChunkedUpload {
    /// Bytes read into the buffer and not sent yet.
    pub closed spec fn buffered(&self) -> nat {
        self.filled as nat
    }

    /// Whether some chunk has reached the object store.
    pub closed spec fn has_sent(&self) -> bool {
        self.sent_any
    }

    /// Where the upload stands.
    pub closed spec fn phase_of(&self) -> UploadPhase {
        self.phase
    }

    /// Bytes read from the source so far.
    pub closed spec fn read_so_far(&self) -> nat {
        self.read_total@
    }

    /// Bytes that reached the object store so far.
    pub closed spec fn sent_so_far(&self) -> nat {
        self.sent_total@
    }

    /// The state is consistent: what was read is what was sent plus what is buffered.
    pub closed spec fn wf(&self) -> bool {
        &&& self.filled <= CHUNK_SIZE
        &&& self.read_total@ == self.sent_total@ + self.filled
        &&& self.phase == UploadPhase::Finished ==> self.filled == 0
    }

    /// A new upload, and its first step: read into the start of the buffer.
    pub fn start() -> (r: (ChunkedUpload, UploadStep))
        ensures
            r.0.wf(),
            r.0.phase_of() == UploadPhase::Reading,
            r.0.buffered() == 0,
            !r.0.has_sent(),
            r.0.read_so_far() == 0,
            r.0.sent_so_far() == 0,
            r.1 == (UploadStep::Read { offset: 0 }),
    {
        (ChunkedUpload { filled: 0, sent_any: false, phase: UploadPhase::Reading, read_total: Ghost(0), sent_total: Ghost(0) },
            UploadStep::Read { offset: 0 })
    }

    /// The step that sends the buffer: a put for the first chunk, an append for every later one.
    fn send_step(&self) -> (r: UploadStep)
        ensures
            r == if self.sent_any { UploadStep::Append { len: self.filled } } else { UploadStep::Put { len: self.filled } },
    {
        if self.sent_any {
            UploadStep::Append { len: self.filled }
        } else {
            UploadStep::Put { len: self.filled }
        }
    }

    /// Takes in what happened to the last step and says what to do next.
    pub fn step(&mut self, event: UploadEvent) -> (r: UploadStep)
        requires
            old(self).wf(),
            old(self).phase_of() == UploadPhase::Reading ==>
                (event matches UploadEvent::ReadBytes(n) ==> n <= CHUNK_SIZE - old(self).buffered()),
        ensures
            final(self).wf(),
            // reading: bytes arrive into the buffer
            old(self).phase_of() == UploadPhase::Reading ==> match event {
                UploadEvent::ReadBytes(n) => {
                    &&& final(self).read_so_far() == old(self).read_so_far() + n
                    &&& final(self).sent_so_far() == old(self).sent_so_far()
                    &&& final(self).has_sent() == old(self).has_sent()
                    &&& if n == 0 && old(self).buffered() == 0 {
                        final(self).phase_of() == UploadPhase::Finished && r == UploadStep::Done
                    } else if n == 0 || old(self).buffered() + n == CHUNK_SIZE {
                        &&& final(self).phase_of() == UploadPhase::Sending
                        &&& final(self).buffered() == old(self).buffered() + n
                        &&& r == if old(self).has_sent() {
                            UploadStep::Append { len: (old(self).buffered() + n) as usize }
                        } else {
                            UploadStep::Put { len: (old(self).buffered() + n) as usize }
                        }
                    } else {
                        &&& final(self).phase_of() == UploadPhase::Reading
                        &&& final(self).buffered() == old(self).buffered() + n
                        &&& r == (UploadStep::Read { offset: (old(self).buffered() + n) as usize })
                    }
                },
                UploadEvent::ReadError => final(self).phase_of() == UploadPhase::Aborted && r == UploadStep::Failed,
                _ => *final(self) == *old(self) && r == UploadStep::Failed,
            },
            // sending: the buffer reaches the store, then reading goes on unless the chunk was short
            old(self).phase_of() == UploadPhase::Sending ==> match event {
                UploadEvent::Sent => {
                    &&& final(self).sent_so_far() == old(self).sent_so_far() + old(self).buffered()
                    &&& final(self).read_so_far() == old(self).read_so_far()
                    &&& final(self).buffered() == 0
                    &&& final(self).has_sent()
                    &&& if old(self).buffered() < CHUNK_SIZE {
                        final(self).phase_of() == UploadPhase::Finished && r == UploadStep::Done
                    } else {
                        final(self).phase_of() == UploadPhase::Reading && r == (UploadStep::Read { offset: 0 })
                    }
                },
                UploadEvent::SendError => final(self).phase_of() == UploadPhase::Aborted && r == UploadStep::Failed,
                _ => *final(self) == *old(self) && r == UploadStep::Failed,
            },
            // a finished or aborted upload stays as it is
            old(self).phase_of() == UploadPhase::Finished ==> *final(self) == *old(self) && r == UploadStep::Done,
            old(self).phase_of() == UploadPhase::Aborted ==> *final(self) == *old(self) && r == UploadStep::Failed,
    {
        match self.phase {
            UploadPhase::Reading => match event {
                UploadEvent::ReadBytes(n) => {
                    if n == 0 && self.filled == 0 {
                        self.phase = UploadPhase::Finished;
                        UploadStep::Done
                    } else {
                        self.filled = self.filled + n;
                        self.read_total = Ghost((self.read_total@ + n) as nat);
                        if n == 0 || self.filled == CHUNK_SIZE {
                            self.phase = UploadPhase::Sending;
                            self.send_step()
                        } else {
                            UploadStep::Read { offset: self.filled }
                        }
                    }
                },
                UploadEvent::ReadError => {
                    self.phase = UploadPhase::Aborted;
                    UploadStep::Failed
                },
                _ => UploadStep::Failed,
            },
            UploadPhase::Sending => match event {
                UploadEvent::Sent => {
                    let short: bool = self.filled < CHUNK_SIZE;
                    self.sent_total = Ghost((self.sent_total@ + self.filled) as nat);
                    self.filled = 0;
                    self.sent_any = true;
                    if short {
                        self.phase = UploadPhase::Finished;
                        UploadStep::Done
                    } else {
                        self.phase = UploadPhase::Reading;
                        UploadStep::Read { offset: 0 }
                    }
                },
                UploadEvent::SendError => {
                    self.phase = UploadPhase::Aborted;
                    UploadStep::Failed
                },
                _ => UploadStep::Failed,
            },
            UploadPhase::Finished => UploadStep::Done,
            UploadPhase::Aborted => UploadStep::Failed,
        }
    }
}

/// When an upload finishes, every byte read from the source has reached the object store.
pub proof fn law_upload_finished_sends_everything(u: ChunkedUpload)
    requires
        u.wf(),
        u.phase_of() == UploadPhase::Finished,
    ensures
        u.sent_so_far() == u.read_so_far(),
        u.buffered() == 0,
{
}

} // verus!
