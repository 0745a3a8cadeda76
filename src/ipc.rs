//! The error-report channel of the spawn handshake: which of its two
//! endpoints are still open, what a child's report is sent as, and how the
//! bytes the parent read become the report's text.
use vstd::prelude::*;
use vstd::string::StringSliceAdditionalSpecFns;
use vstd::utf8::{decode_utf8, valid_utf8};

verus! {

/// The most bytes the parent reads of a child's report.
pub const REPORT_CAPACITY: usize = 128;

/// The value an endpoint's descriptor takes once it has been released.
pub const CLOSED_FD: i32 = -1;

/// Why a channel operation was refused.
#[derive(Clone, Copy, Debug, PartialEq, Eq, Structural)]
pub enum ChannelError {
    /// The endpoint needed was already closed.
    Closed,
    /// The read reported this result, which is no count of bytes received.
    Read { result: isize },
}

/// The model of a channel: the descriptor of each endpoint still open.
pub struct PipeView {
    pub receiver: Option<i32>,
    pub sender: Option<i32>,
}

/// The open endpoint a descriptor stands for; a negative one stands for none.
pub open spec fn endpoint(fd: i32) -> Option<i32> {
    if fd >= 0 {
        Some(fd)
    } else {
        None
    }
}

/// The channel once its read endpoint is closed.
pub open spec fn without_receiver(v: PipeView) -> PipeView {
    PipeView { receiver: None, sender: v.sender }
}

/// The channel once its write endpoint is closed.
pub open spec fn without_sender(v: PipeView) -> PipeView {
    PipeView { receiver: v.receiver, sender: None }
}

/// The text of a report that is not valid UTF-8, each invalid sequence
/// replaced by U+FFFD.
pub uninterp spec fn lossy_text(bytes: Seq<u8>) -> Seq<char>;

/// Relies on String::from_utf8_lossy: valid UTF-8 is decoded as it is, other
/// bytes give a text of the bytes alone, and no bytes give no text.
#[verifier::external_body]
fn text_of(bytes: &[u8]) -> (r: String)
    ensures
        r@ == lossy_text(bytes@),
        valid_utf8(bytes@) ==> r@ == decode_utf8(bytes@),
        r@.len() == 0 <==> bytes@.len() == 0,
{
    String::from_utf8_lossy(bytes).into_owned()
}

/// A one-shot byte channel between a forked child and its parent.
pub struct Pipe {
    read_fd: i32,
    write_fd: i32,
}

impl View for Pipe {
    type V = PipeView;

    closed spec fn view(&self) -> PipeView {
        PipeView { receiver: endpoint(self.read_fd), sender: endpoint(self.write_fd) }
    }
}

impl Pipe {
    /// The channel over the two descriptors that opening it gave.
    pub fn new(read_fd: i32, write_fd: i32) -> (r: Pipe)
        ensures
            r@ == (PipeView { receiver: endpoint(read_fd), sender: endpoint(write_fd) }),
    {
        Pipe { read_fd, write_fd }
    }

    /// The read endpoint, while it is open.
    pub fn receiver(&self) -> (r: Option<i32>)
        ensures
            r == self@.receiver,
    {
        if self.read_fd >= 0 {
            Some(self.read_fd)
        } else {
            None
        }
    }

    /// The write endpoint, while it is open.
    pub fn sender(&self) -> (r: Option<i32>)
        ensures
            r == self@.sender,
    {
        if self.write_fd >= 0 {
            Some(self.write_fd)
        } else {
            None
        }
    }

    /// Marks the read endpoint closed and returns the descriptor to release,
    /// which is there only the first time: closing again does nothing.
    pub fn close_receiver(&mut self) -> (r: Option<i32>)
        ensures
            r == old(self)@.receiver,
            final(self)@ == without_receiver(old(self)@),
    {
        let r = self.receiver();
        self.read_fd = CLOSED_FD;
        r
    }

    /// Marks the write endpoint closed and returns the descriptor to release,
    /// which is there only the first time: closing again does nothing.
    pub fn close_sender(&mut self) -> (r: Option<i32>)
        ensures
            r == old(self)@.sender,
            final(self)@ == without_sender(old(self)@),
    {
        let r = self.sender();
        self.write_fd = CLOSED_FD;
        r
    }

    /// The descriptor to write a report to, and the report's bytes: its UTF-8
    /// encoding. Refused once the write endpoint is closed.
    pub fn send(&self, message: &str) -> (r: Result<(i32, Vec<u8>), ChannelError>)
        ensures
            self@.sender is None ==> r == Err::<(i32, Vec<u8>), ChannelError>(
                ChannelError::Closed,
            ),
            self@.sender is Some ==> r is Ok && r->Ok_0.0 == self@.sender->Some_0
                && r->Ok_0.1@ == message.spec_bytes(),
    {
        match self.sender() {
            None => Err(ChannelError::Closed),
            Some(fd) => Ok((fd, message.as_bytes_vec())),
        }
    }

    /// The report's text, from the result of the read on the read endpoint and
    /// the buffer it filled. The result counts the bytes received, at most
    /// `REPORT_CAPACITY`; the text is empty exactly when none were, which is
    /// what the endpoint's closing without data gives. Refused once the read
    /// endpoint is closed, and for a result that is no such count.
    pub fn receive(&self, read: isize, buffer: &Vec<u8>) -> (r: Result<String, ChannelError>)
        ensures
            self@.receiver is None ==> r == Err::<String, ChannelError>(ChannelError::Closed),
            self@.receiver is Some && (read < 0 || read > REPORT_CAPACITY || read > buffer.len())
                ==> r == Err::<String, ChannelError>(ChannelError::Read { result: read }),
            self@.receiver is Some && 0 <= read <= REPORT_CAPACITY && read <= buffer.len() ==> {
                let bytes = buffer@.subrange(0, read as int);
                &&& r is Ok
                &&& r->Ok_0@ == lossy_text(bytes)
                &&& valid_utf8(bytes) ==> r->Ok_0@ == decode_utf8(bytes)
                &&& r->Ok_0@.len() == 0 <==> read == 0
            },
    {
        if self.receiver().is_none() {
            return Err(ChannelError::Closed);
        }
        if read < 0 || read as usize > REPORT_CAPACITY || read as usize > buffer.len() {
            return Err(ChannelError::Read { result: read });
        }
        let n = read as usize;
        let received = vstd::slice::slice_subrange(buffer.as_slice(), 0, n);
        Ok(text_of(received))
    }
}

/// Closing an endpoint a second time changes nothing and hands out no
/// descriptor: closing is idempotent.
pub proof fn lemma_close_idempotent(v: PipeView)
    ensures
        without_receiver(without_receiver(v)) == without_receiver(v),
        without_receiver(v).receiver is None,
        without_sender(without_sender(v)) == without_sender(v),
        without_sender(v).sender is None,
{
}

} // verus!
