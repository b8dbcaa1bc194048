//! The byte buffer of the daemon's command socket: after the commands that
//! could be read from the front of the buffer have been run, what remains
//! to be read once more bytes arrive.

use vstd::prelude::*;

verus! {

/// How reading commands from the front of the buffer came to a stop.
#[derive(Debug, Clone, Copy, PartialEq, Eq, Structural, Hash)]
pub enum StreamStop {
    /// The input ended inside a command that starts at this offset.
    Incomplete(usize),
    /// The bytes at this offset do not form a command.
    Invalid(usize),
    /// Every byte of the buffer was read.
    Exhausted,
}

/// Where reading resumes: at the offset where it stopped, or past the end
/// when everything was read.
pub open spec fn resume_at(stop: StreamStop, len: nat) -> nat {
    match stop {
        StreamStop::Incomplete(offset) => offset as nat,
        StreamStop::Invalid(offset) => offset as nat,
        StreamStop::Exhausted => len,
    }
}

/// The stop lies within a buffer of `len` bytes.
pub open spec fn stop_within(stop: StreamStop, len: nat) -> bool {
    resume_at(stop, len) <= len
}

/// The offset where reading resumes in a buffer of `len` bytes.
pub fn resume_offset(stop: StreamStop, len: usize) -> (r: usize)
    ensures
        r == resume_at(stop, len as nat),
{
    match stop {
        StreamStop::Incomplete(offset) => offset,
        StreamStop::Invalid(offset) => offset,
        StreamStop::Exhausted => len,
    }
}

/// Drops the bytes that were read and keeps those from the resume offset on.
pub fn retain_unread(buffer: &mut Vec<u8>, stop: StreamStop)
    requires
        stop_within(stop, old(buffer)@.len()),
    ensures
        final(buffer)@ == old(buffer)@.subrange(
            resume_at(stop, old(buffer)@.len()) as int,
            old(buffer)@.len() as int,
        ),
{
    let start: usize = resume_offset(stop, buffer.len());
    let rest = buffer.split_off(start);
    *buffer = rest;
}

/// Nothing is lost: the bytes that were read, followed by those that are
/// kept, are the buffer as it was.
pub proof fn lemma_read_and_kept_make_the_buffer(buffer: Seq<u8>, stop: StreamStop)
    requires
        stop_within(stop, buffer.len()),
    ensures
        buffer.subrange(0, resume_at(stop, buffer.len()) as int) + buffer.subrange(
            resume_at(stop, buffer.len()) as int,
            buffer.len() as int,
        ) == buffer,
{
    assert(buffer.subrange(0, resume_at(stop, buffer.len()) as int) + buffer.subrange(
        resume_at(stop, buffer.len()) as int,
        buffer.len() as int,
    ) =~= buffer);
}

/// Bytes that arrive later are read after the kept ones: keeping the unread
/// bytes and then appending new ones is the same as appending first and
/// dropping the read prefix.
pub proof fn lemma_keep_then_append(buffer: Seq<u8>, stop: StreamStop, more: Seq<u8>)
    requires
        stop_within(stop, buffer.len()),
    ensures
        buffer.subrange(resume_at(stop, buffer.len()) as int, buffer.len() as int) + more == (
        buffer + more).subrange(
            resume_at(stop, buffer.len()) as int,
            (buffer + more).len() as int,
        ),
{
    assert(buffer.subrange(resume_at(stop, buffer.len()) as int, buffer.len() as int) + more =~= (
    buffer + more).subrange(resume_at(stop, buffer.len()) as int, (buffer + more).len() as int));
}

/// Reading resumes at the offset where it stopped, and after a buffer was
/// read to its end nothing is kept.
pub proof fn lemma_resume_where_stopped(offset: usize, len: nat)
    ensures
        resume_at(StreamStop::Incomplete(offset), len) == offset,
        resume_at(StreamStop::Invalid(offset), len) == offset,
        resume_at(StreamStop::Exhausted, len) == len,
{
}

} // verus!
