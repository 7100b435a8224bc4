//! Framing of the byte stream that a server sends: skipping packets that
//! the client cannot read, keeping a packet that was cut off, and the
//! keep-alive schedule of each server.
use vstd::prelude::*;

verus! {

/// The length that a variable-length packet starting at `packet_start`
/// declares: the little-endian `u16` after its 2-byte header, where `data`
/// holds it and it is at least 4.
pub open spec fn declared_length(packet_start: int, data: Seq<u8>) -> Option<int> {
    let offset = packet_start + 2;
    if offset + 2 > data.len() {
        None
    } else {
        let length = data[offset] as int + 256 * data[offset + 1] as int;
        if length < 4 {
            None
        } else {
            Some(length)
        }
    }
}

/// The total length of the packet starting at `packet_start`, given the
/// entry of the packet length table for its header (none for an unknown
/// header; a positive fixed length; otherwise a variable length that the
/// packet declares), where `data` holds all of it.
pub open spec fn packet_skip_length(packet_start: int, table_length: Option<i16>, data: Seq<u8>) -> Option<
    int,
> {
    match table_length {
        None => None,
        Some(length) => {
            let total = if length > 0 {
                Some(length as int)
            } else {
                declared_length(packet_start, data)
            };
            match total {
                Some(t) => if packet_start + t > data.len() {
                    None
                } else {
                    Some(t)
                },
                None => None,
            }
        },
    }
}

/// The number of bytes to skip over the packet that starts at
/// `packet_start` in `data`, if it can be skipped: `table_length` is the
/// entry of the packet length table for its header.
pub fn try_skip_packet(packet_start: usize, table_length: Option<i16>, data: &[u8]) -> (skipped:
    Option<usize>)
    requires
        packet_start <= data@.len(),
    ensures
        match skipped {
            Some(t) => packet_skip_length(packet_start as int, table_length, data@) == Some(
                t as int,
            ) && packet_start + t <= data@.len(),
            None => packet_skip_length(packet_start as int, table_length, data@) is None,
        },
{
    let length = match table_length {
        Some(length) => length,
        None => return None,
    };
    let total: usize = if length > 0 {
        length as usize
    } else {
        if data.len() - packet_start < 4 {
            return None;
        }
        let len_offset = packet_start + 2;
        let packet_len = data[len_offset] as usize + 256 * (data[len_offset + 1] as usize);
        if packet_len < 4 {
            return None;
        }
        packet_len
    };
    if total > data.len() - packet_start {
        return None;
    }
    Some(total)
}

/// Why the packet handler stopped at a packet.
#[derive(Debug, Clone, Copy, PartialEq, Eq, Structural)]
pub enum PacketProblem {
    /// The buffer ends before the packet does.
    CutOff,
    /// No handler is registered for the packet's header.
    Unhandled,
    /// The handler failed to read the packet.
    InternalError,
}

/// What the receive loop does after a packet problem.
#[derive(Debug, Clone, Copy, PartialEq, Eq, Structural)]
pub enum StreamStep {
    /// Go on reading at this offset.
    ContinueAt(usize),
    /// Move the bytes from this offset to the end of the data to the start
    /// of the buffer and append the next read after them.
    KeepCutOff(usize),
    /// Drop what is left of the data; the next read starts a new buffer.
    Discard,
}

/// The step after `problem` at the packet that starts at `packet_start`:
/// a packet cut off is kept for the next read unless it starts the buffer,
/// and any other packet is skipped where its length is known.
pub open spec fn stream_step(
    problem: PacketProblem,
    packet_start: int,
    table_length: Option<i16>,
    data: Seq<u8>,
) -> StreamStep {
    match problem {
        PacketProblem::CutOff => if packet_start == 0 {
            StreamStep::Discard
        } else {
            StreamStep::KeepCutOff(packet_start as usize)
        },
        _ => match packet_skip_length(packet_start, table_length, data) {
            Some(t) => StreamStep::ContinueAt((packet_start + t) as usize),
            None => StreamStep::Discard,
        },
    }
}

/// Decides how the receive loop goes on after `problem` at the packet that
/// starts at `packet_start` in `data`.
pub fn next_stream_step(
    problem: PacketProblem,
    packet_start: usize,
    table_length: Option<i16>,
    data: &[u8],
) -> (step: StreamStep)
    requires
        packet_start <= data@.len(),
    ensures
        step == stream_step(problem, packet_start as int, table_length, data@),
        step matches StreamStep::ContinueAt(offset) ==> packet_start < offset <= data@.len(),
{
    match problem {
        PacketProblem::CutOff => if packet_start == 0 {
            StreamStep::Discard
        } else {
            StreamStep::KeepCutOff(packet_start)
        },
        _ => match try_skip_packet(packet_start, table_length, data) {
            Some(t) => {
                let n = data.len();
                assert(packet_start + t <= n);
                StreamStep::ContinueAt(packet_start + t)
            },
            None => StreamStep::Discard,
        },
    }
}

/// How the reading of one batch of received data ended.
#[derive(Debug, Clone, Copy, PartialEq, Eq, Structural)]
pub enum ReadEnd {
    /// Every packet was read.
    Complete,
    /// The packet from this offset to the end of the data was cut off.
    KeepCutOff(usize),
    /// The rest of the data is dropped.
    Discard,
}

/// Where the reading of one batch of received data stands: the offset of
/// the next packet, until the reading ends.
pub struct ReceiveCursor {
    offset: usize,
    length: usize,
    ended: Option<ReadEnd>,
}

impl ReceiveCursor {
    /// The offset of the next packet.
    pub closed spec fn offset_spec(&self) -> usize {
        self.offset
    }

    /// The length of the data.
    pub closed spec fn length_spec(&self) -> usize {
        self.length
    }

    /// How the reading ended, once it did.
    pub closed spec fn ended_spec(&self) -> Option<ReadEnd> {
        self.ended
    }

    /// The offset lies within the data.
    pub closed spec fn wf(&self) -> bool {
        self.offset <= self.length
    }

    /// How much is left to read: it shrinks with each step.
    pub open spec fn remaining(&self) -> int {
        if self.ended_spec() is Some {
            0
        } else {
            self.length_spec() - self.offset_spec() + 1
        }
    }

    /// Reading `length` bytes of data from `start` (after what the
    /// connection reads before the packets).
    pub fn new(start: usize, length: usize) -> (cursor: Self)
        requires
            start <= length,
        ensures
            cursor.wf(),
            cursor.offset_spec() == start,
            cursor.length_spec() == length,
            cursor.ended_spec() is None,
    {
        ReceiveCursor { offset: start, length, ended: None }
    }

    /// The offset of the next packet to read, while the reading goes on and
    /// data is left.
    pub fn next_packet(&self) -> (offset: Option<usize>)
        ensures
            match offset {
                Some(o) => o == self.offset_spec() && self.ended_spec() is None && o
                    < self.length_spec(),
                None => self.ended_spec() is Some || self.offset_spec() >= self.length_spec(),
            },
    {
        if self.ended.is_none() && self.offset < self.length {
            Some(self.offset)
        } else {
            None
        }
    }

    /// The packet at the offset was read and ends at `end`.
    pub fn packet_read(&mut self, end: usize)
        requires
            old(self).wf(),
            old(self).ended_spec() is None,
            old(self).offset_spec() < end <= old(self).length_spec(),
        ensures
            final(self).wf(),
            final(self).offset_spec() == end,
            final(self).length_spec() == old(self).length_spec(),
            final(self).ended_spec() is None,
            final(self).remaining() < old(self).remaining(),
    {
        self.offset = end;
    }

    /// The packet at the offset could not be read for `problem`:
    /// `table_length` is the entry of the packet length table for its
    /// header, and `data` the received data. The reading goes on after the
    /// packet where it can be skipped, and ends otherwise.
    pub fn packet_failed(&mut self, problem: PacketProblem, table_length: Option<i16>, data: &[u8])
        requires
            old(self).wf(),
            old(self).ended_spec() is None,
            data@.len() == old(self).length_spec(),
        ensures
            final(self).wf(),
            final(self).length_spec() == old(self).length_spec(),
            final(self).remaining() < old(self).remaining(),
            match stream_step(problem, old(self).offset_spec() as int, table_length, data@) {
                StreamStep::ContinueAt(next) => final(self).offset_spec() == next
                    && final(self).ended_spec() is None,
                StreamStep::KeepCutOff(start) => final(self).ended_spec() == Some(
                    ReadEnd::KeepCutOff(start),
                ),
                StreamStep::Discard => final(self).ended_spec() == Some(ReadEnd::Discard),
            },
    {
        match next_stream_step(problem, self.offset, table_length, data) {
            StreamStep::ContinueAt(next) => self.offset = next,
            StreamStep::KeepCutOff(start) => self.ended = Some(ReadEnd::KeepCutOff(start)),
            StreamStep::Discard => self.ended = Some(ReadEnd::Discard),
        }
    }

    /// How the reading ended: as it was ended, or complete.
    pub fn end(&self) -> (end: ReadEnd)
        ensures
            end == match self.ended_spec() {
                Some(e) => e,
                None => ReadEnd::Complete,
            },
    {
        match self.ended {
            Some(e) => e,
            None => ReadEnd::Complete,
        }
    }
}

/// Moves `buffer[start..end]` to the start of `buffer`
/// (`copy_within(start..end, 0)`) and returns its length, at which the next
/// read is to be appended. The rest of the buffer is left as it was.
pub fn keep_cut_off(buffer: &mut Vec<u8>, start: usize, end: usize) -> (base: usize)
    requires
        start <= end <= old(buffer)@.len(),
    ensures
        base == end - start,
        final(buffer)@.len() == old(buffer)@.len(),
        final(buffer)@.take(base as int) == old(buffer)@.subrange(start as int, end as int),
        final(buffer)@.skip(base as int) == old(buffer)@.skip(base as int),
{
    let length = end - start;
    let ghost initial = buffer@;
    let mut i: usize = 0;
    while i < length
        invariant
            length == end - start,
            start <= end <= initial.len(),
            i <= length,
            buffer@.len() == initial.len(),
            forall|k: int| 0 <= k < i ==> buffer@[k] == initial[start + k],
            forall|k: int| i <= k < initial.len() ==> buffer@[k] == initial[k],
        decreases length - i,
    {
        let byte = buffer[start + i];
        buffer.set(i, byte);
        i += 1;
    }
    assert(buffer@.take(length as int) =~= initial.subrange(start as int, end as int));
    assert(buffer@.skip(length as int) =~= initial.skip(length as int));
    length
}

/// The server a connection goes to.
#[derive(Debug, Clone, Copy, PartialEq, Eq, Structural)]
pub enum ServerKind {
    LoginServer,
    CharacterServer,
    MapServer,
}

/// How the network task of a connection works.
#[derive(Debug, Clone, Copy, PartialEq, Eq, Structural)]
pub struct ConnectionSettings {
    /// Seconds between two keep-alive packets.
    pub keepalive_seconds: u64,
    /// Whether the server sends the account id, without a packet header,
    /// before its first packet.
    pub reads_account_id: bool,
}

impl ServerKind {
    /// The settings of a connection to this server: the login server is
    /// kept alive every 58 seconds, the others every 10; only the
    /// character server sends the account id first.
    pub fn connection_settings(self) -> (settings: ConnectionSettings)
        ensures
            settings.keepalive_seconds == (if self == ServerKind::LoginServer {
                58u64
            } else {
                10u64
            }),
            settings.reads_account_id == (self == ServerKind::CharacterServer),
    {
        match self {
            ServerKind::LoginServer => ConnectionSettings { keepalive_seconds: 58, reads_account_id: false },
            ServerKind::CharacterServer => ConnectionSettings {
                keepalive_seconds: 10,
                reads_account_id: true,
            },
            ServerKind::MapServer => ConnectionSettings { keepalive_seconds: 10, reads_account_id: false },
        }
    }
}

} // verus!
