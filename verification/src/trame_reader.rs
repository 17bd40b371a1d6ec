//! A finite state machine reading [`Trame`]s out of a byte stream.
//!
//! The reader walks the three header bytes `AC DC AB` and the type byte
//! `BA`, then collects packet number, identifier, command, data length
//! and data bytes; any unexpected byte sends it back to hunting for the
//! header.  Completed trames land in a fixed-capacity buffer of an
//! outside crate; when the buffer is full, a completed trame is dropped.

use vstd::prelude::*;

use crate::trame::Trame;

verus! {

/// How many read trames the internal buffer of a [`TrameReader`] holds
/// at most.
pub const TRAME_READER_INTERNAL_BUFFER_SIZE: usize = 2048;

#[verifier::external_type_specification]
#[verifier::external_body]
#[verifier::reject_recursive_types(T)]
#[allow(missing_docs)]
pub struct ExArrayVec<T, const CAP: usize>(arrayvec::ArrayVec<T, CAP>);

/// The trames an [`arrayvec::ArrayVec`] buffer holds, oldest first.
pub uninterp spec fn buffered_trames(v: &arrayvec::ArrayVec<Trame, 2048>) -> Seq<Trame>;

/// Relies on `arrayvec::ArrayVec::new`: a fresh vector holds nothing.
#[verifier::external_body]
fn buf_new() -> (r: arrayvec::ArrayVec<Trame, 2048>)
    ensures
        buffered_trames(&r) == Seq::<Trame>::empty(),
{
    arrayvec::ArrayVec::new()
}

/// Relies on `arrayvec::ArrayVec::len`: the number of stored elements.
#[verifier::external_body]
fn buf_len(v: &arrayvec::ArrayVec<Trame, 2048>) -> (r: usize)
    ensures
        r == buffered_trames(v).len(),
{
    v.len()
}

/// Relies on `arrayvec::ArrayVec::push`: appends the element at the end;
/// it panics on a full vector, so a caller must leave room.
#[verifier::external_body]
fn buf_push(v: &mut arrayvec::ArrayVec<Trame, 2048>, t: Trame)
    requires
        buffered_trames(old(v)).len() < 2048,
    ensures
        buffered_trames(final(v)) == buffered_trames(old(v)).push(t),
{
    v.push(t)
}

/// Relies on `arrayvec::ArrayVec::pop`: removes and returns the last
/// element, or returns `None` on an empty vector.
#[verifier::external_body]
fn buf_pop(v: &mut arrayvec::ArrayVec<Trame, 2048>) -> (r: Option<Trame>)
    ensures
        buffered_trames(old(v)).len() == 0 ==> r == None::<Trame> && buffered_trames(final(v))
            == buffered_trames(old(v)),
        buffered_trames(old(v)).len() > 0 ==> r == Some(buffered_trames(old(v)).last())
            && buffered_trames(final(v)) == buffered_trames(old(v)).drop_last(),
{
    v.pop()
}

/// Where the reader stands in the byte stream.
#[derive(Debug, Copy, Clone)]
pub enum TrameReaderState {
    /// Hunting for the first header byte.
    H1,
    /// After the first header byte.
    H2,
    /// After the second header byte.
    H3,
    /// After the third header byte, expecting the type byte.
    TypeTrame,
    /// Expecting the packet number.
    Pnum,
    /// Expecting the identifier.
    Id {
        /// The packet number read so far.
        pnum: u8,
    },
    /// Expecting the command.
    Cmd {
        /// The identifier read so far.
        id: u8,
        /// The packet number read so far.
        pnum: u8,
    },
    /// Expecting the data length.
    DataLength {
        /// The identifier read so far.
        id: u8,
        /// The command read so far.
        cmd: u8,
        /// The packet number read so far.
        pnum: u8,
    },
    /// Collecting data bytes.
    Data {
        /// The identifier read so far.
        id: u8,
        /// The command read so far.
        cmd: u8,
        /// The packet number read so far.
        pnum: u8,
        /// How many data bytes the trame announces.
        data_length: u8,
        /// The data bytes collected so far.
        data: [u8; 8],
        /// How many data bytes were collected.
        current_index: u8,
    },
}

/// A state the machine can actually be in: while collecting data, the
/// announced length is between one and eight and the cursor before it.
pub open spec fn state_wf(s: TrameReaderState) -> bool {
    match s {
        TrameReaderState::Data { data_length, current_index, .. } => 1 <= data_length <= 8
            && current_index < data_length,
        _ => true,
    }
}

/// One step of the state machine on one byte: the next state, and the
/// completed trame if this byte finished one.
pub open spec fn step_spec(s: TrameReaderState, byte: u8) -> (TrameReaderState, Option<Trame>) {
    match s {
        TrameReaderState::H1 => if byte == 0xAC {
            (TrameReaderState::H2, None)
        } else {
            (TrameReaderState::H1, None)
        },
        TrameReaderState::H2 => if byte == 0xDC {
            (TrameReaderState::H3, None)
        } else {
            (TrameReaderState::H1, None)
        },
        TrameReaderState::H3 => if byte == 0xAB {
            (TrameReaderState::TypeTrame, None)
        } else {
            (TrameReaderState::H1, None)
        },
        TrameReaderState::TypeTrame => if byte == 0xBA {
            (TrameReaderState::Pnum, None)
        } else {
            (TrameReaderState::H1, None)
        },
        TrameReaderState::Pnum => (TrameReaderState::Id { pnum: byte }, None),
        TrameReaderState::Id { pnum } => (TrameReaderState::Cmd { id: byte, pnum }, None),
        TrameReaderState::Cmd { id, pnum } => (
            TrameReaderState::DataLength { id, cmd: byte, pnum },
            None,
        ),
        TrameReaderState::DataLength { id, cmd, pnum } => if 1 <= byte && byte <= 8 {
            (
                TrameReaderState::Data {
                    id,
                    cmd,
                    pnum,
                    data_length: byte,
                    data: [0u8, 0u8, 0u8, 0u8, 0u8, 0u8, 0u8, 0u8],
                    current_index: 0u8,
                },
                None,
            )
        } else if byte == 0 {
            (
                TrameReaderState::H1,
                Some(
                    Trame {
                        id,
                        cmd,
                        pnum: Some(pnum),
                        data_length: 0u8,
                        data: [0u8, 0u8, 0u8, 0u8, 0u8, 0u8, 0u8, 0u8],
                    },
                ),
            )
        } else {
            (TrameReaderState::H1, None)
        },
        TrameReaderState::Data { id, cmd, pnum, data_length, data, current_index } => {
            let stored = update_at(data, current_index as int, byte);
            if current_index + 1 < data_length {
                (
                    TrameReaderState::Data {
                        id,
                        cmd,
                        pnum,
                        data_length,
                        data: stored,
                        current_index: (current_index + 1) as u8,
                    },
                    None,
                )
            } else {
                (
                    TrameReaderState::H1,
                    Some(Trame { id, cmd, pnum: Some(pnum), data_length, data: stored }),
                )
            }
        },
    }
}

/// The array with one byte replaced.
pub open spec fn update_at(data: [u8; 8], i: int, byte: u8) -> [u8; 8] {
    [
        if i == 0 {
            byte
        } else {
            data[0]
        },
        if i == 1 {
            byte
        } else {
            data[1]
        },
        if i == 2 {
            byte
        } else {
            data[2]
        },
        if i == 3 {
            byte
        } else {
            data[3]
        },
        if i == 4 {
            byte
        } else {
            data[4]
        },
        if i == 5 {
            byte
        } else {
            data[5]
        },
        if i == 6 {
            byte
        } else {
            data[6]
        },
        if i == 7 {
            byte
        } else {
            data[7]
        },
    ]
}

/// A step together with the buffer: a completed trame is appended, or
/// dropped when the buffer is full.
pub open spec fn step_full(s: TrameReaderState, buffer: Seq<Trame>, byte: u8) -> (
    TrameReaderState,
    Seq<Trame>,
) {
    let (s2, emitted) = step_spec(s, byte);
    (
        s2,
        match emitted {
            Some(t) => if buffer.len() < 2048 {
                buffer.push(t)
            } else {
                buffer
            },
            None => buffer,
        },
    )
}

/// The machine and buffer after consuming a whole byte sequence.
pub open spec fn run_reader(s: TrameReaderState, buffer: Seq<Trame>, bytes: Seq<u8>) -> (
    TrameReaderState,
    Seq<Trame>,
)
    decreases bytes.len(),
{
    if bytes.len() == 0 {
        (s, buffer)
    } else {
        let (s2, b2) = step_full(s, buffer, bytes[0]);
        run_reader(s2, b2, bytes.drop_first())
    }
}

/// Deserialises [`Trame`]s from a byte stream.
#[derive(Debug)]
pub struct TrameReader {
    /// Where the machine stands in the stream.
    pub state: TrameReaderState,
    /// The buffer of read trames.
    pub buffer: arrayvec::ArrayVec<Trame, 2048>,
}

impl TrameReader {
    /// The trames read and not yet popped, oldest first.
    pub open spec fn buffer_view(&self) -> Seq<Trame> {
        buffered_trames(&self.buffer)
    }

    /// A reachable reader: a sound machine state and a buffer within its
    /// capacity.
    pub open spec fn wf(&self) -> bool {
        state_wf(self.state) && self.buffer_view().len() <= 2048
    }

    /// A fresh reader hunting for a header, with an empty buffer.
    pub fn new() -> (r: TrameReader)
        ensures
            r.state == TrameReaderState::H1,
            r.buffer_view() == Seq::<Trame>::empty(),
            r.wf(),
    {
        TrameReader { state: TrameReaderState::H1, buffer: buf_new() }
    }

    /// Pop the most recently read trame, or `None` when the buffer is
    /// empty.
    pub fn pop_trame(&mut self) -> (r: Option<Trame>)
        requires
            old(self).wf(),
        ensures
            old(self).buffer_view().len() == 0 ==> r == None::<Trame> && final(self).buffer_view()
                == old(self).buffer_view(),
            old(self).buffer_view().len() > 0 ==> r == Some(old(self).buffer_view().last())
                && final(self).buffer_view() == old(self).buffer_view().drop_last(),
            final(self).state == old(self).state,
            final(self).wf(),
    {
        buf_pop(&mut self.buffer)
    }

    /// How many trames wait in the buffer.
    pub fn get_buffer_size(&mut self) -> (r: usize)
        ensures
            r == old(self).buffer_view().len(),
            final(self).state == old(self).state,
            final(self).buffer_view() == old(self).buffer_view(),
    {
        buf_len(&self.buffer)
    }

    /// Feed every byte of `buf` to the state machine.
    pub fn parse(&mut self, buf: &[u8])
        requires
            old(self).wf(),
        ensures
            (final(self).state, final(self).buffer_view()) == run_reader(
                old(self).state,
                old(self).buffer_view(),
                buf@,
            ),
            final(self).wf(),
    {
        let n = buf.len();
        let mut k: usize = 0;
        proof {
            assert(buf@.skip(0) =~= buf@);
        }
        while k < n
            invariant
                0 <= k <= n == buf@.len(),
                self.wf(),
                run_reader(self.state, self.buffer_view(), buf@.skip(k as int)) == run_reader(
                    old(self).state,
                    old(self).buffer_view(),
                    buf@,
                ),
            decreases n - k,
        {
            let ghost pre_state = self.state;
            let ghost pre_buf = self.buffer_view();
            self.step(buf[k]);
            proof {
                assert(buf@.skip(k as int)[0] == buf@[k as int]);
                assert(buf@.skip(k as int).drop_first() =~= buf@.skip(k as int + 1));
            }
            k = k + 1;
        }
        proof {
            assert(buf@.skip(n as int) =~= Seq::<u8>::empty());
        }
    }

    /// Advance the state machine by one byte.
    fn step(&mut self, byte: u8)
        requires
            old(self).wf(),
        ensures
            (final(self).state, final(self).buffer_view()) == step_full(
                old(self).state,
                old(self).buffer_view(),
                byte,
            ),
            final(self).wf(),
    {
        match self.state {
            TrameReaderState::H1 => {
                self.state = if byte == 0xAC {
                    TrameReaderState::H2
                } else {
                    TrameReaderState::H1
                };
            },
            TrameReaderState::H2 => {
                self.state = if byte == 0xDC {
                    TrameReaderState::H3
                } else {
                    TrameReaderState::H1
                };
            },
            TrameReaderState::H3 => {
                self.state = if byte == 0xAB {
                    TrameReaderState::TypeTrame
                } else {
                    TrameReaderState::H1
                };
            },
            TrameReaderState::TypeTrame => {
                self.state = if byte == 0xBA {
                    TrameReaderState::Pnum
                } else {
                    TrameReaderState::H1
                };
            },
            TrameReaderState::Pnum => {
                self.state = TrameReaderState::Id { pnum: byte };
            },
            TrameReaderState::Id { pnum } => {
                self.state = TrameReaderState::Cmd { id: byte, pnum };
            },
            TrameReaderState::Cmd { id, pnum } => {
                self.state = TrameReaderState::DataLength { id, cmd: byte, pnum };
            },
            TrameReaderState::DataLength { id, cmd, pnum } => {
                if 1 <= byte && byte <= 8 {
                    self.state = TrameReaderState::Data {
                        id,
                        cmd,
                        pnum,
                        data_length: byte,
                        data: [0, 0, 0, 0, 0, 0, 0, 0],
                        current_index: 0,
                    };
                } else if byte == 0 {
                    self.state = TrameReaderState::H1;
                    let t = Trame::new(id, cmd, Some(pnum), 0, [0, 0, 0, 0, 0, 0, 0, 0]);
                    self.push_read_trame(t);
                } else {
                    self.state = TrameReaderState::H1;
                }
            },
            TrameReaderState::Data { id, cmd, pnum, data_length, mut data, current_index } => {
                let ghost prior = data;
                let idx = current_index as usize;
                data[idx] = byte;
                proof {
                    assert(data =~= update_at(prior, current_index as int, byte));
                }
                if current_index + 1 < data_length {
                    self.state = TrameReaderState::Data {
                        id,
                        cmd,
                        pnum,
                        data_length,
                        data,
                        current_index: current_index + 1,
                    };
                } else {
                    let t = Trame::new(id, cmd, Some(pnum), data_length, data);
                    self.push_read_trame(t);
                    self.state = TrameReaderState::H1;
                }
            },
        }
    }

    /// Store a completed trame, dropping it when the buffer is full.
    fn push_read_trame(&mut self, t: Trame)
        requires
            old(self).buffer_view().len() <= 2048,
        ensures
            final(self).buffer_view() == if old(self).buffer_view().len() < 2048 {
                old(self).buffer_view().push(t)
            } else {
                old(self).buffer_view()
            },
            final(self).state == old(self).state,
            final(self).buffer_view().len() <= 2048,
    {
        if buf_len(&self.buffer) < TRAME_READER_INTERNAL_BUFFER_SIZE {
            buf_push(&mut self.buffer, t);
        }
    }
}

} // verus!
