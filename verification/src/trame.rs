//! The byte-level frame (trame) exchanged with the electronics boards.
//!
//! A trame carries an identifier, a command number, an optional packet
//! number and up to eight data bytes.  On the wire it is preceded by the
//! three-byte header `AC DC AB` and the type byte `BA`.

use vstd::prelude::*;

use crate::utils::slice_to_array_8;

verus! {

/// The data structure used for the electronics communication.
#[derive(Copy, Clone, Debug, Eq)]
pub struct Trame {
    /// The identifier of the trame.
    pub id: u8,
    /// The command number of the trame.
    pub cmd: u8,
    /// The optional packet number of the trame.
    pub pnum: Option<u8>,
    /// How many data bytes the trame holds.
    pub data_length: u8,
    /// The data bytes of the trame.
    pub data: [u8; 8],
}

/// How many data bytes of a trame count: its length, capped at the
/// array's eight.
pub open spec fn data_len(t: Trame) -> int {
    if t.data_length < 8 {
        t.data_length as int
    } else {
        8
    }
}

/// Trame equality: equal fields, with the data compared only up to the
/// data length.
pub open spec fn trame_eq(a: Trame, b: Trame) -> bool {
    a.id == b.id && a.cmd == b.cmd && a.pnum == b.pnum && a.data_length == b.data_length && (forall|
        i: int,
    |
        0 <= i < data_len(a) ==> a.data[i] == b.data[i])
}

impl PartialEq for Trame {
    /// Two trames are equal when their fields are, the data compared
    /// only up to the data length.
    fn eq(&self, rhs: &Trame) -> (r: bool) {
        if !(self.id == rhs.id && self.cmd == rhs.cmd && self.pnum == rhs.pnum && self.data_length
            == rhs.data_length) {
            return false;
        }
        let n: usize = if self.data_length < 8 {
            self.data_length as usize
        } else {
            8
        };
        let mut k: usize = 0;
        while k < n
            invariant
                0 <= k <= n <= 8,
                n == data_len(*self),
                self.data_length == rhs.data_length,
                forall|i: int| 0 <= i < k ==> self.data@[i] == rhs.data@[i],
            decreases n - k,
        {
            if self.data[k] != rhs.data[k] {
                return false;
            }
            k = k + 1;
        }
        true
    }
}

impl vstd::std_specs::cmp::PartialEqSpecImpl for Trame {
    open spec fn obeys_eq_spec() -> bool {
        true
    }

    open spec fn eq_spec(&self, rhs: &Trame) -> bool {
        trame_eq(*self, *rhs)
    }
}

impl Default for Trame {
    /// The empty trame: all fields zero, no packet number.
    fn default() -> (r: Trame)
        ensures
            r == (Trame {
                id: 0u8,
                cmd: 0u8,
                pnum: None::<u8>,
                data_length: 0u8,
                data: [0u8, 0u8, 0u8, 0u8, 0u8, 0u8, 0u8, 0u8],
            }),
    {
        Trame { id: 0, cmd: 0, pnum: None, data_length: 0, data: [0, 0, 0, 0, 0, 0, 0, 0] }
    }
}

impl Trame {
    /// Build a trame from all its fields.
    pub fn new(id: u8, cmd: u8, pnum: Option<u8>, data_length: u8, data: [u8; 8]) -> (t: Trame)
        ensures
            t == (Trame { id, cmd, pnum, data_length, data }),
    {
        Trame { id, cmd, pnum, data_length, data }
    }

    /// Build a trame from a data slice; only the first eight bytes are
    /// kept.
    pub fn new_from_slice(id: u8, cmd: u8, pnum: Option<u8>, data: &[u8]) -> (t: Trame)
        ensures
            t.id == id && t.cmd == cmd && t.pnum == pnum,
            t.data_length == if data@.len() < 8 {
                data@.len() as int
            } else {
                8
            },
            forall|i: int| 0 <= i < t.data_length ==> t.data[i] == data@[i],
            forall|i: int| t.data_length <= i < 8 ==> t.data[i] == 0,
    {
        let (data_copy, size) = slice_to_array_8(data);
        Trame::new(id, cmd, pnum, size, data_copy)
    }

    /// A pong trame: the given identifier, command zero, one data byte
    /// `0xAA`.
    pub fn new_pong(id: u8, pnum: Option<u8>) -> (t: Trame)
        ensures
            t == (Trame {
                id,
                cmd: 0u8,
                pnum,
                data_length: 1u8,
                data: [0xAAu8, 0u8, 0u8, 0u8, 0u8, 0u8, 0u8, 0u8],
            }),
            t.is_pong_spec(),
    {
        Trame::new(id, 0, pnum, 1, [0xAA, 0, 0, 0, 0, 0, 0, 0])
    }

    /// An acknowledgement trame: empty, carrying only the packet number.
    pub fn new_ack(pnum: u8) -> (t: Trame)
        ensures
            t == (Trame {
                id: 0u8,
                cmd: 0u8,
                pnum: Some(pnum),
                data_length: 0u8,
                data: [0u8, 0u8, 0u8, 0u8, 0u8, 0u8, 0u8, 0u8],
            }),
    {
        let mut t = Trame::default();
        t.pnum = Some(pnum);
        t
    }

    /// Whether the trame is a ping: command zero and the single data
    /// byte `0x55`.
    pub open spec fn is_ping_spec(&self) -> bool {
        self.cmd == 0 && self.data_length == 1 && self.data[0] == 0x55
    }

    /// Whether the trame is a ping.
    pub fn is_ping(self) -> (r: bool)
        ensures
            r == self.is_ping_spec(),
    {
        self.cmd == 0 && self.data_length == 1 && self.data[0] == 0x55
    }

    /// Whether the trame is a pong: command zero and the single data
    /// byte `0xAA`.
    pub open spec fn is_pong_spec(&self) -> bool {
        self.cmd == 0 && self.data_length == 1 && self.data[0] == 0xAA
    }

    /// Whether the trame is a pong.
    pub fn is_pong(self) -> (r: bool)
        ensures
            r == self.is_pong_spec(),
    {
        self.cmd == 0 && self.data_length == 1 && self.data[0] == 0xAA
    }

    /// Append one data byte.  Fails exactly when the trame already holds
    /// eight data bytes (or more claims to).
    pub fn push(&mut self, data: u8) -> (r: Result<(), ()>)
        ensures
            old(self).data_length < 8 ==> r == Result::<(), ()>::Ok(()) && *final(self) == (Trame {
                data_length: (old(self).data_length + 1) as u8,
                data: final(self).data,
                ..*old(self)
            }) && final(self).data@ == old(self).data@.update(
                old(self).data_length as int,
                data,
            ),
            old(self).data_length >= 8 ==> r == Result::<(), ()>::Err(()) && *final(self) == *old(
                self,
            ),
    {
        if self.data_length < 8 {
            let idx = self.data_length as usize;
            self.data[idx] = data;
            self.data_length = self.data_length + 1;
            Ok(())
        } else {
            Err(())
        }
    }

    /// Replace the packet number.
    pub fn set_pnum(&mut self, val: Option<u8>)
        ensures
            *final(self) == (Trame { pnum: val, ..*old(self) }),
    {
        self.pnum = val;
    }

    /// Serialise the trame: the three header bytes, the type byte, then
    /// identifier, command, data length and the data bytes.  The
    /// returned size counts the seven fixed bytes plus the data length.
    pub fn into_bytes(self) -> (r: ([u8; 15], usize))
        ensures
            r.0@ =~= seq![
                0xACu8,
                0xDCu8,
                0xABu8,
                0xBAu8,
                self.id,
                self.cmd,
                self.data_length,
                self.data[0],
                self.data[1],
                self.data[2],
                self.data[3],
                self.data[4],
                self.data[5],
                self.data[6],
                self.data[7],
            ],
            r.1 == self.data_length + 7,
    {
        let arr = [
            0xAC,
            0xDC,
            0xAB,
            0xBA,
            self.id,
            self.cmd,
            self.data_length,
            self.data[0],
            self.data[1],
            self.data[2],
            self.data[3],
            self.data[4],
            self.data[5],
            self.data[6],
            self.data[7],
        ];
        (arr, self.data_length as usize + 7)
    }
}

/// Fold an identifier and a command into the two bytes sent on the wire:
/// the identifier's high nibble first, then its low nibble beside the
/// command's low nibble.
pub fn multiplex_id_cmd(id: u8, cmd: u8) -> (r: (u8, u8))
    ensures
        r.0 == (id >> 4) & 0x0F,
        r.1 == ((cmd & 0x0F) + (id << 4)) % 256,
{
    let first = id.wrapping_shr(4) & 0x0F;
    let second = (cmd & 0x0F).wrapping_add(id.wrapping_shl(4));
    proof {
        assert(id.wrapping_shr(4) == id >> 4) by (bit_vector);
        assert(forall|a: u8, b: u8| #[trigger] a.wrapping_add(b) == (a + b) % 256);
        assert((id >> 4) & 0x0F < 16) by (bit_vector);
        assert(cmd & 0x0F < 16) by (bit_vector);
    }
    (first, second)
}

/// Undo [`multiplex_id_cmd`] for identifiers below sixteen: the
/// identifier comes back from the second byte's high nibble, the command
/// from its low nibble.
pub fn demultiplex_id_cmd(first: u8, second: u8) -> (r: (u8, u8))
    ensures
        r.0 == second >> 4,
        r.1 == second & 0x0F,
{
    let data = make_u16(first, second);
    let id: u8 = data.wrapping_shr(4) as u8;
    let cmd: u8 = (data as u8) & 0x0F;
    proof {
        assert(((second as u16) >> 4) as u8 == second >> 4 && (second as u16) as u8 == second
            && (second as u16) >> 4 == ((second as u16) >> 4) as u8) by (bit_vector);
    }
    (id, cmd)
}

/// The low byte widened; the high byte's bits are shifted out entirely,
/// so only the low byte ever lands in the result.
fn make_u16(high: u8, low: u8) -> (r: u16)
    ensures
        r == low as u16,
{
    proof {
        assert((high as u16).wrapping_shr(8) == 0) by (bit_vector)
            requires
                high <= 255,
        ;
    }
    (low as u16).wrapping_add((high as u16).wrapping_shr(8))
}

/// Multiplexing then demultiplexing restores any identifier below
/// sixteen together with its four-bit command: when `second` is the
/// second wire byte of such a pair, its high nibble is the identifier
/// and its low nibble the command.
pub proof fn lemma_multiplex_round_trip(id: u8, cmd: u8, second: u8)
    requires
        id < 16,
        cmd < 16,
        second == ((cmd & 0x0F) + (id << 4)) % 256,
    ensures
        second >> 4 == id,
        second & 0x0F == cmd,
{
    assert(second >> 4 == id && second & 0x0F == cmd) by (bit_vector)
        requires
            id < 16 && cmd < 16 && second == ((cmd & 0x0F) + (id << 4)) % 256,
    ;
}

} // verus!
