//! The agent's serial endpoint: the part of reading the line that can be
//! reasoned about, the scan for the record separator that ends a message.
//! Opening, reading and flushing the port itself is host plumbing outside
//! this library; it feeds the buffers in and sends the framed bytes out.
use vstd::prelude::*;

verus! {

/// The record separator (0x1c) that ends a message on the serial line.
pub const MESSAGE_DELIMITER: u8 = 28;

/// The position of the first record separator in a buffer, if any.
fn find_delimiter(buf: &[u8]) -> (r: Option<usize>)
    ensures
        r matches Some(i) ==> i < buf@.len() && buf@[i as int] == MESSAGE_DELIMITER && (forall|
            j: int,
        |
            0 <= j < i ==> buf@[j] != MESSAGE_DELIMITER),
        r is None ==> forall|j: int| 0 <= j < buf@.len() ==> buf@[j] != MESSAGE_DELIMITER,
{
    let n = buf.len();
    let mut k: usize = 0;
    while k < n
        invariant
            n == buf@.len(),
            k <= n,
            forall|j: int| 0 <= j < k ==> buf@[j] != MESSAGE_DELIMITER,
        decreases n - k,
    {
        if buf[k] == MESSAGE_DELIMITER {
            return Some(k);
        }
        k += 1;
    }
    None
}

/// The serial endpoint: where the line lives and how fast it talks.
pub struct ExternalApi {
    pub serial_path: String,
    pub serial_baud_rate: u32,
}

impl ExternalApi {
    /// An endpoint on the given serial path and baud rate.
    pub fn new(serial_path: String, serial_baud_rate: u32) -> (r: Self)
        ensures
            r.serial_path == serial_path,
            r.serial_baud_rate == serial_baud_rate,
    {
        Self { serial_path, serial_baud_rate }
    }

    /// Feeds one received buffer into the assembled message: everything
    /// before the first record separator is appended and true is returned;
    /// without a separator the whole buffer is appended and false says the
    /// message goes on.
    pub fn append_data_before_delimiter(&mut self, buf: &[u8], data_received: &mut Vec<u8>) -> (r:
        bool)
        ensures
            *final(self) == *old(self),
            r == (exists|i: int| 0 <= i < buf@.len() && buf@[i] == MESSAGE_DELIMITER),
            r ==> (exists|i: int|
                0 <= i < buf@.len() && buf@[i] == MESSAGE_DELIMITER && (forall|j: int|
                    0 <= j < i ==> buf@[j] != MESSAGE_DELIMITER) && final(data_received)@ == old(
                    data_received,
                )@ + buf@.subrange(0, i)),
            !r ==> final(data_received)@ == old(data_received)@ + buf@,
    {
        let n = buf.len();
        let pos = find_delimiter(buf);
        match pos {
            Some(i) => {
                let mut j: usize = 0;
                while j < i
                    invariant
                        i < buf@.len(),
                        j <= i,
                        data_received@ == old(data_received)@ + buf@.subrange(0, j as int),
                    decreases i - j,
                {
                    proof {
                        assert(buf@.subrange(0, j + 1) =~= buf@.subrange(0, j as int).push(
                            buf@[j as int],
                        ));
                    }
                    data_received.push(buf[j]);
                    j += 1;
                }
                true
            },
            None => {
                let mut j: usize = 0;
                while j < n
                    invariant
                        n == buf@.len(),
                        j <= n,
                        data_received@ == old(data_received)@ + buf@.subrange(0, j as int),
                    decreases n - j,
                {
                    proof {
                        assert(buf@.subrange(0, j + 1) =~= buf@.subrange(0, j as int).push(
                            buf@[j as int],
                        ));
                    }
                    data_received.push(buf[j]);
                    j += 1;
                }
                proof {
                    assert(buf@.subrange(0, n as int) =~= buf@);
                }
                false
            },
        }
    }
}

} // verus!
