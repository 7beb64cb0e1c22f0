//! The Annex-B byte-stream scanner and the pull-based stream reader.
//!
//! An Annex-B elementary stream is `start_code NALU start_code NALU ...`,
//! where a start code is `00 00 01` or `00 00 00 01` and unit bodies carry
//! emulation-prevention escapes: an inserted `0x03` after `00 00` that must
//! be dropped on decode. The scanner works in two phases per unit: seek the
//! start code (skipping any run of zero bytes before the `0x01`), then
//! collect and de-escape the body until the next start code or the end of
//! the data.

use vstd::prelude::*;

verus! {

use crate::error::Error;
use crate::nalu::{Nalu, nalu_result_matches};

/// The container format of a stream.
#[derive(Debug, Clone, Copy, PartialEq, Eq, Structural)]
pub enum StreamFormat {
    /// The start-code-delimited Annex-B byte stream.
    AnnexB,
    /// The length-prefixed container; recognized but not implemented.
    AvcC,
}

/// Consume start-code bytes: any run of zero bytes, then the `0x01` that
/// ends the start code. Any other byte is a malformed stream; no byte at all
/// is the end of the data. Returns the outcome and the bytes that remain.
pub open spec fn seek_start(bytes: Seq<u8>) -> (Result<(), Error>, Seq<u8>)
    decreases bytes.len(),
{
    if bytes.len() == 0 {
        (Err(Error::UnexpectedEndOfData), bytes)
    } else if bytes[0] == 0x01 {
        (Ok(()), bytes.skip(1))
    } else if bytes[0] == 0x00 {
        seek_start(bytes.skip(1))
    } else {
        (Err(Error::MalformedInput), bytes.skip(1))
    }
}

/// Collect one unit body. `zrun` counts the zero bytes just collected and
/// `acc` holds the body so far. After at least two zero bytes, a `0x03` is
/// an emulation-prevention escape and is dropped, and a `0x01` ends the
/// unit: the zero run belongs to the next start code and is removed from the
/// body, and the `0x01` is left in the stream for the next seek. The end of
/// the data also ends the unit. Returns the body and the bytes that remain.
pub open spec fn collect_body(bytes: Seq<u8>, zrun: nat, acc: Seq<u8>) -> (Seq<u8>, Seq<u8>)
    decreases bytes.len(),
{
    if bytes.len() == 0 {
        (acc, bytes)
    } else {
        let b = bytes[0];
        if b == 0x00 {
            collect_body(bytes.skip(1), zrun + 1, acc.push(0x00))
        } else if b == 0x03 && zrun >= 2 {
            collect_body(bytes.skip(1), 0, acc)
        } else if b == 0x01 && zrun >= 2 {
            (acc.subrange(0, acc.len() - zrun), bytes)
        } else {
            collect_body(bytes.skip(1), 0, acc.push(b))
        }
    }
}

/// Scan one unit out of the stream: seek a start code, then collect the
/// de-escaped body. Returns the body or the seek error, and the bytes that
/// remain.
pub open spec fn scan_unit(bytes: Seq<u8>) -> (Result<Seq<u8>, Error>, Seq<u8>) {
    let sought = seek_start(bytes);
    match sought.0 {
        Err(e) => (Err(e), sought.1),
        Ok(_) => {
            let collected = collect_body(sought.1, 0, Seq::empty());
            (Ok(collected.0), collected.1)
        },
    }
}

/// A pull-based, forward-only reader of NAL units over an in-memory byte
/// stream.
#[derive(Debug)]
pub struct StreamReader {
    /// The stream bytes.
    pub data: Vec<u8>,
    /// The index of the next byte to read.
    pub pos: usize,
    pub format: StreamFormat,
    /// The transient per-unit scan buffer.
    pub buffer: Vec<u8>,
    /// The single byte of look-ahead that the scanner pushed back.
    pub last_byte: Option<u8>,
}

impl StreamReader {
    /// The bytes not yet consumed, the pushed-back byte first.
    pub open spec fn remaining(&self) -> Seq<u8> {
        match self.last_byte {
            Some(b) => seq![b] + self.data@.skip(self.pos as int),
            None => self.data@.skip(self.pos as int),
        }
    }

    pub open spec fn wf(&self) -> bool {
        self.pos <= self.data@.len()
    }

    pub fn new(data: Vec<u8>, format: StreamFormat) -> (r: StreamReader)
        ensures
            r.wf(),
            r.remaining() == data@,
            r.format == format,
            r.buffer@ == Seq::<u8>::empty(),
    {
        let r = StreamReader { data, pos: 0, format, buffer: Vec::new(), last_byte: None };
        proof {
            assert(r.remaining() =~= r.data@);
        }
        r
    }

    /// The unit buffer of the last scan.
    pub fn buffer(&self) -> (r: &Vec<u8>)
        ensures
            r@ == self.buffer@,
    {
        &self.buffer
    }

    /// Read one byte: the pushed-back byte if there is one, else the next
    /// stream byte.
    pub fn next_byte(&mut self) -> (r: Result<u8, Error>)
        requires
            old(self).wf(),
        ensures
            final(self).wf(),
            final(self).format == old(self).format,
            final(self).buffer@ == old(self).buffer@,
            final(self).last_byte == Option::<u8>::None,
            old(self).remaining().len() > 0 ==> r == Ok::<u8, Error>(old(self).remaining()[0])
                && final(self).remaining() == old(self).remaining().skip(1),
            old(self).remaining().len() == 0 ==> r == Err::<u8, Error>(Error::UnexpectedEndOfData)
                && *final(self) == *old(self),
    {
        match self.last_byte {
            Some(b) => {
                self.last_byte = None;
                proof {
                    assert(self.remaining() =~= old(self).remaining().skip(1));
                }
                Ok(b)
            },
            None => {
                if self.pos < self.data.len() {
                    let b = self.data[self.pos];
                    self.pos = self.pos + 1;
                    proof {
                        assert(self.remaining() =~= old(self).remaining().skip(1));
                    }
                    Ok(b)
                } else {
                    proof {
                        assert(self.data@.skip(self.pos as int) =~= Seq::<u8>::empty());
                    }
                    Err(Error::UnexpectedEndOfData)
                }
            },
        }
    }

    /// Scan the next Annex-B unit: consume its start code, collect and
    /// de-escape its body into the scan buffer, and decode the body as a NAL
    /// unit.
    pub fn next_annex_b_nalu(&mut self) -> (r: Result<Nalu, Error>)
        requires
            old(self).wf(),
        ensures
            final(self).wf(),
            final(self).format == old(self).format,
            final(self).remaining() == scan_unit(old(self).remaining()).1,
            (match scan_unit(old(self).remaining()).0 {
                Ok(body) => final(self).buffer@ == body && nalu_result_matches(body, r),
                Err(e) => r == Err::<Nalu, Error>(e) && final(self).buffer@
                    == Seq::<u8>::empty(),
            }),
    {
        let ghost rem0 = old(self).remaining();
        self.buffer.clear();
        loop
            invariant_except_break
                self.wf(),
                rem0 == old(self).remaining(),
                self.format == old(self).format,
                self.buffer@ == Seq::<u8>::empty(),
                seek_start(rem0) == seek_start(self.remaining()),
            ensures
                self.wf(),
                rem0 == old(self).remaining(),
                self.format == old(self).format,
                self.buffer@ == Seq::<u8>::empty(),
                self.last_byte == Option::<u8>::None,
                seek_start(rem0) == (Ok::<(), Error>(()), self.remaining()),
            decreases self.remaining().len(),
        {
            let b = match self.next_byte() {
                Ok(b) => b,
                Err(e) => {
                    return Err(e);
                },
            };
            if b == 0x01 {
                break ;
            }
            if b != 0x00 {
                return Err(Error::MalformedInput);
            }
        }
        let ghost mid = self.remaining();
        let mut zrun: usize = 0;
        proof {
            assert(self.buffer@ =~= Seq::<u8>::empty());
        }
        loop
            invariant_except_break
                self.wf(),
                rem0 == old(self).remaining(),
                self.format == old(self).format,
                self.last_byte == Option::<u8>::None,
                seek_start(rem0) == (Ok::<(), Error>(()), mid),
                zrun <= self.buffer@.len(),
                forall|j: int|
                    self.buffer@.len() - zrun <= j < self.buffer@.len() ==> self.buffer@[j] == 0x00,
                collect_body(mid, 0, Seq::empty()) == collect_body(
                    self.remaining(),
                    zrun as nat,
                    self.buffer@,
                ),
            ensures
                self.wf(),
                rem0 == old(self).remaining(),
                self.format == old(self).format,
                seek_start(rem0) == (Ok::<(), Error>(()), mid),
                collect_body(mid, 0, Seq::empty()) == (self.buffer@, self.remaining()),
            decreases self.remaining().len(),
        {
            let ghost cur = self.remaining();
            let ghost buf0 = self.buffer@;
            let b = match self.next_byte() {
                Ok(b) => b,
                Err(_) => {
                    break ;
                },
            };
            if b == 0x00 {
                self.buffer.push(0x00);
                // The zero run never outgrows the buffer, whose length bounds
                // the count.
                if zrun < self.buffer.len() {
                    zrun = zrun + 1;
                }
            } else if b == 0x03 && zrun >= 2 {
                zrun = 0;
            } else if b == 0x01 && zrun >= 2 {
                let keep = self.buffer.len() - zrun;
                self.buffer.truncate(keep);
                self.last_byte = Some(0x01);
                proof {
                    assert(self.buffer@ =~= buf0.subrange(0, keep as int));
                    assert(self.remaining() =~= cur);
                }
                break ;
            } else {
                self.buffer.push(b);
                zrun = 0;
            }
        }
        Nalu::from_bytes(&self.buffer)
    }

    /// Scan a unit of the length-prefixed container format, which is not
    /// implemented.
    pub fn next_avcc_nalu(&mut self) -> (r: Result<Nalu, Error>)
        ensures
            *final(self) == *old(self),
            r == Err::<Nalu, Error>(Error::UnsupportedFormat),
    {
        Err(Error::UnsupportedFormat)
    }

    /// Pull the next unit in the reader's format. A clean end of the stream
    /// (the data exhausted where a unit could start) is `None`; any other
    /// failure is surfaced as an error item. The scan buffer is cleared
    /// afterwards.
    pub fn next_nalu(&mut self) -> (r: Option<Result<Nalu, Error>>)
        requires
            old(self).wf(),
        ensures
            final(self).wf(),
            final(self).format == old(self).format,
            final(self).buffer@ == Seq::<u8>::empty(),
            old(self).format == StreamFormat::AvcC ==> r == Some(
                Err::<Nalu, Error>(Error::UnsupportedFormat),
            ) && final(self).remaining() == old(self).remaining(),
            old(self).format == StreamFormat::AnnexB ==> final(self).remaining() == scan_unit(
                old(self).remaining(),
            ).1 && (match scan_unit(old(self).remaining()).0 {
                Ok(body) => (r matches Some(item) && nalu_result_matches(body, item)),
                Err(e) => (if e == Error::UnexpectedEndOfData {
                    r == Option::<Result<Nalu, Error>>::None
                } else {
                    r == Some(Err::<Nalu, Error>(e))
                }),
            }),
    {
        let res = match self.format {
            StreamFormat::AnnexB => self.next_annex_b_nalu(),
            StreamFormat::AvcC => self.next_avcc_nalu(),
        };
        self.buffer.clear();
        match res {
            Ok(nalu) => Some(Ok(nalu)),
            Err(Error::UnexpectedEndOfData) => None,
            Err(e) => Some(Err(e)),
        }
    }
}

} // verus!
