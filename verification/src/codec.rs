//! The codec contract for messages that cross an isolation boundary.
//!
//! Inside this in-process model messages travel as values; a real runtime
//! moves actors into memory-isolated units, and every message must then be
//! representable as self-contained bytes. [`Message`] is that capability:
//! an encoding, a decoding, and — as a proof obligation every implementor
//! discharges — the guarantee that decoding an encoding yields the original
//! value, for every constructible value. A decode failure on received bytes
//! is therefore a version-mismatch or programming error: callers should
//! fail loudly on `None`, not guess.

use vstd::prelude::*;

use crate::counter::{CounterInput, CounterOutput};

verus! {

/// A value that can cross an isolation boundary as self-contained bytes.
pub trait Message: Sized {
    /// The bytes `encode` produces.
    spec fn enc_spec(self) -> Seq<u8>;

    /// The value, if any, `decode` reads back from `bytes`.
    spec fn dec_spec(bytes: Seq<u8>) -> Option<Self>;

    /// Marshals the value into self-contained bytes.
    fn encode(&self) -> (r: Vec<u8>)
        ensures
            r@ == self.enc_spec(),
    ;

    /// Reads a value back from bytes, or `None` when the bytes are not an
    /// encoding.
    fn decode(bytes: &Vec<u8>) -> (r: Option<Self>)
        ensures
            r == Self::dec_spec(bytes@),
    ;

    /// The codec round trip: decoding an encoding yields the original
    /// value, for every constructible value.
    proof fn round_trip(v: Self)
        ensures
            Self::dec_spec(v.enc_spec()) == Some(v),
    ;
}

impl Message for CounterInput {
    closed spec fn enc_spec(self) -> Seq<u8> {
        match self {
            CounterInput::AddOne => seq![0u8],
            CounterInput::Stop => seq![1u8],
        }
    }

    closed spec fn dec_spec(bytes: Seq<u8>) -> Option<CounterInput> {
        if bytes.len() == 1 && bytes[0] == 0u8 {
            Some(CounterInput::AddOne)
        } else if bytes.len() == 1 && bytes[0] == 1u8 {
            Some(CounterInput::Stop)
        } else {
            None
        }
    }

    fn encode(&self) -> (r: Vec<u8>) {
        let mut r: Vec<u8> = Vec::new();
        match self {
            CounterInput::AddOne => r.push(0u8),
            CounterInput::Stop => r.push(1u8),
        }
        proof {
            assert(r@ =~= self.enc_spec());
        }
        r
    }

    fn decode(bytes: &Vec<u8>) -> (r: Option<CounterInput>) {
        if bytes.len() == 1 {
            if bytes[0] == 0u8 {
                Some(CounterInput::AddOne)
            } else if bytes[0] == 1u8 {
                Some(CounterInput::Stop)
            } else {
                None
            }
        } else {
            None
        }
    }

    proof fn round_trip(v: CounterInput) {
    }
}

impl Message for CounterOutput {
    closed spec fn enc_spec(self) -> Seq<u8> {
        match self {
            CounterOutput::Count(v) => seq![
                (v & 0xff) as u8,
                ((v >> 8) & 0xff) as u8,
                ((v >> 16) & 0xff) as u8,
                ((v >> 24) & 0xff) as u8,
            ],
        }
    }

    closed spec fn dec_spec(bytes: Seq<u8>) -> Option<CounterOutput> {
        if bytes.len() == 4 {
            Some(CounterOutput::Count(
                (bytes[0] as u32) | ((bytes[1] as u32) << 8) | ((bytes[2] as u32) << 16)
                    | ((bytes[3] as u32) << 24),
            ))
        } else {
            None
        }
    }

    fn encode(&self) -> (r: Vec<u8>) {
        let v: u32 = match self {
            CounterOutput::Count(v) => *v,
        };
        let mut r: Vec<u8> = Vec::new();
        r.push((v & 0xff) as u8);
        r.push(((v >> 8) & 0xff) as u8);
        r.push(((v >> 16) & 0xff) as u8);
        r.push(((v >> 24) & 0xff) as u8);
        proof {
            assert(r@ =~= self.enc_spec());
        }
        r
    }

    fn decode(bytes: &Vec<u8>) -> (r: Option<CounterOutput>) {
        if bytes.len() == 4 {
            let v: u32 = (bytes[0] as u32) | ((bytes[1] as u32) << 8)
                | ((bytes[2] as u32) << 16) | ((bytes[3] as u32) << 24);
            Some(CounterOutput::Count(v))
        } else {
            None
        }
    }

    proof fn round_trip(v: CounterOutput) {
        let n = v->Count_0;
        assert(((n & 0xff) as u8 as u32) | (((n >> 8) & 0xff) as u8 as u32) << 8
            | (((n >> 16) & 0xff) as u8 as u32) << 16
            | (((n >> 24) & 0xff) as u8 as u32) << 24 == n) by (bit_vector);
    }
}

} // verus!
