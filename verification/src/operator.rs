//! The operator stream: a forward-only cursor over the body bytes that
//! yields one typed operator at a time until the end marker.

use vstd::prelude::*;

use crate::{wrap_byte, QoiError};

verus! {

/// One instruction of the QOI body stream.
#[derive(Clone, Copy, Debug, PartialEq, Eq, Structural)]
pub enum Operator {
    /// Reuse the cached pixel at this index (always below 64).
    Index(u8),
    /// Add these mod-256 deltas to the red, green and blue channels;
    /// alpha is unaffected. Covers both the two-bit "diff" and the
    /// six-bit "luma" encodings.
    Diff { diff_red: u8, diff_green: u8, diff_blue: u8 },
    /// Repeat the current pixel this many times (between 1 and 62).
    Run(u8),
    /// Set red, green and blue explicitly; alpha is unaffected.
    Rgb(u8, u8, u8),
    /// Set all four channels explicitly.
    Rgba(u8, u8, u8, u8),
}

/// Whether the stream's next eight bytes are the QOI end marker
/// `00 00 00 00 00 00 00 01`.
pub open spec fn is_end_marker(b: Seq<u8>) -> bool {
    &&& b.len() >= 8
    &&& b[0] == 0u8
    &&& b[1] == 0u8
    &&& b[2] == 0u8
    &&& b[3] == 0u8
    &&& b[4] == 0u8
    &&& b[5] == 0u8
    &&& b[6] == 0u8
    &&& b[7] == 1u8
}

/// Total size in bytes, tag included, of the operator introduced by this
/// tag byte.
pub open spec fn op_size(tag: u8) -> int {
    if tag < 64 {
        1  // index
    } else if tag < 128 {
        1  // diff
    } else if tag < 192 {
        2  // luma
    } else if tag == 254 {
        4  // rgb
    } else if tag == 255 {
        5  // rgba
    } else {
        1  // run
    }
}

/// The operator at the front of the stream. Meaningful when the stream
/// holds at least `op_size(b[0])` bytes.
pub open spec fn decode_op(b: Seq<u8>) -> Operator
    recommends
        b.len() >= op_size(b[0]),
{
    let tag = b[0];
    if tag < 64 {
        Operator::Index(tag)
    } else if tag < 128 {
        Operator::Diff {
            diff_red: wrap_byte((tag / 16) % 4 - 2),
            diff_green: wrap_byte((tag / 4) % 4 - 2),
            diff_blue: wrap_byte(tag % 4 - 2),
        }
    } else if tag < 192 {
        let dg = tag % 64 - 32;
        Operator::Diff {
            diff_red: wrap_byte(b[1] / 16 - 8 + dg),
            diff_green: wrap_byte(dg),
            diff_blue: wrap_byte(b[1] % 16 - 8 + dg),
        }
    } else if tag == 254 {
        Operator::Rgb(b[1], b[2], b[3])
    } else if tag == 255 {
        Operator::Rgba(b[1], b[2], b[3], b[4])
    } else {
        Operator::Run((tag - 192 + 1) as u8)
    }
}

/// One decoding step: the clean end of the stream, an error, or the front
/// operator. The end marker is looked for before every operator.
pub open spec fn spec_step(b: Seq<u8>) -> Result<Option<Operator>, QoiError> {
    if is_end_marker(b) {
        Ok(None)
    } else if b.len() == 0 {
        Err(QoiError::UnterminatedStream)
    } else if b.len() < op_size(b[0]) {
        Err(QoiError::TruncatedOperatorStream)
    } else {
        Ok(Some(decode_op(b)))
    }
}

/// The whole operator sequence of a body stream, or the first error:
/// truncation inside an operator, or exhaustion without the end marker.
pub open spec fn decode_ops(b: Seq<u8>) -> Result<Seq<Operator>, QoiError>
    decreases b.len(),
{
    if is_end_marker(b) {
        Ok(Seq::empty())
    } else if b.len() == 0 {
        Err(QoiError::UnterminatedStream)
    } else if b.len() < op_size(b[0]) {
        Err(QoiError::TruncatedOperatorStream)
    } else {
        match decode_ops(b.skip(op_size(b[0]))) {
            Ok(rest) => Ok(seq![decode_op(b)] + rest),
            Err(e) => Err(e),
        }
    }
}

/// How `decode_ops` relates to one step of the cursor: the step's operator
/// is the head of the decoded sequence, and errors propagate.
pub proof fn lemma_decode_ops_step(b: Seq<u8>)
    ensures
        match spec_step(b) {
            Ok(None) => decode_ops(b) == Ok::<Seq<Operator>, QoiError>(Seq::empty()),
            Ok(Some(op)) => decode_ops(b) == (match decode_ops(b.skip(op_size(b[0]))) {
                Ok(rest) => Ok::<Seq<Operator>, QoiError>(seq![op] + rest),
                Err(e) => Err::<Seq<Operator>, QoiError>(e),
            }),
            Err(e) => decode_ops(b) == Err::<Seq<Operator>, QoiError>(e),
        },
{
}

/// The bounds the data model puts on an operator: an index below 64, a
/// run length between 1 and 62.
pub open spec fn op_wf(op: Operator) -> bool {
    match op {
        Operator::Index(i) => i < 64,
        Operator::Run(n) => 1 <= n <= 62,
        _ => true,
    }
}

/// Run decoding: a tag byte with top bits `11` and low six bits up to 61
/// is a run of the low six bits plus one pixels; the two remaining tags
/// of that group are the RGB and RGBA operators, never a run.
pub proof fn lemma_run_decoding(b: Seq<u8>)
    requires
        b.len() >= 1,
    ensures
        192 <= b[0] <= 253 ==> decode_op(b) == Operator::Run((b[0] - 192 + 1) as u8),
        192 <= b[0] <= 253 ==> 1 <= b[0] - 192 + 1 <= 62,
        b[0] == 254 ==> decode_op(b) is Rgb,
        b[0] == 255 ==> decode_op(b) is Rgba,
{
}

/// Every operator one decoding step yields respects the data model.
pub proof fn lemma_step_op_wf(b: Seq<u8>)
    ensures
        spec_step(b) matches Ok(Some(op)) ==> op_wf(op),
{
}

/// A forward-only cursor that decodes the body byte stream one operator
/// at a time. A fresh cursor is made per decode call; it is finite and
/// not restartable.
pub struct OperatorIter<'a> {
    input: &'a [u8],
}

impl<'a> View for OperatorIter<'a> {
    type V = Seq<u8>;

    closed spec fn view(&self) -> Seq<u8> {
        self.input@
    }
}

impl<'a> OperatorIter<'a> {
    /// Starts a cursor at the front of a body byte stream.
    pub fn new(input: &'a [u8]) -> (it: Self)
        ensures
            it@ == input@,
    {
        Self { input }
    }

    /// Drops the front `n` bytes of the stream.
    fn advance(&mut self, n: usize)
        requires
            n <= old(self)@.len(),
        ensures
            final(self)@ == old(self)@.skip(n as int),
    {
        let len = self.input.len();
        self.input = vstd::slice::slice_subrange(self.input, n, len);
    }

    /// Whether the next eight bytes are the end marker.
    fn at_end_marker(&self) -> (r: bool)
        ensures
            r == is_end_marker(self@),
    {
        let s = self.input;
        s.len() >= 8 && s[0] == 0 && s[1] == 0 && s[2] == 0 && s[3] == 0 && s[4] == 0
            && s[5] == 0 && s[6] == 0 && s[7] == 1
    }

    /// Produces the next operator, `Ok(None)` at the end marker, or the
    /// error the stream runs into: `TruncatedOperatorStream` when an
    /// operator declares more bytes than remain, `UnterminatedStream`
    /// when the bytes are exhausted without the marker.
    pub fn next_op(&mut self) -> (r: Result<Option<Operator>, QoiError>)
        ensures
            r == spec_step(old(self)@),
            match r {
                Ok(Some(_)) => final(self)@ == old(self)@.skip(op_size(old(self)@[0])),
                _ => final(self)@ == old(self)@,
            },
    {
        if self.at_end_marker() {
            return Ok(None);
        }
        let len = self.input.len();
        if len == 0 {
            return Err(QoiError::UnterminatedStream);
        }
        let op = self.input[0];
        if op < 64 {
            self.advance(1);
            Ok(Some(Operator::Index(op)))
        } else if op < 128 {
            let dr = ((op / 16) % 4).wrapping_sub(2);
            let dg = ((op / 4) % 4).wrapping_sub(2);
            let db = (op % 4).wrapping_sub(2);
            proof {
                crate::lemma_wrap_byte((op / 16) % 4 - 2);
                crate::lemma_wrap_byte((op / 4) % 4 - 2);
                crate::lemma_wrap_byte(op % 4 - 2);
            }
            self.advance(1);
            Ok(Some(Operator::Diff { diff_red: dr, diff_green: dg, diff_blue: db }))
        } else if op < 192 {
            if len < 2 {
                return Err(QoiError::TruncatedOperatorStream);
            }
            let next = self.input[1];
            let dg = (op % 64).wrapping_sub(32);
            let dr = (next / 16).wrapping_add(dg).wrapping_sub(8);
            let db = (next % 16).wrapping_add(dg).wrapping_sub(8);
            proof {
                crate::lemma_wrap_byte(op % 64 - 32);
                crate::lemma_wrap_byte(next / 16 - 8 + (op % 64 - 32));
                crate::lemma_wrap_byte(next % 16 - 8 + (op % 64 - 32));
            }
            self.advance(2);
            Ok(Some(Operator::Diff { diff_red: dr, diff_green: dg, diff_blue: db }))
        } else if op == 254 {
            if len < 4 {
                return Err(QoiError::TruncatedOperatorStream);
            }
            let r = self.input[1];
            let g = self.input[2];
            let b = self.input[3];
            self.advance(4);
            Ok(Some(Operator::Rgb(r, g, b)))
        } else if op == 255 {
            if len < 5 {
                return Err(QoiError::TruncatedOperatorStream);
            }
            let r = self.input[1];
            let g = self.input[2];
            let b = self.input[3];
            let a = self.input[4];
            self.advance(5);
            Ok(Some(Operator::Rgba(r, g, b, a)))
        } else {
            self.advance(1);
            Ok(Some(Operator::Run(op - 192 + 1)))
        }
    }
}

} // verus!
