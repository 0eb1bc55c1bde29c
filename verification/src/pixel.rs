//! Pixel reconstruction: replaying the operator sequence through a current
//! pixel and a 64-entry rolling color cache into the output byte buffer.

use vstd::prelude::*;

use crate::operator::{decode_ops, lemma_decode_ops_step, Operator, OperatorIter};
use crate::{wrap_byte, QoiChannels, QoiError};

verus! {

/// The mathematical value of a pixel: its four channel bytes. In RGB mode
/// no alpha is stored, so the model keeps it at the constant 255 there.
pub struct PixelVal {
    pub r: u8,
    pub g: u8,
    pub b: u8,
    pub a: u8,
}

/// The cache slot a pixel hashes to: `(r*3 + g*5 + b*7 + a*11) mod 64`.
pub open spec fn pixel_hash(p: PixelVal) -> int {
    (p.r * 3 + p.g * 5 + p.b * 7 + p.a * 11) % 64
}

/// The cache slot for these channel values. In RGB mode the caller passes
/// 255 for `a`: alpha enters the formula but is never stored as a channel.
pub fn calculate_index(r: u8, g: u8, b: u8, a: u8) -> (i: usize)
    ensures
        i == pixel_hash(PixelVal { r, g, b, a }),
        i < 64,
{
    (r as usize * 3 + g as usize * 5 + b as usize * 7 + a as usize * 11) % 64
}

/// The state the reconstruction carries between operators: the current
/// pixel and the 64-entry cache.
pub struct ReconState {
    pub current: PixelVal,
    pub history: Seq<PixelVal>,
}

/// What the cache is filled with before the first operator: zero in every
/// stored channel. The RGBA cache starts as transparent black; in RGB mode
/// the model's alpha is the constant 255.
pub open spec fn init_cache_pixel(mode: QoiChannels) -> PixelVal {
    PixelVal { r: 0, g: 0, b: 0, a: if mode is Rgb { 255 } else { 0 } }
}

/// The state before the first operator: the current pixel is opaque black,
/// deliberately different from the cache contents.
pub open spec fn init_state(mode: QoiChannels) -> ReconState {
    ReconState {
        current: PixelVal { r: 0, g: 0, b: 0, a: 255 },
        history: Seq::new(64, |i: int| init_cache_pixel(mode)),
    }
}

/// The current pixel with the operator's deltas added to red, green and
/// blue, modulo 256; alpha unchanged.
pub open spec fn diff_pixel(p: PixelVal, dr: u8, dg: u8, db: u8) -> PixelVal {
    PixelVal {
        r: wrap_byte(p.r + dr),
        g: wrap_byte(p.g + dg),
        b: wrap_byte(p.b + db),
        a: p.a,
    }
}

/// The pixel an RGBA operator sets. RGB mode stores no alpha, so the
/// model's alpha stays 255 there.
pub open spec fn rgba_pixel(r: u8, g: u8, b: u8, a: u8, mode: QoiChannels) -> PixelVal {
    PixelVal { r, g, b, a: if mode is Rgb { 255 } else { a } }
}

/// The new current pixel after one operator.
pub open spec fn step_current(st: ReconState, op: Operator, mode: QoiChannels) -> PixelVal {
    match op {
        Operator::Index(i) => st.history[i as int],
        Operator::Diff { diff_red, diff_green, diff_blue } => {
            diff_pixel(st.current, diff_red, diff_green, diff_blue)
        },
        Operator::Run(_) => st.current,
        Operator::Rgb(r, g, b) => PixelVal { r, g, b, a: st.current.a },
        Operator::Rgba(r, g, b, a) => rgba_pixel(r, g, b, a, mode),
    }
}

/// The state after one operator: the new current pixel is stored in the
/// cache slot it hashes to, exactly once per operator, run or not.
pub open spec fn step_state(st: ReconState, op: Operator, mode: QoiChannels) -> ReconState {
    let cur = step_current(st, op, mode);
    ReconState { current: cur, history: st.history.update(pixel_hash(cur), cur) }
}

/// How many copies of the current pixel an operator appends to the output.
pub open spec fn op_run_len(op: Operator) -> int {
    match op {
        Operator::Run(n) => n as int,
        _ => 1,
    }
}

/// The channel bytes a pixel contributes to the output, in r,g,b[,a]
/// order: three bytes in RGB mode, four in RGBA mode.
pub open spec fn chan_bytes(p: PixelVal, mode: QoiChannels) -> Seq<u8> {
    if mode is Rgb {
        seq![p.r, p.g, p.b]
    } else {
        seq![p.r, p.g, p.b, p.a]
    }
}

/// `n` copies of a byte group, back to back.
pub open spec fn repeat_bytes(bytes: Seq<u8>, n: int) -> Seq<u8>
    decreases n,
{
    if n <= 0 {
        Seq::empty()
    } else {
        repeat_bytes(bytes, n - 1) + bytes
    }
}

/// The output bytes of replaying an operator sequence from a given state.
pub open spec fn run_ops(ops: Seq<Operator>, st: ReconState, mode: QoiChannels) -> Seq<u8>
    decreases ops.len(),
{
    if ops.len() == 0 {
        Seq::empty()
    } else {
        let st2 = step_state(st, ops[0], mode);
        repeat_bytes(chan_bytes(st2.current, mode), op_run_len(ops[0])) + run_ops(
            ops.skip(1),
            st2,
            mode,
        )
    }
}

/// The pixel byte buffer an operator sequence reconstructs to, from the
/// fixed initial state of the format.
pub open spec fn reconstruct(ops: Seq<Operator>, mode: QoiChannels) -> Seq<u8> {
    run_ops(ops, init_state(mode), mode)
}

/// The behavioral contract the two pixel shapes share: a channel-value
/// model, the initial states of the format, and the per-operator updates.
pub trait Pixel: Sized + Copy {
    /// The channel values this pixel stands for.
    spec fn chan(self) -> PixelVal;

    /// Which reconstruction mode this shape belongs to.
    spec fn spec_mode() -> QoiChannels;

    /// The 64-entry cache in its initial, all-zero state.
    fn initial_array() -> (h: Vec<Self>)
        ensures
            h@.len() == 64,
            forall|j: int|
                0 <= j < 64 ==> (#[trigger] h@[j]).chan() == init_cache_pixel(Self::spec_mode()),
    ;

    /// The initial current pixel: opaque black.
    fn initial_pixel() -> (p: Self)
        ensures
            p.chan() == (PixelVal { r: 0, g: 0, b: 0, a: 255 }),
    ;

    /// Adds the deltas to red, green and blue modulo 256; alpha unchanged.
    fn apply_diff(&mut self, dr: u8, dg: u8, db: u8)
        ensures
            final(self).chan() == diff_pixel(old(self).chan(), dr, dg, db),
    ;

    /// Sets red, green and blue; alpha unchanged.
    fn set_rgb(&mut self, r: u8, g: u8, b: u8)
        ensures
            final(self).chan() == (PixelVal { r, g, b, a: old(self).chan().a }),
    ;

    /// Sets all four channels; RGB mode stores no alpha.
    fn set_rgba(&mut self, r: u8, g: u8, b: u8, a: u8)
        ensures
            final(self).chan() == rgba_pixel(r, g, b, a, Self::spec_mode()),
    ;

    /// The cache slot this pixel hashes to.
    fn index(&self) -> (i: usize)
        ensures
            i == pixel_hash(self.chan()),
            i < 64,
    ;

    /// Appends this pixel's channel bytes to the output buffer.
    fn write_to_vec(&self, v: &mut Vec<u8>)
        ensures
            final(v)@ == old(v)@ + chan_bytes(self.chan(), Self::spec_mode()),
    ;
}

/// A three-channel pixel: no alpha is stored, and 255 stands in for it
/// wherever the hash formula asks for one.
#[derive(Clone, Copy)]
pub struct Rgb {
    r: u8,
    g: u8,
    b: u8,
}

impl Pixel for Rgb {
    closed spec fn chan(self) -> PixelVal {
        PixelVal { r: self.r, g: self.g, b: self.b, a: 255 }
    }

    open spec fn spec_mode() -> QoiChannels {
        QoiChannels::Rgb
    }

    fn initial_array() -> (h: Vec<Self>) {
        let mut v: Vec<Self> = Vec::new();
        let mut i: usize = 0;
        while i < 64
            invariant
                i <= 64,
                v@.len() == i,
                forall|j: int|
                    0 <= j < i ==> (#[trigger] v@[j]).chan() == init_cache_pixel(
                        QoiChannels::Rgb,
                    ),
            decreases 64 - i,
        {
            v.push(Self { r: 0, g: 0, b: 0 });
            i = i + 1;
        }
        v
    }

    fn initial_pixel() -> (p: Self) {
        Self { r: 0, g: 0, b: 0 }
    }

    fn apply_diff(&mut self, dr: u8, dg: u8, db: u8) {
        proof {
            crate::lemma_wrap_byte(self.r + dr);
            crate::lemma_wrap_byte(self.g + dg);
            crate::lemma_wrap_byte(self.b + db);
        }
        self.r = self.r.wrapping_add(dr);
        self.g = self.g.wrapping_add(dg);
        self.b = self.b.wrapping_add(db);
    }

    fn set_rgb(&mut self, r: u8, g: u8, b: u8) {
        *self = Self { r, g, b };
    }

    fn set_rgba(&mut self, r: u8, g: u8, b: u8, _a: u8) {
        *self = Self { r, g, b };
    }

    fn index(&self) -> (i: usize) {
        calculate_index(self.r, self.g, self.b, 255)
    }

    fn write_to_vec(&self, v: &mut Vec<u8>) {
        v.push(self.r);
        v.push(self.g);
        v.push(self.b);
        proof {
            assert(v@ =~= old(v)@ + chan_bytes(self.chan(), QoiChannels::Rgb));
        }
    }
}

/// A four-channel pixel, alpha stored explicitly.
#[derive(Clone, Copy)]
pub struct Rgba {
    r: u8,
    g: u8,
    b: u8,
    a: u8,
}

impl Pixel for Rgba {
    closed spec fn chan(self) -> PixelVal {
        PixelVal { r: self.r, g: self.g, b: self.b, a: self.a }
    }

    open spec fn spec_mode() -> QoiChannels {
        QoiChannels::Rgba
    }

    fn initial_array() -> (h: Vec<Self>) {
        let mut v: Vec<Self> = Vec::new();
        let mut i: usize = 0;
        while i < 64
            invariant
                i <= 64,
                v@.len() == i,
                forall|j: int|
                    0 <= j < i ==> (#[trigger] v@[j]).chan() == init_cache_pixel(
                        QoiChannels::Rgba,
                    ),
            decreases 64 - i,
        {
            v.push(Self { r: 0, g: 0, b: 0, a: 0 });
            i = i + 1;
        }
        v
    }

    fn initial_pixel() -> (p: Self) {
        Self { r: 0, g: 0, b: 0, a: 255 }
    }

    fn apply_diff(&mut self, dr: u8, dg: u8, db: u8) {
        proof {
            crate::lemma_wrap_byte(self.r + dr);
            crate::lemma_wrap_byte(self.g + dg);
            crate::lemma_wrap_byte(self.b + db);
        }
        self.r = self.r.wrapping_add(dr);
        self.g = self.g.wrapping_add(dg);
        self.b = self.b.wrapping_add(db);
    }

    fn set_rgb(&mut self, r: u8, g: u8, b: u8) {
        *self = Self { r, g, b, a: self.a };
    }

    fn set_rgba(&mut self, r: u8, g: u8, b: u8, a: u8) {
        *self = Self { r, g, b, a };
    }

    fn index(&self) -> (i: usize) {
        calculate_index(self.r, self.g, self.b, self.a)
    }

    fn write_to_vec(&self, v: &mut Vec<u8>) {
        v.push(self.r);
        v.push(self.g);
        v.push(self.b);
        v.push(self.a);
        proof {
            assert(v@ =~= old(v)@ + chan_bytes(self.chan(), QoiChannels::Rgba));
        }
    }
}

/// The relation `process_operators` maintains while it walks the stream:
/// if the whole stream decodes, what is already written plus the replay of
/// the remaining operators from the carried state equals the replay of the
/// whole sequence; if decoding fails, the remaining bytes still fail the
/// same way.
pub open spec fn decode_progress(
    full: Seq<u8>,
    rest: Seq<u8>,
    out: Seq<u8>,
    st: ReconState,
    mode: QoiChannels,
) -> bool {
    match decode_ops(full) {
        Ok(all) => decode_ops(rest) matches Ok(restops) && out + run_ops(restops, st, mode)
            == reconstruct(all, mode),
        Err(e) => decode_ops(rest) == Err::<Seq<Operator>, QoiError>(e),
    }
}

/// Replays the operator stream into the pixel byte buffer, in one forward
/// pass: per operator the current pixel is updated, stored once in its
/// cache slot, and appended `n` times. Returns exactly the bytes that
/// `reconstruct` gives on the decoded operator sequence, or the first
/// error of the stream.
#[verifier::loop_isolation(false)]
pub fn process_operators<P: Pixel>(input: OperatorIter<'_>) -> (r: Result<Vec<u8>, QoiError>)
    ensures
        match decode_ops(input@) {
            Ok(ops) => r matches Ok(out) && out@ == reconstruct(ops, P::spec_mode()),
            Err(e) => r == Err::<Vec<u8>, QoiError>(e),
        },
{
    let ghost full: Seq<u8> = input@;
    let ghost mode: QoiChannels = P::spec_mode();
    let mut it = input;
    let mut output: Vec<u8> = Vec::new();
    let mut history: Vec<P> = P::initial_array();
    let mut pixel: P = P::initial_pixel();
    let ghost mut st: ReconState = init_state(mode);
    proof {
        match decode_ops(full) {
            Ok(all) => {
                assert(output@ + run_ops(all, st, mode) =~= run_ops(all, st, mode));
            },
            Err(_) => {},
        }
    }
    loop
        invariant
            history@.len() == 64,
            st.history.len() == 64,
            forall|j: int| 0 <= j < 64 ==> (#[trigger] history@[j]).chan() == st.history[j],
            pixel.chan() == st.current,
            decode_progress(full, it@, output@, st, mode),
        decreases it@.len(),
    {
        let ghost pre = it@;
        let step = it.next_op();
        proof {
            lemma_decode_ops_step(pre);
        }
        match step {
            Err(e) => {
                return Err(e);
            },
            Ok(None) => {
                proof {
                    assert(output@ + run_ops(Seq::<Operator>::empty(), st, mode) =~= output@);
                }
                return Ok(output);
            },
            Ok(Some(op)) => {
                let n: u8 = match op {
                    Operator::Index(idx) => {
                        assert(idx < 64);
                        pixel = history[idx as usize];
                        1
                    },
                    Operator::Diff { diff_red, diff_green, diff_blue } => {
                        pixel.apply_diff(diff_red, diff_green, diff_blue);
                        1
                    },
                    Operator::Run(length) => length,
                    Operator::Rgb(r, g, b) => {
                        pixel.set_rgb(r, g, b);
                        1
                    },
                    Operator::Rgba(r, g, b, a) => {
                        pixel.set_rgba(r, g, b, a);
                        1
                    },
                };
                let ghost st_pre = st;
                proof {
                    st = step_state(st, op, mode);
                }
                let i = pixel.index();
                history[i] = pixel;
                let ghost base = output@;
                let ghost bytes = chan_bytes(pixel.chan(), mode);
                proof {
                    assert(base + repeat_bytes(bytes, 0) =~= base);
                }
                let mut k: u8 = 0;
                while k < n
                    invariant
                        k <= n,
                        output@ == base + repeat_bytes(bytes, k as int),
                    decreases n - k,
                {
                    pixel.write_to_vec(&mut output);
                    k = k + 1;
                    proof {
                        assert(base + repeat_bytes(bytes, k as int) =~= (base + repeat_bytes(
                            bytes,
                            k - 1,
                        )) + bytes);
                    }
                }
                proof {
                    if decode_ops(full) is Ok {
                        let restops = decode_ops(pre)->Ok_0;
                        let rest2 = decode_ops(it@)->Ok_0;
                        assert(restops == seq![op] + rest2);
                        assert((seq![op] + rest2).skip(1) =~= rest2);
                        assert(run_ops(restops, st_pre, mode) == repeat_bytes(bytes, n as int)
                            + run_ops(rest2, st, mode));
                        assert(base + run_ops(restops, st_pre, mode) == (base + repeat_bytes(
                            bytes,
                            n as int,
                        )) + run_ops(rest2, st, mode)) by {
                            assert(base + (repeat_bytes(bytes, n as int) + run_ops(
                                rest2,
                                st,
                                mode,
                            )) =~= (base + repeat_bytes(bytes, n as int)) + run_ops(
                                rest2,
                                st,
                                mode,
                            ));
                        }
                    }
                }
            },
        }
    }
}

} // verus!
