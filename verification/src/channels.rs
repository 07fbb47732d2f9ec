//! From the channels of a host port to the working buffers, and back.

use vstd::prelude::*;

verus! {

/// What the host offers for one channel. An output goes with every variant but `InputOnly`.
pub enum ChannelPair<'a, T> {
    InputOutput(&'a [T]),
    InPlace(&'a [T]),
    InputOnly(&'a [T]),
    OutputOnly,
}

impl<'a, T> ChannelPair<'a, T> {
    /// The input of the channel, if it has one.
    pub open spec fn input_spec(self) -> Option<Seq<T>> {
        match self {
            ChannelPair::InputOutput(i) => Some(i@),
            ChannelPair::InPlace(io) => Some(io@),
            ChannelPair::InputOnly(i) => Some(i@),
            ChannelPair::OutputOnly => None,
        }
    }

    /// Whether the channel has an output.
    pub open spec fn has_output_spec(self) -> bool {
        !(self is InputOnly)
    }

    fn input(&self) -> (input: Option<&'a [T]>)
        ensures
            match input {
                Some(i) => self.input_spec() == Some(i@),
                None => self.input_spec() is None,
            },
    {
        match self {
            ChannelPair::InputOutput(i) => Some(*i),
            ChannelPair::InPlace(io) => Some(*io),
            ChannelPair::InputOnly(i) => Some(*i),
            ChannelPair::OutputOnly => None,
        }
    }

    fn has_output(&self) -> (yes: bool)
        ensures
            yes == self.has_output_spec(),
    {
        !matches!(self, ChannelPair::InputOnly(_))
    }
}

/// The input that a channel of a port carries.
pub open spec fn channel_input<T>(pair: Option<ChannelPair<T>>) -> Option<Seq<T>> {
    match pair {
        Some(p) => p.input_spec(),
        None => None,
    }
}

/// Which channels can be written to.
#[derive(Clone, Copy, Debug, PartialEq, Eq, Structural)]
pub struct ChannelOutputs {
    pub left: bool,
    pub right: bool,
}

/// `after` is `before` with its first `n` elements taken from `source`.
pub open spec fn starts_with<T>(before: Seq<T>, after: Seq<T>, source: Seq<T>, n: int) -> bool {
    &&& after.len() == before.len()
    &&& forall|i: int| 0 <= i < n ==> #[trigger] after[i] == source[i]
    &&& forall|i: int| n <= i < before.len() ==> #[trigger] after[i] == before[i]
}

/// `after` is `before` with its first `n` elements set to `value`.
pub open spec fn starts_filled<T>(before: Seq<T>, after: Seq<T>, value: T, n: int) -> bool {
    &&& after.len() == before.len()
    &&& forall|i: int| 0 <= i < n ==> #[trigger] after[i] == value
    &&& forall|i: int| n <= i < before.len() ==> #[trigger] after[i] == before[i]
}

fn copy_head<T: Copy>(dst: &mut [T], src: &[T], n: usize)
    requires
        n <= old(dst)@.len(),
        n <= src@.len(),
    ensures
        starts_with(old(dst)@, final(dst)@, src@, n as int),
{
    let mut i: usize = 0;
    while i < n
        invariant
            i <= n,
            n <= dst@.len(),
            n <= src@.len(),
            starts_with(old(dst)@, dst@, src@, i as int),
        decreases n - i,
    {
        dst[i] = src[i];
        i = i + 1;
    }
}

pub(crate) fn fill_head<T: Copy>(dst: &mut [T], value: T, n: usize)
    requires
        n <= old(dst)@.len(),
    ensures
        starts_filled(old(dst)@, final(dst)@, value, n as int),
{
    let mut i: usize = 0;
    while i < n
        invariant
            i <= n,
            n <= dst@.len(),
            starts_filled(old(dst)@, dst@, value, i as int),
        decreases n - i,
    {
        dst[i] = value;
        i = i + 1;
    }
}

/// Fills the working buffers from the channels of a port.
///
/// A port is stereo only where its right channel carries an input; otherwise the right
/// buffer mirrors the left one. A left channel without input is silent. Returns which
/// channels can be written to.
pub fn extract_channels<T: Copy>(
    pair_l: Option<ChannelPair<T>>,
    pair_r: Option<ChannelPair<T>>,
    buf_host_l: &mut [T],
    buf_host_r: &mut [T],
    active_channel_count: &mut u32,
    process_mono: &mut bool,
    n_samples: usize,
    silence: T,
) -> (outputs: ChannelOutputs)
    requires
        n_samples <= old(buf_host_l)@.len(),
        n_samples <= old(buf_host_r)@.len(),
        channel_input(pair_l) is Some ==> n_samples <= channel_input(pair_l)->Some_0.len(),
        channel_input(pair_r) is Some ==> n_samples <= channel_input(pair_r)->Some_0.len(),
    ensures
        match channel_input(pair_l) {
            Some(input) => starts_with(
                old(buf_host_l)@,
                final(buf_host_l)@,
                input,
                n_samples as int,
            ),
            None => starts_filled(
                old(buf_host_l)@,
                final(buf_host_l)@,
                silence,
                n_samples as int,
            ),
        },
        match channel_input(pair_r) {
            Some(input) => starts_with(
                old(buf_host_r)@,
                final(buf_host_r)@,
                input,
                n_samples as int,
            ),
            None => starts_with(
                old(buf_host_r)@,
                final(buf_host_r)@,
                final(buf_host_l)@,
                n_samples as int,
            ),
        },
        *final(active_channel_count) == (if pair_r is Some {
            2u32
        } else {
            1u32
        }),
        *final(process_mono) == (channel_input(pair_r) is None),
        outputs.left == (pair_l is Some && pair_l->Some_0.has_output_spec()),
        outputs.right == (pair_r is Some && pair_r->Some_0.has_output_spec()),
{
    let mut outputs = ChannelOutputs { left: false, right: false };
    *active_channel_count = if pair_r.is_some() { 2 } else { 1 };
    let input_l: Option<&[T]> = match pair_l {
        Some(pair) => {
            outputs.left = pair.has_output();
            pair.input()
        },
        None => None,
    };
    let input_r: Option<&[T]> = match pair_r {
        Some(pair) => {
            outputs.right = pair.has_output();
            pair.input()
        },
        None => None,
    };
    *process_mono = input_r.is_none();
    match input_l {
        Some(input) => copy_head(buf_host_l, input, n_samples),
        None => fill_head(buf_host_l, silence, n_samples),
    }
    match input_r {
        Some(input) => copy_head(buf_host_r, input, n_samples),
        None => copy_head(buf_host_r, buf_host_l, n_samples),
    }
    outputs
}

/// Whether a bit pattern stands for a finite single-precision number.
pub open spec fn finite_bits(bits: u32) -> bool {
    (bits >> 23u32) & 0xff != 0xff
}

/// Whether a bit pattern stands for a finite single-precision number.
pub fn is_finite_bits(bits: u32) -> (yes: bool)
    ensures
        yes == finite_bits(bits),
{
    (bits >> 23) & 0xff != 0xff
}

/// The sample that reaches the host in place of `s`: itself where `finite` accepts it,
/// silence elsewhere.
pub open spec fn contained<T, F: Fn(T) -> bool>(finite: F, s: T, silence: T, sent: T) -> bool {
    ||| finite.ensures((s,), true) && sent == s
    ||| finite.ensures((s,), false) && sent == silence
}

/// Samples of `n` that fit into an output of length `len` from `offset` on.
pub open spec fn fitting(n: int, len: int, offset: int) -> int {
    let room = if offset < len {
        len - offset
    } else {
        0
    };
    if n < room {
        n
    } else {
        room
    }
}

/// `after` is `before` with `n` samples of `src` at `offset`, as far as they fit.
pub open spec fn copied<T, F: Fn(T) -> bool>(
    before: Seq<T>,
    after: Seq<T>,
    src: Seq<T>,
    n: int,
    offset: int,
    finite: F,
    silence: T,
) -> bool {
    let m = fitting(n, before.len() as int, offset);
    &&& after.len() == before.len()
    &&& forall|i: int|
        offset <= i < offset + m ==> contained(finite, src[i - offset], silence, #[trigger] after[i])
    &&& forall|i: int|
        0 <= i < before.len() && !(offset <= i < offset + m) ==> #[trigger] after[i] == before[i]
}

fn copy_channel<T: Copy, F: Fn(T) -> bool>(
    out: &mut [T],
    src: &[T],
    n: usize,
    offset: usize,
    finite: &F,
    silence: T,
)
    requires
        fitting(n as int, old(out)@.len() as int, offset as int) <= src@.len(),
        forall|s: T| finite.requires((s,)),
    ensures
        copied(old(out)@, final(out)@, src@, n as int, offset as int, *finite, silence),
{
    let len: usize = out.len();
    let room: usize = if offset < len { len - offset } else { 0 };
    let m: usize = if n < room { n } else { room };
    let mut i: usize = 0;
    while i < m
        invariant
            i <= m,
            m <= n,
            m <= src@.len(),
            out@.len() == old(out)@.len(),
            out@.len() == len,
            m > 0 ==> offset + m <= len,
            m == fitting(n as int, old(out)@.len() as int, offset as int),
            forall|s: T| finite.requires((s,)),
            copied(old(out)@, out@, src@, i as int, offset as int, *finite, silence),
        decreases m - i,
    {
        let s: T = src[i];
        let ghost before = out@;
        out[offset + i] = if finite(s) { s } else { silence };
        proof {
            assert(contained(*finite, s, silence, out@[offset + i]));
            assert forall|k: int| offset <= k < offset + i + 1 implies contained(
                *finite,
                src@[k - offset],
                silence,
                #[trigger] out@[k],
            ) by {
                if k < offset + i {
                    assert(out@[k] == before[k]);
                }
            }
        }
        i = i + 1;
    }
}

/// Writes a block to the outputs of the host that are there, from `output_offset` on and as
/// far as it fits. In mono the right output gets the left signal. Samples that `finite`
/// rejects are replaced by silence.
pub fn copy_output_from_sub_block<T: Copy, F: Fn(T) -> bool>(
    out_l: Option<&mut [T]>,
    out_r: Option<&mut [T]>,
    buf_out_l: &[T],
    buf_out_r: &[T],
    n_out: usize,
    output_offset: usize,
    process_mono: bool,
    finite: F,
    silence: T,
)
    requires
        out_l is Some ==> fitting(
            n_out as int,
            (*old(out_l->Some_0))@.len() as int,
            output_offset as int,
        ) <= buf_out_l@.len(),
        out_r is Some ==> fitting(
            n_out as int,
            (*old(out_r->Some_0))@.len() as int,
            output_offset as int,
        ) <= (if process_mono {
            buf_out_l@.len()
        } else {
            buf_out_r@.len()
        }),
        forall|s: T| finite.requires((s,)),
    ensures
        out_l is Some ==> copied(
            (*old(out_l->Some_0))@,
            (*final(out_l->Some_0))@,
            buf_out_l@,
            n_out as int,
            output_offset as int,
            finite,
            silence,
        ),
        out_r is Some ==> copied(
            (*old(out_r->Some_0))@,
            (*final(out_r->Some_0))@,
            if process_mono {
                buf_out_l@
            } else {
                buf_out_r@
            },
            n_out as int,
            output_offset as int,
            finite,
            silence,
        ),
{
    if let Some(o_l) = out_l {
        copy_channel(o_l, buf_out_l, n_out, output_offset, &finite, silence);
    }
    if let Some(o_r) = out_r {
        if process_mono {
            copy_channel(o_r, buf_out_l, n_out, output_offset, &finite, silence);
        } else {
            copy_channel(o_r, buf_out_r, n_out, output_offset, &finite, silence);
        }
    }
}

/// Writes the delayed dry signal of a bypassed block to the outputs of the host, as
/// [`copy_output_from_sub_block`] writes a processed one.
pub fn copy_delayed_dry_to_output<T: Copy, F: Fn(T) -> bool>(
    out_l: Option<&mut [T]>,
    out_r: Option<&mut [T]>,
    dry_l: &[T],
    dry_r: &[T],
    output_offset: usize,
    process_mono: bool,
    finite: F,
    silence: T,
)
    requires
        forall|s: T| finite.requires((s,)),
    ensures
        out_l is Some ==> copied(
            (*old(out_l->Some_0))@,
            (*final(out_l->Some_0))@,
            dry_l@,
            dry_l@.len() as int,
            output_offset as int,
            finite,
            silence,
        ),
        out_r is Some ==> ({
            let src = if process_mono {
                dry_l@
            } else {
                dry_r@
            };
            copied(
                (*old(out_r->Some_0))@,
                (*final(out_r->Some_0))@,
                src,
                src.len() as int,
                output_offset as int,
                finite,
                silence,
            )
        }),
{
    if let Some(o_l) = out_l {
        copy_channel(o_l, dry_l, dry_l.len(), output_offset, &finite, silence);
    }
    if let Some(o_r) = out_r {
        if process_mono {
            copy_channel(o_r, dry_l, dry_l.len(), output_offset, &finite, silence);
        } else {
            copy_channel(o_r, dry_r, dry_r.len(), output_offset, &finite, silence);
        }
    }
}

/// `after` is `before` with `n` samples from `offset` on silenced, as far as they fit.
pub open spec fn silenced<T>(before: Seq<T>, after: Seq<T>, n: int, offset: int, silence: T) -> bool {
    let m = fitting(n, before.len() as int, offset);
    &&& after.len() == before.len()
    &&& forall|i: int| offset <= i < offset + m ==> #[trigger] after[i] == silence
    &&& forall|i: int|
        0 <= i < before.len() && !(offset <= i < offset + m) ==> #[trigger] after[i] == before[i]
}

/// Silences `n` samples of an output from `offset` on, as far as they fit.
pub fn silence_channel<T: Copy>(out: &mut [T], n: usize, offset: usize, silence: T)
    ensures
        silenced(old(out)@, final(out)@, n as int, offset as int, silence),
{
    let len: usize = out.len();
    let room: usize = if offset < len { len - offset } else { 0 };
    let m: usize = if n < room { n } else { room };
    let mut i: usize = 0;
    while i < m
        invariant
            i <= m,
            m <= n,
            out@.len() == old(out)@.len(),
            out@.len() == len,
            m > 0 ==> offset + m <= len,
            silenced(old(out)@, out@, i as int, offset as int, silence),
        decreases m - i,
    {
        out[offset + i] = silence;
        i = i + 1;
    }
}

/// Writes `n_samples` of silence to the outputs of the host that are there.
pub fn copy_silence_to_output<T: Copy>(
    out_l: Option<&mut [T]>,
    out_r: Option<&mut [T]>,
    output_offset: usize,
    n_samples: usize,
    silence: T,
)
    requires
        out_l is Some ==> output_offset <= (*old(out_l->Some_0))@.len(),
        out_r is Some ==> output_offset <= (*old(out_r->Some_0))@.len(),
        output_offset + n_samples <= usize::MAX,
    ensures
        out_l is Some ==> silenced(
            (*old(out_l->Some_0))@,
            (*final(out_l->Some_0))@,
            n_samples as int,
            output_offset as int,
            silence,
        ),
        out_r is Some ==> silenced(
            (*old(out_r->Some_0))@,
            (*final(out_r->Some_0))@,
            n_samples as int,
            output_offset as int,
            silence,
        ),
{
    if let Some(o_l) = out_l {
        silence_channel(o_l, n_samples, output_offset, silence);
    }
    if let Some(o_r) = out_r {
        silence_channel(o_r, n_samples, output_offset, silence);
    }
}

/// Whether a block holds a sample that `finite` rejects. Mono blocks are judged by their left
/// channel alone.
pub fn has_non_finite<T: Copy, F: Fn(T) -> bool>(
    buf_l: &[T],
    buf_r: &[T],
    n_samples: usize,
    process_mono: bool,
    finite: F,
) -> (found: bool)
    requires
        n_samples <= buf_l@.len(),
        n_samples <= buf_r@.len(),
        forall|s: T| finite.requires((s,)),
    ensures
        found ==> {
            ||| exists|i: int| 0 <= i < n_samples && finite.ensures((#[trigger] buf_l@[i],), false)
            ||| !process_mono && exists|i: int|
                0 <= i < n_samples && finite.ensures((#[trigger] buf_r@[i],), false)
        },
        !found ==> {
            &&& forall|i: int| 0 <= i < n_samples ==> finite.ensures((#[trigger] buf_l@[i],), true)
            &&& process_mono || forall|i: int|
                0 <= i < n_samples ==> finite.ensures((#[trigger] buf_r@[i],), true)
        },
{
    if any_rejected(buf_l, n_samples, &finite) {
        return true;
    }
    !process_mono && any_rejected(buf_r, n_samples, &finite)
}

fn any_rejected<T: Copy, F: Fn(T) -> bool>(buf: &[T], n: usize, finite: &F) -> (found: bool)
    requires
        n <= buf@.len(),
        forall|s: T| finite.requires((s,)),
    ensures
        found ==> exists|i: int| 0 <= i < n && finite.ensures((#[trigger] buf@[i],), false),
        !found ==> forall|i: int| 0 <= i < n ==> finite.ensures((#[trigger] buf@[i],), true),
{
    let mut i: usize = 0;
    while i < n
        invariant
            i <= n,
            n <= buf@.len(),
            forall|s: T| finite.requires((s,)),
            forall|k: int| 0 <= k < i ==> finite.ensures((#[trigger] buf@[k],), true),
        decreases n - i,
    {
        let s: T = buf[i];
        if !finite(s) {
            assert(finite.ensures((buf@[i as int],), false));
            return true;
        }
        i = i + 1;
    }
    false
}

/// A sample whose bit pattern is that of an infinity or of a NaN never reaches the host.
pub proof fn law_output_is_finite<F: Fn(u32) -> bool>(
    before: Seq<u32>,
    after: Seq<u32>,
    src: Seq<u32>,
    n: int,
    offset: int,
    finite: F,
    i: int,
)
    requires
        copied(before, after, src, n, offset, finite, 0),
        forall|s: u32, yes: bool| finite.ensures((s,), yes) ==> yes == finite_bits(s),
        0 <= offset <= i < offset + fitting(n, before.len() as int, offset),
    ensures
        finite_bits(after[i]),
{
    assert(contained(finite, src[i - offset], 0, after[i]));
    assert(finite_bits(0)) by (bit_vector);
}

} // verus!
