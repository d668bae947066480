//! Fixed-size frames: a filter that works frame by frame takes a buffer whose
//! length is a multiple of its frame size.

use vstd::prelude::*;
use vstd::arithmetic::div_mod::{lemma_fundamental_div_mod, lemma_fundamental_div_mod_converse};

verus! {

/// How many samples are missing from the last frame.
pub open spec fn tail_padding(len: nat, frame_size: nat) -> nat
    recommends
        frame_size > 0,
{
    if len % frame_size == 0 {
        0
    } else {
        (frame_size - len % frame_size) as nat
    }
}

/// `samples` with its last frame filled up with `silence`.
pub open spec fn padded<T>(samples: Seq<T>, frame_size: nat, silence: T) -> Seq<T>
    recommends
        frame_size > 0,
{
    samples + Seq::new(tail_padding(samples.len(), frame_size), |i: int| silence)
}

/// With the padding the length is a multiple of the frame size, and the
/// padding is shorter than a frame.
pub proof fn lemma_padding_completes_frame(len: nat, frame_size: nat)
    requires
        frame_size > 0,
    ensures
        (len + tail_padding(len, frame_size)) % frame_size == 0,
        tail_padding(len, frame_size) < frame_size,
{
    let size = frame_size as int;
    let whole = (len as int) / size;
    let rest = (len as int) % size;
    lemma_fundamental_div_mod(len as int, size);
    if rest != 0 {
        assert(len + (size - rest) == (whole + 1) * size + 0) by (nonlinear_arith)
            requires
                len == size * whole + rest,
        ;
        lemma_fundamental_div_mod_converse(len + (size - rest), size, whole + 1, 0);
    }
}

/// No shorter padding brings the length to a multiple of the frame size.
pub proof fn lemma_padding_is_least(len: nat, frame_size: nat, more: nat)
    requires
        frame_size > 0,
        (len + more) % frame_size == 0,
    ensures
        tail_padding(len, frame_size) <= more,
{
    let size = frame_size as int;
    let whole = (len as int) / size;
    let rest = (len as int) % size;
    lemma_fundamental_div_mod(len as int, size);
    if rest != 0 && more < size - rest {
        assert(len + more == whole * size + (rest + more)) by (nonlinear_arith)
            requires
                len == size * whole + rest,
        ;
        lemma_fundamental_div_mod_converse((len + more) as int, size, whole, rest + more);
    }
}

/// How many samples are missing from the last frame.
pub fn padding_for(len: usize, frame_size: usize) -> (r: usize)
    requires
        frame_size > 0,
    ensures
        r == tail_padding(len as nat, frame_size as nat),
{
    let rest = len % frame_size;
    if rest == 0 {
        0
    } else {
        frame_size - rest
    }
}

/// Fills the last frame of `samples` up with `silence`.
pub fn pad_to_frames<T: Copy>(samples: &mut Vec<T>, frame_size: usize, silence: T)
    requires
        frame_size > 0,
    ensures
        final(samples)@ == padded(old(samples)@, frame_size as nat, silence),
        final(samples)@.len() % (frame_size as nat) == 0,
{
    let missing = padding_for(samples.len(), frame_size);
    let mut added: usize = 0;
    while added < missing
        invariant
            added <= missing,
            samples@.len() == old(samples)@.len() + added,
            samples@ == old(samples)@ + Seq::new(added as nat, |i: int| silence),
        decreases missing - added,
    {
        samples.push(silence);
        added = added + 1;
        assert(samples@ =~= old(samples)@ + Seq::new(added as nat, |i: int| silence));
    }
    proof {
        lemma_padding_completes_frame(old(samples)@.len(), frame_size as nat);
    }
}

/// What a filter makes of whole frames, one after the other. The filter
/// takes its state and a frame and gives back its next state and what it made
/// of the frame. `end` and `out` are the state after the last frame and all
/// that the filter gave back, in the order of the frames.
pub open spec fn filtered<T, S, F: Fn(S, Vec<T>) -> (S, Vec<T>)>(
    filter: F,
    samples: Seq<T>,
    frame_size: nat,
    start: S,
    end: S,
    out: Seq<T>,
) -> bool
    decreases samples.len(),
{
    if frame_size == 0 || samples.len() < frame_size {
        end == start && out == Seq::<T>::empty()
    } else {
        exists|before: S, frame: Vec<T>, piece: Vec<T>| #[trigger]
            call_ensures(filter, (before, frame), (end, piece)) && frame@ == samples.skip(
                samples.len() - frame_size,
            ) && piece@.len() <= out.len() && out.skip(out.len() - piece@.len()) == piece@
                && filtered(
                filter,
                samples.take(samples.len() - frame_size),
                frame_size,
                start,
                before,
                out.take(out.len() - piece@.len()),
            )
    }
}

/// A filter that gives every frame back as it came leaves the samples as
/// they were: no frame is left out, none is handed over twice, and the order
/// is kept.
pub proof fn lemma_filtered_unchanged<T, S, F: Fn(S, Vec<T>) -> (S, Vec<T>)>(
    filter: F,
    samples: Seq<T>,
    frame_size: nat,
    start: S,
    end: S,
    out: Seq<T>,
)
    requires
        frame_size > 0,
        samples.len() % frame_size == 0,
        filtered(filter, samples, frame_size, start, end, out),
        forall|before: S, frame: Vec<T>, after: (S, Vec<T>)| #[trigger]
            call_ensures(filter, (before, frame), after) ==> after.1@ == frame@,
    ensures
        out == samples,
    decreases samples.len(),
{
    if samples.len() < frame_size {
        lemma_fundamental_div_mod(samples.len() as int, frame_size as int);
        assert(samples.len() == 0) by (nonlinear_arith)
            requires
                samples.len() == frame_size * (samples.len() as int / frame_size as int),
                samples.len() < frame_size,
                samples.len() >= 0,
        ;
        assert(out =~= samples);
    } else {
        let (before, frame, piece) = choose|before: S, frame: Vec<T>, piece: Vec<T>| #[trigger]
            call_ensures(filter, (before, frame), (end, piece)) && frame@ == samples.skip(
                samples.len() - frame_size,
            ) && piece@.len() <= out.len() && out.skip(out.len() - piece@.len()) == piece@
                && filtered(
                filter,
                samples.take(samples.len() - frame_size),
                frame_size,
                start,
                before,
                out.take(out.len() - piece@.len()),
            );
        let earlier = samples.take(samples.len() - frame_size);
        lemma_earlier_frames_whole(samples.len(), frame_size);
        lemma_filtered_unchanged(
            filter,
            earlier,
            frame_size,
            start,
            before,
            out.take(out.len() - piece@.len()),
        );
        assert(out =~= out.take(out.len() - piece@.len()) + out.skip(out.len() - piece@.len()));
        assert(samples =~= earlier + samples.skip(samples.len() - frame_size));
    }
}

proof fn lemma_earlier_frames_whole(len: nat, frame_size: nat)
    requires
        frame_size > 0,
        len % frame_size == 0,
        len >= frame_size,
    ensures
        (len - frame_size) % (frame_size as int) == 0,
{
    let size = frame_size as int;
    lemma_fundamental_div_mod(len as int, size);
    let whole = (len as int) / size;
    assert(len - size == (whole - 1) * size + 0) by (nonlinear_arith)
        requires
            len == size * whole,
    ;
    lemma_fundamental_div_mod_converse(len - size, size, whole - 1, 0);
}

/// Hands the frames of `samples` to `filter`, one after the other and each
/// with the state that the frame before it left, and puts together what the
/// filter gives back.
pub fn filter_frames<T: Copy, S, F: Fn(S, Vec<T>) -> (S, Vec<T>)>(
    samples: &Vec<T>,
    frame_size: usize,
    state: S,
    filter: &F,
) -> (r: (S, Vec<T>))
    requires
        frame_size > 0,
        samples@.len() % (frame_size as nat) == 0,
        forall|before: S, frame: Vec<T>|
            frame@.len() == frame_size ==> call_requires(*filter, (before, frame)),
    ensures
        filtered(*filter, samples@, frame_size as nat, state, r.0, r.1@),
{
    let len = samples.len();
    let mut out: Vec<T> = Vec::new();
    let mut current = state;
    let mut done: usize = 0;
    while done < len
        invariant
            frame_size > 0,
            len == samples@.len(),
            samples@.len() % (frame_size as nat) == 0,
            done <= samples@.len(),
            done % frame_size == 0,
            forall|before: S, frame: Vec<T>|
                frame@.len() == frame_size ==> call_requires(*filter, (before, frame)),
            filtered(*filter, samples@.take(done as int), frame_size as nat, state, current, out@),
        decreases samples@.len() - done,
    {
        proof {
            lemma_next_frame_fits(samples@.len(), frame_size as nat, done as nat);
        }
        let mut frame: Vec<T> = Vec::new();
        let mut i: usize = 0;
        while i < frame_size
            invariant
                i <= frame_size,
                len == samples@.len(),
                done + frame_size <= len,
                frame@ == samples@.subrange(done as int, done + i),
            decreases frame_size - i,
        {
            frame.push(samples[done + i]);
            i = i + 1;
            assert(frame@ =~= samples@.subrange(done as int, done + i));
        }
        let ghost before = current;
        let ghost head = out@;
        let ghost given = frame;
        let (next, mut piece) = filter(current, frame);
        let ghost made = piece;
        current = next;
        out.append(&mut piece);
        done = done + frame_size;
        proof {
            let upto = samples@.take(done as int);
            assert(upto.take(upto.len() - frame_size) =~= samples@.take(done - frame_size));
            assert(upto.skip(upto.len() - frame_size) =~= given@);
            assert(out@ == head + made@);
            assert(out@.skip(out@.len() - made@.len()) =~= made@);
            assert(out@.take(out@.len() - made@.len()) =~= head);
            assert(call_ensures(*filter, (before, given), (current, made)));
        }
    }
    assert(samples@.take(done as int) =~= samples@);
    (current, out)
}

proof fn lemma_next_frame_fits(len: nat, frame_size: nat, done: nat)
    requires
        frame_size > 0,
        len % frame_size == 0,
        done % frame_size == 0,
        done < len,
    ensures
        done + frame_size <= len,
        (done + frame_size) % frame_size == 0,
{
    let size = frame_size as int;
    lemma_fundamental_div_mod(len as int, size);
    lemma_fundamental_div_mod(done as int, size);
    let whole = (len as int) / size;
    let past = (done as int) / size;
    assert(past < whole) by (nonlinear_arith)
        requires
            done == size * past,
            len == size * whole,
            done < len,
            size > 0,
    ;
    assert(done + size <= len) by (nonlinear_arith)
        requires
            done == size * past,
            len == size * whole,
            past + 1 <= whole,
            size > 0,
    ;
    assert(done + size == (past + 1) * size + 0) by (nonlinear_arith)
        requires
            done == size * past,
    ;
    lemma_fundamental_div_mod_converse(done + size, size, past + 1, 0);
}

} // verus!
