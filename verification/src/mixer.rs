//! The pad mixer's voice table: which sounds are playing, where each one is,
//! and which of their samples fill the next block of output.
//!
//! A voice carries its sound as an opaque payload `P` together with the
//! sound's length in samples; the table decides, block by block, which
//! stretch of each sound lands on which frames of the block.

use vstd::prelude::*;

verus! {

/// A request to start playing a pad's sound.
pub struct PlayRequest<P> {
    /// The mixer identifier of the pad.
    pub pad_id: usize,
    /// The sound, with whatever the caller mixes it with.
    pub samples: P,
    /// Length of the sound in samples.
    pub len: usize,
    /// The sound repeats until it is stopped.
    pub looping: bool,
}

/// A command to the mixer.
pub enum MixerCommand<P> {
    /// Start a pad, replacing any voice the pad already has.
    Play(PlayRequest<P>),
    /// Stop every voice of a pad.
    StopPad(usize),
    /// Stop every voice.
    StopAll,
}

/// A sound that is playing.
pub struct Voice<P> {
    pub pad_id: usize,
    pub samples: P,
    /// Length of the sound in samples.
    pub len: usize,
    /// The next sample to play.
    pub pos: usize,
    pub looping: bool,
}

/// A stretch of one voice's sound copied into the output block: samples
/// `src .. src + len` of voice `voice` land on frames `dst .. dst + len`.
#[derive(Clone, Copy, Debug, PartialEq, Eq, Structural)]
pub struct Segment {
    pub voice: usize,
    pub src: usize,
    pub dst: usize,
    pub len: usize,
}

/// The table of playing voices.
pub struct MixerBus<P> {
    voices: Vec<Voice<P>>,
}

/// The voice a play request starts.
pub open spec fn started<P>(req: PlayRequest<P>) -> Voice<P> {
    Voice { pad_id: req.pad_id, samples: req.samples, len: req.len, pos: 0, looping: req.looping }
}

/// The test that keeps the voices of every pad but `id`.
pub open spec fn other_pad<P>(id: usize) -> spec_fn(Voice<P>) -> bool {
    |v: Voice<P>| v.pad_id != id
}

/// The voices left after the voices of pad `id` are removed.
pub open spec fn without_pad<P>(voices: Seq<Voice<P>>, id: usize) -> Seq<Voice<P>> {
    voices.filter(other_pad(id))
}

/// The voices after a command.
pub open spec fn after_command<P>(voices: Seq<Voice<P>>, cmd: MixerCommand<P>) -> Seq<Voice<P>> {
    match cmd {
        MixerCommand::Play(req) => without_pad(voices, req.pad_id).push(started(req)),
        MixerCommand::StopPad(id) => without_pad(voices, id),
        MixerCommand::StopAll => Seq::empty(),
    }
}

/// The voices after a sequence of commands, applied in order.
pub open spec fn after_commands<P>(voices: Seq<Voice<P>>, cmds: Seq<MixerCommand<P>>) -> Seq<Voice<P>>
    decreases cmds.len(),
{
    if cmds.len() == 0 {
        voices
    } else {
        after_command(after_commands(voices, cmds.drop_last()), cmds.last())
    }
}

/// Whether a voice still has something to play after a block.
pub open spec fn keeps_playing<P>(v: Voice<P>) -> bool {
    v.looping || v.pos < v.len
}

/// The sample of a sound of `len` samples, positioned at `pos`, that frame
/// `t` of a block of `frames` frames plays, if any: a one-shot sound plays
/// on until its end and is then silent; a looping sound wraps around.
pub open spec fn scheduled_sample(len: usize, pos: usize, looping: bool, frames: usize, t: int) -> Option<int> {
    if len == 0 || t < 0 || t >= frames {
        None
    } else if looping {
        Some((pos + t) % (len as int))
    } else if pos + t < len {
        Some(pos + t)
    } else {
        None
    }
}

/// Where a sound positioned at `pos` stands after a block of `frames`
/// frames: a one-shot sound stops at its end; a looping sound wraps, and
/// stands at its end rather than its start when the block ends on the wrap.
pub open spec fn advanced_pos(len: usize, pos: usize, looping: bool, frames: usize) -> int {
    if len == 0 || frames == 0 {
        pos as int
    } else if looping {
        ((pos + frames - 1) % (len as int)) + 1
    } else if pos + frames < len {
        pos + frames
    } else {
        len as int
    }
}

/// Some segment among `lo .. hi` of `plan` covers frame `t`.
pub open spec fn covered_in(plan: Seq<Segment>, lo: int, hi: int, t: int) -> bool {
    exists|k: int| lo <= k < hi && (#[trigger] plan[k]).dst <= t < plan[k].dst + plan[k].len
}

/// Some segment of `plan` for voice `v` covers frame `t`.
pub open spec fn covers(plan: Seq<Segment>, v: int, t: int) -> bool {
    exists|k: int| 0 <= k < plan.len() && #[trigger] plan[k].voice == v && plan[k].dst <= t < plan[k].dst + plan[k].len
}

/// The segments `lo .. hi` of `plan` are well formed for voice `v` of the
/// given sound and block: non-empty, inside the block and the sound, playing
/// the scheduled samples, and in order without overlap.
pub open spec fn voice_segments_ok(plan: Seq<Segment>, lo: int, hi: int, v: int, len: usize, pos: usize, looping: bool, frames: usize) -> bool {
    &&& forall|k: int| lo <= k < hi ==> (#[trigger] plan[k]).voice == v && plan[k].len > 0
        && plan[k].dst + plan[k].len <= frames && plan[k].src + plan[k].len <= len
    &&& forall|k: int, d: int| lo <= k < hi && 0 <= d < plan[k].len ==>
        scheduled_sample(len, pos, looping, frames, #[trigger] (plan[k].dst + d)) == Some(plan[k].src + d)
    &&& forall|k1: int, k2: int| lo <= k1 < k2 < hi ==> (#[trigger] plan[k1]).dst + plan[k1].len <= (#[trigger] plan[k2]).dst
}

/// `x` lies `r` past a multiple of `m`, with `0 <= r < m`, so `x % m == r`.
proof fn lemma_mod_of_offset(x: int, r: int, w: int, m: int)
    requires
        m > 0,
        0 <= r < m,
        x == r + w * m,
    ensures
        x % m == r,
{
    vstd::arithmetic::div_mod::lemma_fundamental_div_mod_converse(x, m, w, r);
}

/// Appends to `plan` the segments of voice `index`, a sound of `len`
/// samples at `pos`, for a block of `frames` frames; returns where the
/// sound stands afterwards.
fn schedule_voice(index: usize, len: usize, pos: usize, looping: bool, frames: usize, plan: &mut Vec<Segment>) -> (r: usize)
    requires
        0 < len,
        pos <= len,
    ensures
        final(plan)@.len() >= old(plan)@.len(),
        final(plan)@.subrange(0, old(plan)@.len() as int) == old(plan)@,
        voice_segments_ok(final(plan)@, old(plan)@.len() as int, final(plan)@.len() as int, index as int, len, pos, looping, frames),
        forall|t: int| #[trigger] scheduled_sample(len, pos, looping, frames, t) is Some ==>
            covered_in(final(plan)@, old(plan)@.len() as int, final(plan)@.len() as int, t),
        r == advanced_pos(len, pos, looping, frames),
        r <= len,
{
    let ghost base = plan@.len() as int;
    let ghost start = plan@;
    let mut cur = pos;
    let mut i: usize = 0;
    let ghost mut wraps: int = 0;
    loop
        invariant_except_break
            i <= frames,
        invariant
            0 < len,
            pos <= len,
            cur <= len,
            plan@.len() >= base,
            plan@.subrange(0, base) == start,
            base == start.len(),
            voice_segments_ok(plan@, base, plan@.len() as int, index as int, len, pos, looping, frames),
            forall|k: int| base <= k < plan@.len() ==> (#[trigger] plan@[k]).dst + plan@[k].len <= i,
            forall|t: int| 0 <= t < i && #[trigger] scheduled_sample(len, pos, looping, frames, t) is Some ==> 
                covered_in(plan@, base, plan@.len() as int, t),
            !looping ==> cur == pos + i,
            looping ==> wraps >= 0 && pos + i == cur + wraps * len,
            looping && i > 0 && cur == 0 ==> i < frames,
            frames == 0 ==> cur == pos,
        ensures
            plan@.len() >= base,
            plan@.subrange(0, base) == start,
            voice_segments_ok(plan@, base, plan@.len() as int, index as int, len, pos, looping, frames),
            forall|t: int| #[trigger] scheduled_sample(len, pos, looping, frames, t) is Some ==> 
                covered_in(plan@, base, plan@.len() as int, t),
            cur == advanced_pos(len, pos, looping, frames),
            cur <= len,
        decreases 2 * (frames - i) + (if cur >= len { 1int } else { 0int }),
    {
        if i >= frames {
            proof {
                if looping && frames > 0 {
                    lemma_mod_of_offset(pos + frames - 1, cur - 1, wraps, len as int);
                }
            }
            break;
        }
        let remaining = len - cur;
        let room = frames - i;
        let n = if remaining < room { remaining } else { room };
        if n == 0 {
            if looping {
                cur = 0;
                proof {
                    assert((wraps + 1) * len == wraps * len + len) by (nonlinear_arith);
                    wraps = wraps + 1;
                }
                continue;
            }
            assert forall|t: int| #[trigger] scheduled_sample(len, pos, looping, frames, t) is Some implies 
                covered_in(plan@, base, plan@.len() as int, t) by {
                assert(0 <= t < i);
            }
            break;
        }
        let ghost prev = plan@;
        let seg = Segment { voice: index, src: cur, dst: i, len: n };
        plan.push(seg);
        proof {
            let last = plan@.len() - 1;
            assert(plan@[last] == seg);
            assert(plan@.subrange(0, base) =~= start) by {
                assert forall|m: int| 0 <= m < base implies plan@.subrange(0, base)[m] == start[m] by {
                    assert(plan@[m] == prev[m]);
                    assert(prev.subrange(0, base)[m] == start[m]);
                }
            }
            assert forall|d: int| 0 <= d < n implies scheduled_sample(len, pos, looping, frames, #[trigger] (i + d)) == Some(cur + d) by {
                if looping {
                    lemma_mod_of_offset(pos + i + d, cur + d, wraps, len as int);
                }
            }
            assert forall|k: int, d: int| base <= k < plan@.len() && 0 <= d < plan@[k].len implies
                scheduled_sample(len, pos, looping, frames, #[trigger] (plan@[k].dst + d)) == Some(plan@[k].src + d) by {
                if k < last {
                    assert(plan@[k] == prev[k]);
                }
            }
            assert forall|t: int| 0 <= t < i + n && #[trigger] scheduled_sample(len, pos, looping, frames, t) is Some implies 
                covered_in(plan@, base, plan@.len() as int, t) by {
                if t < i {
                    let k = choose|k: int| base <= k < prev.len() && (#[trigger] prev[k]).dst <= t < prev[k].dst + prev[k].len;
                    assert(plan@[k] == prev[k]);
                } else {
                    assert(plan@[last].dst <= t < plan@[last].dst + plan@[last].len);
                }
            }
            assert forall|k1: int, k2: int| base <= k1 < k2 < plan@.len() implies
                (#[trigger] plan@[k1]).dst + plan@[k1].len <= (#[trigger] plan@[k2]).dst by {
                if k2 < last {
                    assert(plan@[k1] == prev[k1]);
                    assert(plan@[k2] == prev[k2]);
                } else {
                    assert(plan@[k1] == prev[k1]);
                }
            }
            assert forall|k: int| base <= k < plan@.len() implies (#[trigger] plan@[k]).voice == index
                && plan@[k].len > 0 && plan@[k].dst + plan@[k].len <= frames && plan@[k].src + plan@[k].len <= len by {
                if k < last {
                    assert(plan@[k] == prev[k]);
                }
            }
            assert forall|k: int| base <= k < plan@.len() implies (#[trigger] plan@[k]).dst + plan@[k].len <= i + n by {
                if k < last {
                    assert(plan@[k] == prev[k]);
                }
            }
        }
        cur = cur + n;
        i = i + n;
    }
    cur
}

/// The sample that frame `t` of a block of `frames` frames plays of voice `v`.
pub open spec fn voice_sample<P>(v: Voice<P>, frames: usize, t: int) -> Option<int> {
    scheduled_sample(v.len, v.pos, v.looping, frames, t)
}

/// Voice `v` after a block of `frames` frames.
pub open spec fn advanced<P>(v: Voice<P>, frames: usize) -> Voice<P> {
    Voice { pos: advanced_pos(v.len, v.pos, v.looping, frames) as usize, ..v }
}

/// Every segment of `plan` is non-empty and lies inside the block and
/// inside its voice's sound, plays exactly the samples the voice schedules
/// for those frames, and the segments of one voice come in frame order
/// without overlap.
pub open spec fn plan_segments_ok<P>(voices: Seq<Voice<P>>, frames: usize, plan: Seq<Segment>) -> bool {
    &&& forall|k: int| 0 <= k < plan.len() ==> (#[trigger] plan[k]).voice < voices.len() && plan[k].len > 0
        && plan[k].dst + plan[k].len <= frames && plan[k].src + plan[k].len <= voices[plan[k].voice as int].len
    &&& forall|k: int, d: int| 0 <= k < plan.len() && 0 <= d < plan[k].len ==>
        voice_sample(voices[plan[k].voice as int], frames, #[trigger] (plan[k].dst + d)) == Some(plan[k].src + d)
    &&& forall|k1: int, k2: int| 0 <= k1 < k2 < plan.len() && (#[trigger] plan[k1]).voice == (#[trigger] plan[k2]).voice
        ==> plan[k1].dst + plan[k1].len <= plan[k2].dst
}

/// Every frame that one of the first `n` voices schedules a sample for is
/// covered by a segment of that voice.
pub open spec fn plan_covers<P>(voices: Seq<Voice<P>>, frames: usize, plan: Seq<Segment>, n: int) -> bool {
    forall|v: int, t: int| 0 <= v < n && #[trigger] voice_sample(voices[v], frames, t) is Some ==> covers(plan, v, t)
}

/// `plan` is the schedule of a block of `frames` frames for the voices
/// `voices`: its segments are well formed and cover every frame any voice
/// schedules a sample for.
pub open spec fn is_block_plan<P>(voices: Seq<Voice<P>>, frames: usize, plan: Seq<Segment>) -> bool {
    &&& plan_segments_ok(voices, frames, plan)
    &&& plan_covers(voices, frames, plan, voices.len() as int)
}

/// Taking one more element into a prefix adds it to the filtered prefix
/// exactly when it passes the filter.
proof fn lemma_filter_take_step<A>(s: Seq<A>, k: int, pred: spec_fn(A) -> bool)
    requires
        0 <= k < s.len(),
    ensures
        s.take(k + 1).filter(pred) == (if pred(s[k]) {
            s.take(k).filter(pred).push(s[k])
        } else {
            s.take(k).filter(pred)
        }),
{
    reveal(Seq::filter);
    assert(s.take(k + 1).drop_last() =~= s.take(k));
}

/// The test that keeps the voices that play on.
pub open spec fn playing<P>() -> spec_fn(Voice<P>) -> bool {
    |v: Voice<P>| keeps_playing(v)
}

/// The voices of `voices` that play on after a block.
pub open spec fn still_playing<P>(voices: Seq<Voice<P>>) -> Seq<Voice<P>> {
    voices.filter(playing())
}

impl<P> MixerBus<P> {
    /// The playing voices, in the order they were started.
    pub closed spec fn view(&self) -> Seq<Voice<P>> {
        self.voices@
    }

    /// No voice is past the end of its sound, and no pad has two voices.
    pub closed spec fn wf(&self) -> bool {
        &&& forall|i: int| 0 <= i < self.voices@.len() ==> (#[trigger] self.voices@[i]).pos <= self.voices@[i].len
        &&& one_voice_per_pad(self.voices@)
    }

    /// An empty table.
    pub fn new() -> (r: Self)
        ensures
            r.wf(),
            r@ == Seq::<Voice<P>>::empty(),
            one_voice_per_pad(r@),
    {
        MixerBus { voices: Vec::new() }
    }

    /// How many voices are playing.
    pub fn len(&self) -> (r: usize)
        ensures
            r == self@.len(),
    {
        self.voices.len()
    }

    /// The `i`-th voice.
    pub fn voice(&self, i: usize) -> (r: &Voice<P>)
        requires
            i < self@.len(),
        ensures
            *r == self@[i as int],
    {
        &self.voices[i]
    }

    /// Removes every voice of pad `id`, keeping the others in order.
    fn remove_pad(&mut self, id: usize)
        requires
            old(self).wf(),
        ensures
            final(self).wf(),
            final(self)@ == without_pad(old(self)@, id),
    {
        let ghost orig = self.voices@;
        let mut i: usize = 0;
        let ghost mut k: int = 0;
        while i < self.voices.len()
            invariant
                0 <= k <= orig.len(),
                self.voices@ == orig.take(k).filter(other_pad::<P>(id)) + orig.skip(k),
                i == orig.take(k).filter(other_pad::<P>(id)).len(),
                one_voice_per_pad(orig),
                forall|m: int| 0 <= m < self.voices@.len() ==> (#[trigger] self.voices@[m]).pos <= self.voices@[m].len,
            decreases self.voices.len() - i,
        {
            proof {
                lemma_filter_take_step(orig, k, other_pad::<P>(id));
                assert(self.voices@[i as int] == orig[k]);
            }
            let ghost before = self.voices@;
            if !(self.voices[i].pad_id != id) {
                self.voices.remove(i);
                proof {
                    let f = orig.take(k).filter(other_pad::<P>(id));
                    assert(before == f + orig.skip(k));
                    assert forall|j: int| 0 <= j < self.voices@.len() implies self.voices@[j] == (f + orig.skip(k + 1))[j] by {
                        if j < i {
                            assert(self.voices@[j] == before[j]);
                        } else {
                            assert(self.voices@[j] == before[j + 1]);
                            assert(before[j + 1] == orig.skip(k)[j + 1 - i]);
                        }
                    }
                    assert(self.voices@ =~= orig.take(k + 1).filter(other_pad::<P>(id)) + orig.skip(k + 1));
                    assert forall|m: int| 0 <= m < self.voices@.len() implies (#[trigger] self.voices@[m]).pos <= self.voices@[m].len by {
                        if m < i {
                            assert(self.voices@[m] == before[m]);
                        } else {
                            assert(self.voices@[m] == before[m + 1]);
                        }
                    }
                }
            } else {
                i = i + 1;
                proof {
                    let f = orig.take(k).filter(other_pad::<P>(id));
                    assert(orig.take(k + 1).filter(other_pad::<P>(id)) == f.push(orig[k]));
                    assert(self.voices@ =~= orig.take(k + 1).filter(other_pad::<P>(id)) + orig.skip(k + 1));
                }
            }
            proof {
                k = k + 1;
            }
        }
        proof {
            assert(orig.take(k) =~= orig);
            assert(self.voices@ =~= orig.filter(other_pad::<P>(id)));
            lemma_filter_keeps_one_voice_per_pad(orig, other_pad::<P>(id));
        }
    }

    /// Applies one command: `Play` replaces the pad's voice by a new one at
    /// the start of the sound, `StopPad` removes the pad's voices, `StopAll`
    /// removes every voice.
    pub fn apply(&mut self, cmd: MixerCommand<P>)
        requires
            old(self).wf(),
        ensures
            final(self).wf(),
            final(self)@ == after_command(old(self)@, cmd),
            one_voice_per_pad(final(self)@),
    {
        proof {
            law_one_voice_per_pad(self.voices@, cmd);
        }
        match cmd {
            MixerCommand::Play(req) => {
                self.remove_pad(req.pad_id);
                self.voices.push(Voice { pad_id: req.pad_id, samples: req.samples, len: req.len, pos: 0, looping: req.looping });
            },
            MixerCommand::StopPad(id) => {
                self.remove_pad(id);
            },
            MixerCommand::StopAll => {
                self.voices.clear();
            },
        }
    }

    /// Applies the commands in order and returns how many voices play.
    pub fn poll_commands(&mut self, cmds: Vec<MixerCommand<P>>) -> (r: usize)
        requires
            old(self).wf(),
        ensures
            final(self).wf(),
            final(self)@ == after_commands(old(self)@, cmds@),
            one_voice_per_pad(final(self)@),
            r == final(self)@.len(),
    {
        let ghost orig = cmds@;
        let ghost start = self.voices@;
        let mut rest = cmds;
        let n = rest.len();
        let mut k: usize = 0;
        while k < n
            invariant
                n == orig.len(),
                k <= n,
                rest@ == orig.skip(k as int),
                self.wf(),
                self@ == after_commands(start, orig.take(k as int)),
            decreases n - k,
        {
            let cmd = rest.remove(0);
            proof {
                assert(cmd == orig[k as int]);
                assert(orig.take(k + 1).drop_last() =~= orig.take(k as int));
            }
            self.apply(cmd);
            k = k + 1;
            proof {
                assert(rest@ =~= orig.skip(k as int));
            }
        }
        proof {
            assert(orig.take(n as int) =~= orig);
        }
        self.voices.len()
    }

    /// Schedules a block of `frames` frames: fills `plan` with the segments
    /// every voice plays, moves each voice on, and returns whether any voice
    /// plays a sample in the block.
    pub fn render(&mut self, frames: usize, plan: &mut Vec<Segment>) -> (audible: bool)
        requires
            old(self).wf(),
        ensures
            final(self).wf(),
            final(self)@.len() == old(self)@.len(),
            forall|v: int| 0 <= v < old(self)@.len() ==> #[trigger] final(self)@[v] == advanced(old(self)@[v], frames),
            is_block_plan(old(self)@, frames, final(plan)@),
            one_voice_per_pad(final(self)@),
            audible == (final(plan)@.len() > 0),
    {
        let ghost orig = self.voices@;
        plan.clear();
        let nv = self.voices.len();
        let mut vi: usize = 0;
        while vi < nv
            invariant
                nv == orig.len(),
                vi <= nv,
                self.voices@.len() == nv,
                forall|m: int| 0 <= m < orig.len() ==> (#[trigger] orig[m]).pos <= orig[m].len,
                one_voice_per_pad(orig),
                forall|v: int| 0 <= v < vi ==> #[trigger] self.voices@[v] == advanced(orig[v], frames),
                forall|v: int| vi <= v < nv ==> #[trigger] self.voices@[v] == orig[v],
                forall|k: int| 0 <= k < plan@.len() ==> (#[trigger] plan@[k]).voice < vi,
                plan_segments_ok(orig, frames, plan@),
                plan_covers(orig, frames, plan@, vi as int),
                forall|v: int, t: int| vi <= v < nv ==> !covers(plan@, v, t),
            decreases nv - vi,
        {
            let len = self.voices[vi].len;
            let pos = self.voices[vi].pos;
            let looping = self.voices[vi].looping;
            proof {
                assert(orig[vi as int].pos <= orig[vi as int].len);
            }
            if len > 0 {
                let ghost prev = plan@;
                let p = schedule_voice(vi, len, pos, looping, frames, plan);
                let v = &mut self.voices[vi];
                v.pos = p;
                proof {
                    let base = prev.len() as int;
                    assert forall|k: int| 0 <= k < base implies #[trigger] plan@[k] == prev[k] by {
                        assert(plan@.subrange(0, base)[k] == prev[k]);
                    }
                    assert forall|k: int| 0 <= k < plan@.len() implies (#[trigger] plan@[k]).voice < vi + 1 by {
                        if k < base {
                            assert(plan@[k] == prev[k]);
                        }
                    }
                    assert forall|k: int| 0 <= k < plan@.len() implies (#[trigger] plan@[k]).voice < orig.len() && plan@[k].len > 0
                        && plan@[k].dst + plan@[k].len <= frames && plan@[k].src + plan@[k].len <= orig[plan@[k].voice as int].len by {
                        if k < base {
                            assert(plan@[k] == prev[k]);
                        }
                    }
                    assert forall|k: int, d: int| 0 <= k < plan@.len() && 0 <= d < plan@[k].len implies
                        voice_sample(orig[plan@[k].voice as int], frames, #[trigger] (plan@[k].dst + d)) == Some(plan@[k].src + d) by {
                        if k < base {
                            assert(plan@[k] == prev[k]);
                        }
                    }
                    assert forall|k1: int, k2: int| 0 <= k1 < k2 < plan@.len() && (#[trigger] plan@[k1]).voice == (#[trigger] plan@[k2]).voice
                        implies plan@[k1].dst + plan@[k1].len <= plan@[k2].dst by {
                        if k2 < base {
                            assert(plan@[k1] == prev[k1]);
                            assert(plan@[k2] == prev[k2]);
                        } else if k1 < base {
                            assert(plan@[k1] == prev[k1]);
                        }
                    }
                    assert forall|v: int, t: int| 0 <= v < vi + 1 && #[trigger] voice_sample(orig[v], frames, t) is Some
                        implies covers(plan@, v, t) by {
                        if v < vi {
                            assert(covers(prev, v, t));
                            let k = choose|k: int| 0 <= k < prev.len() && #[trigger] prev[k].voice == v && prev[k].dst <= t < prev[k].dst + prev[k].len;
                            assert(plan@[k] == prev[k]);
                        } else if v == vi {
                            assert(covered_in(plan@, base, plan@.len() as int, t));
                            let k = choose|k: int| base <= k < plan@.len() && (#[trigger] plan@[k]).dst <= t < plan@[k].dst + plan@[k].len;
                            assert(plan@[k].voice == v);
                        } else {
                            assert(!covers(prev, v, t));
                        }
                    }
                    assert forall|v: int, t: int| vi + 1 <= v < nv implies !covers(plan@, v, t) by {
                        if covers(plan@, v, t) {
                            let k = choose|k: int| 0 <= k < plan@.len() && #[trigger] plan@[k].voice == v && plan@[k].dst <= t < plan@[k].dst + plan@[k].len;
                            if k < base {
                                assert(plan@[k] == prev[k]);
                                assert(covers(prev, v, t));
                            }
                        }
                    }
                }
            }
            vi = vi + 1;
        }
        proof {
            assert forall|i: int, j: int| 0 <= i < j < self.voices@.len() implies
                (#[trigger] self.voices@[i]).pad_id != (#[trigger] self.voices@[j]).pad_id by {
                assert(self.voices@[i] == advanced(orig[i], frames));
                assert(self.voices@[j] == advanced(orig[j], frames));
                assert(orig[i].pad_id != orig[j].pad_id);
            }
        }
        plan.len() > 0
    }

    /// Drops the voices that have finished: one-shot voices at the end of
    /// their sound. Returns how many voices play on.
    pub fn retire_finished(&mut self) -> (r: usize)
        requires
            old(self).wf(),
        ensures
            final(self).wf(),
            final(self)@ == still_playing(old(self)@),
            one_voice_per_pad(final(self)@),
            r == final(self)@.len(),
    {
        let ghost orig = self.voices@;
        let mut i: usize = 0;
        let ghost mut k: int = 0;
        while i < self.voices.len()
            invariant
                0 <= k <= orig.len(),
                self.voices@ == orig.take(k).filter(playing::<P>()) + orig.skip(k),
                i == orig.take(k).filter(playing::<P>()).len(),
                one_voice_per_pad(orig),
                forall|m: int| 0 <= m < self.voices@.len() ==> (#[trigger] self.voices@[m]).pos <= self.voices@[m].len,
            decreases self.voices.len() - i,
        {
            proof {
                lemma_filter_take_step(orig, k, playing::<P>());
                assert(self.voices@[i as int] == orig[k]);
            }
            let ghost before = self.voices@;
            if !(self.voices[i].looping || self.voices[i].pos < self.voices[i].len) {
                self.voices.remove(i);
                proof {
                    let f = orig.take(k).filter(playing::<P>());
                    assert(before == f + orig.skip(k));
                    assert forall|j: int| 0 <= j < self.voices@.len() implies self.voices@[j] == (f + orig.skip(k + 1))[j] by {
                        if j < i {
                            assert(self.voices@[j] == before[j]);
                        } else {
                            assert(self.voices@[j] == before[j + 1]);
                            assert(before[j + 1] == orig.skip(k)[j + 1 - i]);
                        }
                    }
                    assert(self.voices@ =~= orig.take(k + 1).filter(playing::<P>()) + orig.skip(k + 1));
                    assert forall|m: int| 0 <= m < self.voices@.len() implies (#[trigger] self.voices@[m]).pos <= self.voices@[m].len by {
                        if m < i {
                            assert(self.voices@[m] == before[m]);
                        } else {
                            assert(self.voices@[m] == before[m + 1]);
                        }
                    }
                }
            } else {
                i = i + 1;
                proof {
                    let f = orig.take(k).filter(playing::<P>());
                    assert(orig.take(k + 1).filter(playing::<P>()) == f.push(orig[k]));
                    assert(self.voices@ =~= orig.take(k + 1).filter(playing::<P>()) + orig.skip(k + 1));
                }
            }
            proof {
                k = k + 1;
            }
        }
        proof {
            assert(orig.take(k) =~= orig);
            assert(self.voices@ =~= orig.filter(playing::<P>()));
            lemma_filter_keeps_one_voice_per_pad(orig, playing::<P>());
        }
        self.voices.len()
    }
}

/// Splitting a block in two changes nothing that is heard: frame `t` of a
/// second block of `f2` frames, after a first block of `f1` frames, plays
/// the same sample as frame `f1 + t` of one block of `f1 + f2` frames.
pub proof fn law_block_split<P>(v: Voice<P>, f1: usize, f2: usize, t: int)
    requires
        v.pos <= v.len,
        f1 + f2 <= usize::MAX,
        0 <= t < f2,
    ensures
        voice_sample(advanced(v, f1), f2, t) == voice_sample(v, (f1 + f2) as usize, f1 + t),
{
    let len = v.len as int;
    if v.len > 0 && f1 > 0 && v.looping {
        let a = v.pos + f1 - 1;
        vstd::arithmetic::div_mod::lemma_add_mod_noop_right(1 + t, a, len);
        assert(advanced_pos(v.len, v.pos, v.looping, f1) == (a % len) + 1);
        assert(0 <= a % len < len) by {
            vstd::arithmetic::div_mod::lemma_mod_bound(a, len);
        }
        assert((a % len) + 1 + t == (1 + t) + (a % len));
        assert((1 + t) + a == v.pos + f1 + t);
    }
}

/// No two voices belong to the same pad.
pub open spec fn one_voice_per_pad<P>(voices: Seq<Voice<P>>) -> bool {
    forall|i: int, j: int| 0 <= i < j < voices.len() ==> (#[trigger] voices[i]).pad_id != (#[trigger] voices[j]).pad_id
}

/// Filtering keeps voices of distinct pads distinct.
proof fn lemma_filter_keeps_one_voice_per_pad<P>(voices: Seq<Voice<P>>, pred: spec_fn(Voice<P>) -> bool)
    requires
        one_voice_per_pad(voices),
    ensures
        one_voice_per_pad(voices.filter(pred)),
    decreases voices.len(),
{
    reveal(Seq::filter);
    if voices.len() > 0 {
        let rest = voices.drop_last();
        assert(one_voice_per_pad(rest)) by {
            assert forall|i: int, j: int| 0 <= i < j < rest.len() implies (#[trigger] rest[i]).pad_id != (#[trigger] rest[j]).pad_id by {
                assert(rest[i] == voices[i]);
                assert(rest[j] == voices[j]);
            }
        }
        lemma_filter_keeps_one_voice_per_pad(rest, pred);
        let sub = rest.filter(pred);
        if pred(voices.last()) {
            let out = sub.push(voices.last());
            assert forall|i: int, j: int| 0 <= i < j < out.len() implies (#[trigger] out[i]).pad_id != (#[trigger] out[j]).pad_id by {
                if j == out.len() - 1 {
                    assert(sub.contains(out[i]));
                    rest.lemma_filter_contains_rev(pred, out[i]);
                    let m = choose|m: int| 0 <= m < rest.len() && rest[m] == out[i];
                    assert(voices[m] == rest[m]);
                    assert(voices[voices.len() - 1] == voices.last());
                } else {
                    assert(out[i] == sub[i]);
                    assert(out[j] == sub[j]);
                }
            }
        }
    }
}

/// Every command keeps at most one voice per pad, and `Play` leaves its pad
/// exactly one voice, the new one, at the end of the table.
pub proof fn law_one_voice_per_pad<P>(voices: Seq<Voice<P>>, cmd: MixerCommand<P>)
    requires
        one_voice_per_pad(voices),
    ensures
        one_voice_per_pad(after_command(voices, cmd)),
        cmd matches MixerCommand::Play(req) ==> {
            let out = after_command(voices, cmd);
            &&& out.last() == started(req)
            &&& forall|i: int| 0 <= i < out.len() - 1 ==> (#[trigger] out[i]).pad_id != req.pad_id
        },
{
    match cmd {
        MixerCommand::Play(req) => {
            let kept = without_pad(voices, req.pad_id);
            lemma_filter_keeps_one_voice_per_pad(voices, other_pad::<P>(req.pad_id));
            let out = kept.push(started(req));
            assert forall|i: int| 0 <= i < out.len() - 1 implies (#[trigger] out[i]).pad_id != req.pad_id by {
                assert(out[i] == kept[i]);
                voices.lemma_filter_pred(other_pad::<P>(req.pad_id), i);
            }
            assert forall|i: int, j: int| 0 <= i < j < out.len() implies (#[trigger] out[i]).pad_id != (#[trigger] out[j]).pad_id by {
                if j == out.len() - 1 {
                    assert(out[i] == kept[i]);
                    voices.lemma_filter_pred(other_pad::<P>(req.pad_id), i);
                } else {
                    assert(out[i] == kept[i]);
                    assert(out[j] == kept[j]);
                }
            }
        },
        MixerCommand::StopPad(id) => {
            lemma_filter_keeps_one_voice_per_pad(voices, other_pad::<P>(id));
        },
        MixerCommand::StopAll => {},
    }
}

/// After `StopPad(id)` no voice of pad `id` plays, and after `StopAll` no
/// voice plays at all.
pub proof fn law_stop_silences<P>(voices: Seq<Voice<P>>, id: usize)
    ensures
        forall|i: int| 0 <= i < after_command(voices, MixerCommand::<P>::StopPad(id)).len()
            ==> (#[trigger] after_command(voices, MixerCommand::<P>::StopPad(id))[i]).pad_id != id,
        after_command(voices, MixerCommand::<P>::StopAll).len() == 0,
{
    assert forall|i: int| 0 <= i < after_command(voices, MixerCommand::<P>::StopPad(id)).len()
        implies (#[trigger] after_command(voices, MixerCommand::<P>::StopPad(id))[i]).pad_id != id by {
        voices.lemma_filter_pred(other_pad::<P>(id), i);
    }
}


/// Any sequence of commands, applied in order to a table with one voice per
/// pad, leaves one voice per pad.
pub proof fn law_commands_keep_one_voice_per_pad<P>(voices: Seq<Voice<P>>, cmds: Seq<MixerCommand<P>>)
    requires
        one_voice_per_pad(voices),
    ensures
        one_voice_per_pad(after_commands(voices, cmds)),
    decreases cmds.len(),
{
    if cmds.len() > 0 {
        law_commands_keep_one_voice_per_pad(voices, cmds.drop_last());
        law_one_voice_per_pad(after_commands(voices, cmds.drop_last()), cmds.last());
    }
}

/// A block moves voices on without changing whose they are, and retiring
/// finished voices only drops voices, so neither gives a pad a second voice.
pub proof fn law_blocks_keep_one_voice_per_pad<P>(voices: Seq<Voice<P>>, frames: usize)
    requires
        one_voice_per_pad(voices),
    ensures
        one_voice_per_pad(Seq::new(voices.len(), |i: int| advanced(voices[i], frames))),
        one_voice_per_pad(still_playing(voices)),
{
    let moved = Seq::new(voices.len(), |i: int| advanced(voices[i], frames));
    assert forall|i: int, j: int| 0 <= i < j < moved.len() implies
        (#[trigger] moved[i]).pad_id != (#[trigger] moved[j]).pad_id by {
        assert(voices[i].pad_id != voices[j].pad_id);
    }
    lemma_filter_keeps_one_voice_per_pad(voices, playing::<P>());
}

} // verus!
