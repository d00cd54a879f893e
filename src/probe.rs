use vstd::prelude::*;

use crate::context::{CodecID, DecodeContext, DecodeDriver, HWDeviceType, PixelFormat};

verus! {

/// A device kind and stream format that a backend declares it may decode.
/// Declared is not working: the prober finds out.
#[derive(Debug, Clone, Copy, PartialEq, Eq, Structural)]
pub struct Candidate {
    pub device: HWDeviceType,
    pub codec: CodecID,
}

/// The context that probes `c` on backend `driver`: adapter 0, NV12 output.
pub open spec fn probe_context(driver: DecodeDriver, c: Candidate) -> DecodeContext {
    DecodeContext { driver, device: c.device, pixfmt: PixelFormat::NV12, codec: c.codec, gpu: 0 }
}

pub open spec fn probe_contexts(driver: DecodeDriver, cs: Seq<Candidate>) -> Seq<DecodeContext> {
    cs.map_values(|c: Candidate| probe_context(driver, c))
}

/// The contexts to probe: the CUVID candidates, then the AMF ones, each in
/// the order its backend declared them.
pub fn candidates(cuvid: &Vec<Candidate>, amf: &Vec<Candidate>) -> (r: Vec<DecodeContext>)
    ensures
        r@ == probe_contexts(DecodeDriver::CUVID, cuvid@) + probe_contexts(DecodeDriver::AMF, amf@),
{
    let mut r: Vec<DecodeContext> = Vec::new();
    let mut i: usize = 0;
    while i < cuvid.len()
        invariant
            i <= cuvid@.len(),
            r@ == probe_contexts(DecodeDriver::CUVID, cuvid@.take(i as int)),
        decreases cuvid@.len() - i,
    {
        let c = cuvid[i];
        r.push(
            DecodeContext {
                driver: DecodeDriver::CUVID,
                device: c.device,
                pixfmt: PixelFormat::NV12,
                codec: c.codec,
                gpu: 0,
            },
        );
        i = i + 1;
        assert(r@ =~= probe_contexts(DecodeDriver::CUVID, cuvid@.take(i as int)));
    }
    assert(cuvid@.take(i as int) =~= cuvid@);
    let ghost head = r@;
    let mut j: usize = 0;
    while j < amf.len()
        invariant
            j <= amf@.len(),
            head == probe_contexts(DecodeDriver::CUVID, cuvid@),
            r@ == head + probe_contexts(DecodeDriver::AMF, amf@.take(j as int)),
        decreases amf@.len() - j,
    {
        let c = amf[j];
        r.push(
            DecodeContext {
                driver: DecodeDriver::AMF,
                device: c.device,
                pixfmt: PixelFormat::NV12,
                codec: c.codec,
                gpu: 0,
            },
        );
        j = j + 1;
        assert(r@ =~= head + probe_contexts(DecodeDriver::AMF, amf@.take(j as int)));
    }
    assert(amf@.take(j as int) =~= amf@);
    r
}

/// The bundled reference stream that probes a stream format: one per format
/// that has one.
#[derive(Debug, Clone, Copy, PartialEq, Eq, Structural)]
pub enum ReferenceSample {
    H264,
    HEVC,
}

pub open spec fn reference_sample_spec(codec: CodecID) -> Option<ReferenceSample> {
    match codec {
        CodecID::H264 => Some(ReferenceSample::H264),
        CodecID::HEVC => Some(ReferenceSample::HEVC),
        _ => None,
    }
}

/// The reference stream to decode when probing `codec`, if one is bundled.
pub fn reference_sample(codec: CodecID) -> (r: Option<ReferenceSample>)
    ensures
        r == reference_sample_spec(codec),
{
    match codec {
        CodecID::H264 => Some(ReferenceSample::H264),
        CodecID::HEVC => Some(ReferenceSample::HEVC),
        _ => None,
    }
}

/// What the prober asks of the native side next.
#[derive(Debug, Clone, Copy, PartialEq, Eq, Structural)]
pub enum ProbeAction {
    /// Construct a decoder for this context.
    Construct(DecodeContext),
    /// Decode this reference stream with the decoder just constructed.
    Decode(ReferenceSample),
    /// Every candidate has been tried.
    Done,
}

/// How the probe of one candidate ended.
pub enum ProbeVerdict {
    NotConstructed,
    NoSample,
    DecodeFailed,
    Decoded,
}

/// The candidates that passed, in their order.
pub open spec fn passed(cs: Seq<DecodeContext>, vs: Seq<ProbeVerdict>) -> Seq<DecodeContext>
    decreases vs.len(),
{
    if vs.len() == 0 || cs.len() < vs.len() {
        seq![]
    } else if vs.last() is Decoded {
        passed(cs, vs.drop_last()).push(cs[vs.len() - 1])
    } else {
        passed(cs, vs.drop_last())
    }
}

/// `c` is a candidate whose probe ended `Decoded`.
pub open spec fn decoded_candidate(cs: Seq<DecodeContext>, vs: Seq<ProbeVerdict>, c: DecodeContext) -> bool {
    exists|i: int| 0 <= i < vs.len() && vs[i] is Decoded && cs[i] == c
}

/// Each context that passed is a candidate whose probe ended `Decoded`: it
/// was constructed and decoded its reference stream.
pub proof fn passed_were_decoded(cs: Seq<DecodeContext>, vs: Seq<ProbeVerdict>)
    requires
        vs.len() <= cs.len(),
    ensures
        forall|k: int|
            0 <= k < passed(cs, vs).len() ==> decoded_candidate(cs, vs, #[trigger] passed(cs, vs)[k]),
    decreases vs.len(),
{
    if vs.len() > 0 {
        let prev = vs.drop_last();
        passed_were_decoded(cs, prev);
        assert forall|k: int| 0 <= k < passed(cs, vs).len() implies decoded_candidate(
            cs,
            vs,
            #[trigger] passed(cs, vs)[k],
        ) by {
            if k < passed(cs, prev).len() {
                assert(passed(cs, vs)[k] == passed(cs, prev)[k]);
                assert(decoded_candidate(cs, prev, passed(cs, prev)[k]));
                let i = choose|i: int|
                    0 <= i < prev.len() && prev[i] is Decoded && cs[i] == passed(cs, prev)[k];
                assert(vs[i] == prev[i]);
            } else {
                let i = vs.len() - 1;
                assert(vs[i] is Decoded);
                assert(passed(cs, vs)[k] == cs[i]);
            }
        }
    } else {
        assert(passed(cs, vs) =~= seq![]);
    }
}

/// Tries each candidate in turn: construct, then decode its reference stream.
/// A candidate passes when both succeed; any failure leaves it out.
pub struct Prober {
    candidates: Vec<DecodeContext>,
    pos: usize,
    constructed: bool,
    accepted: Vec<DecodeContext>,
    verdicts: Ghost<Seq<ProbeVerdict>>,
}

/// The prober as values: the candidates, the verdicts on those tried so far,
/// whether the current one has been constructed, and those that passed.
pub struct ProberView {
    pub candidates: Seq<DecodeContext>,
    pub pos: nat,
    pub verdicts: Seq<ProbeVerdict>,
    pub constructed: bool,
    pub accepted: Seq<DecodeContext>,
}

impl View for Prober {
    type V = ProberView;

    closed spec fn view(&self) -> ProberView {
        ProberView {
            candidates: self.candidates@,
            pos: self.pos as nat,
            verdicts: self.verdicts@,
            constructed: self.constructed,
            accepted: self.accepted@,
        }
    }
}

pub open spec fn prober_inv(v: ProberView) -> bool {
    &&& v.pos == v.verdicts.len()
    &&& v.verdicts.len() <= v.candidates.len()
    &&& v.accepted == passed(v.candidates, v.verdicts)
    &&& v.constructed ==> v.verdicts.len() < v.candidates.len() && reference_sample_spec(
        v.candidates[v.verdicts.len() as int].codec,
    ) is Some
}

pub open spec fn action_spec(v: ProberView) -> ProbeAction {
    let i = v.verdicts.len() as int;
    if i >= v.candidates.len() {
        ProbeAction::Done
    } else if v.constructed {
        ProbeAction::Decode(reference_sample_spec(v.candidates[i].codec)->Some_0)
    } else {
        ProbeAction::Construct(v.candidates[i])
    }
}

/// The state after the native side answers the current action with `ok`.
pub open spec fn answer_spec(v: ProberView, ok: bool) -> ProberView {
    let c = v.candidates[v.verdicts.len() as int];
    if !v.constructed {
        if !ok {
            ProberView { pos: v.pos + 1, verdicts: v.verdicts.push(ProbeVerdict::NotConstructed), ..v }
        } else if reference_sample_spec(c.codec) is None {
            ProberView { pos: v.pos + 1, verdicts: v.verdicts.push(ProbeVerdict::NoSample), ..v }
        } else {
            ProberView { constructed: true, ..v }
        }
    } else if ok {
        ProberView {
            pos: v.pos + 1,
            verdicts: v.verdicts.push(ProbeVerdict::Decoded),
            constructed: false,
            accepted: v.accepted.push(c),
            ..v
        }
    } else {
        ProberView {
            pos: v.pos + 1,
            verdicts: v.verdicts.push(ProbeVerdict::DecodeFailed),
            constructed: false,
            ..v
        }
    }
}

impl Prober {
    pub open spec fn wf(&self) -> bool {
        prober_inv(self@)
    }

    /// A prober that has tried nothing yet.
    pub fn new(candidates: Vec<DecodeContext>) -> (r: Prober)
        ensures
            r.wf(),
            r@ == (ProberView {
                candidates: candidates@,
                pos: 0,
                verdicts: seq![],
                constructed: false,
                accepted: seq![],
            }),
    {
        let r = Prober {
            candidates,
            pos: 0,
            constructed: false,
            accepted: Vec::new(),
            verdicts: Ghost(Seq::empty()),
        };
        assert(r@.accepted =~= seq![]);
        r
    }

    /// What to do next.
    pub fn action(&self) -> (r: ProbeAction)
        requires
            self.wf(),
        ensures
            r == action_spec(self@),
    {
        if self.pos >= self.candidates.len() {
            ProbeAction::Done
        } else if self.constructed {
            match reference_sample(self.candidates[self.pos].codec) {
                Some(s) => ProbeAction::Decode(s),
                None => ProbeAction::Done,
            }
        } else {
            ProbeAction::Construct(self.candidates[self.pos])
        }
    }

    /// Records whether the current action succeeded.
    pub fn answer(&mut self, ok: bool)
        requires
            old(self).wf(),
            action_spec(old(self)@) != ProbeAction::Done,
        ensures
            final(self).wf(),
            final(self)@ == answer_spec(old(self)@, ok),
    {
        let n = self.candidates.len();
        assert(self.pos < n);
        let c = self.candidates[self.pos];
        let ghost vs = self.verdicts@;
        if !self.constructed {
            if !ok {
                self.verdicts = Ghost(vs.push(ProbeVerdict::NotConstructed));
                self.pos = self.pos + 1;
            } else if reference_sample(c.codec).is_none() {
                self.verdicts = Ghost(vs.push(ProbeVerdict::NoSample));
                self.pos = self.pos + 1;
            } else {
                self.constructed = true;
            }
        } else {
            if ok {
                self.verdicts = Ghost(vs.push(ProbeVerdict::Decoded));
                self.accepted.push(c);
            } else {
                self.verdicts = Ghost(vs.push(ProbeVerdict::DecodeFailed));
            }
            self.constructed = false;
            self.pos = self.pos + 1;
        }
        proof {
            let nvs = self.verdicts@;
            if nvs.len() > vs.len() {
                assert(nvs.drop_last() =~= vs);
            }
        }
    }

    /// The contexts that passed, once every candidate has been tried.
    pub fn into_passed(self) -> (r: Vec<DecodeContext>)
        requires
            self.wf(),
        ensures
            r@ == passed(self@.candidates, self@.verdicts),
    {
        self.accepted
    }
}

/// The probe result of this process, once it has been computed.
pub struct ProbeCache {
    probed: Option<Vec<DecodeContext>>,
}

impl View for ProbeCache {
    type V = Option<Seq<DecodeContext>>;

    closed spec fn view(&self) -> Option<Seq<DecodeContext>> {
        match self.probed {
            Some(v) => Some(v@),
            None => None,
        }
    }
}

/// The cache after a probe result is offered: the first result stays.
pub open spec fn store_spec(c: Option<Seq<DecodeContext>>, v: Seq<DecodeContext>) -> Option<
    Seq<DecodeContext>,
> {
    match c {
        Some(old) => Some(old),
        None => Some(v),
    }
}

fn copy_contexts(v: &Vec<DecodeContext>) -> (r: Vec<DecodeContext>)
    ensures
        r@ == v@,
{
    let r = v.clone();
    assert(r@ =~= v@);
    r
}

impl ProbeCache {
    /// A cache that holds no result yet.
    pub fn new() -> (r: ProbeCache)
        ensures
            r@ is None,
    {
        ProbeCache { probed: None }
    }

    /// The cached result, if the probe has run. `None` means the probe is
    /// still to be run.
    pub fn get(&self) -> (r: Option<Vec<DecodeContext>>)
        ensures
            r is None <==> self@ is None,
            r matches Some(v) ==> self@ == Some(v@),
    {
        match &self.probed {
            Some(v) => Some(copy_contexts(v)),
            None => None,
        }
    }

    /// Offers a probe result and gives back the one cached: the first result
    /// offered is kept for good, later ones are ignored.
    pub fn store(&mut self, v: Vec<DecodeContext>) -> (r: Vec<DecodeContext>)
        ensures
            final(self)@ == store_spec(old(self)@, v@),
            final(self)@ == Some(r@),
    {
        match &self.probed {
            Some(old) => copy_contexts(old),
            None => {
                let r = copy_contexts(&v);
                self.probed = Some(v);
                r
            },
        }
    }
}

/// Once a result is cached, the probe is not run again: every later offer
/// leaves the cache as it was, so every later lookup answers the same set.
pub proof fn cached_result_is_final(c: Option<Seq<DecodeContext>>, first: Seq<DecodeContext>, later: Seq<DecodeContext>)
    ensures
        store_spec(c, first) is Some,
        store_spec(store_spec(c, first), later) == store_spec(c, first),
        c is None ==> store_spec(c, first) == Some(first),
{
}

} // verus!
