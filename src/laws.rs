use crate::address::{port_or_default, unbracketed, IpAddress, SocketAddress};
use crate::attempt::{awaits, next, stage_index, start, well_formed, AttemptView, ConnectError, EventView, Stage, Step};
use crate::external::{uri_host, uri_port};
use vstd::prelude::*;

verus! {

/// The actions an attempt takes on `evs`, up to the first event it is not waiting for.
pub open spec fn run<E>(s: AttemptView, evs: Seq<EventView<E>>) -> Seq<Step<E>>
    decreases evs.len(),
{
    if evs.len() == 0 || !awaits(s.stage, evs[0]) {
        Seq::empty()
    } else {
        seq![next(s, evs[0]).1] + run(next(s, evs[0]).0, evs.drop_first())
    }
}

/// The attempt after `evs`, up to the first event it is not waiting for.
pub open spec fn after<E>(s: AttemptView, evs: Seq<EventView<E>>) -> AttemptView
    decreases evs.len(),
{
    if evs.len() == 0 || !awaits(s.stage, evs[0]) {
        s
    } else {
        after(next(s, evs[0]).0, evs.drop_first())
    }
}

/// One rejected dial for each error, in order.
pub open spec fn rejections<E>(errs: Seq<E>) -> Seq<EventView<E>> {
    errs.map_values(|e: E| EventView::DialFailed(e))
}

/// A stage from which resolution is no longer possible.
pub open spec fn past_resolution(stage: Stage) -> bool {
    stage is Dialing || stage is Negotiating || stage is Finished
}

proof fn lemma_next_keeps_destination<E>(s: AttemptView, ev: EventView<E>)
    requires
        well_formed(s),
        awaits(s.stage, ev),
    ensures
        well_formed(next(s, ev).0),
        next(s, ev).0.host == s.host,
        next(s, ev).0.port == s.port,
        next(s, ev).1 is Dial ==> next(s, ev).1->Dial_0 == s.host && next(s, ev).1->Dial_1.port == s.port,
        past_resolution(s.stage) ==> past_resolution(next(s, ev).0.stage) && !(next(s, ev).1 is Resolve),
{
    if let EventView::HostParsed(Some(ip)) = ev {
        let c = seq![SocketAddress { ip, port: s.port }];
        assert(c[0].port == s.port);
    }
}

proof fn lemma_run_keeps_destination<E>(s: AttemptView, evs: Seq<EventView<E>>)
    requires
        well_formed(s),
    ensures
        forall|k: int| 0 <= k < run(s, evs).len() && (#[trigger] run(s, evs)[k]) is Dial ==>
            run(s, evs)[k]->Dial_0 == s.host && run(s, evs)[k]->Dial_1.port == s.port,
        past_resolution(s.stage) ==> forall|k: int| 0 <= k < run(s, evs).len() ==> !((#[trigger] run(s, evs)[k]) is Resolve),
    decreases evs.len(),
{
    if evs.len() > 0 && awaits(s.stage, evs[0]) {
        let t = next(s, evs[0]).0;
        lemma_next_keeps_destination(s, evs[0]);
        lemma_run_keeps_destination(t, evs.drop_first());
        let r = run(s, evs);
        assert forall|k: int| 0 < k < r.len() implies r[k] == run(t, evs.drop_first())[k - 1] by {}
    }
}

/// A host that parses as a literal IP address is never resolved: the
/// address itself, on the destination's port, is dialed at once, and no
/// later event leads to resolution.
pub proof fn literal_host_is_never_resolved<E>(
    host: Seq<char>,
    port: Option<u16>,
    ip: IpAddress,
    evs: Seq<EventView<E>>,
)
    ensures
        ({
            let s = start::<E>(Some(host), port).0;
            let ev = EventView::<E>::HostParsed(Some(ip));
            &&& next(s, ev).1 == Step::<E>::Dial(
                unbracketed(host),
                SocketAddress { ip, port: port_or_default(port) },
            )
            &&& forall|k: int| 0 <= k < run(next(s, ev).0, evs).len() ==>
                !((#[trigger] run(next(s, ev).0, evs)[k]) is Resolve)
        }),
{
    let s = start::<E>(Some(host), port).0;
    let ev = EventView::<E>::HostParsed(Some(ip));
    lemma_next_keeps_destination(s, ev);
    lemma_run_keeps_destination(next(s, ev).0, evs);
}

/// Every dial of an attempt targets the destination's explicit port, or the
/// default port without one, and verifies the server against the host name
/// without brackets.
pub proof fn dials_use_destination_port_and_host<E>(
    host: Seq<char>,
    port: Option<u16>,
    evs: Seq<EventView<E>>,
)
    ensures
        ({
            let r = run(start::<E>(Some(host), port).0, evs);
            forall|k: int| 0 <= k < r.len() && (#[trigger] r[k]) is Dial ==>
                r[k]->Dial_0 == unbracketed(host) && r[k]->Dial_1.port == port_or_default(port)
        }),
{
    lemma_run_keeps_destination(start::<E>(Some(host), port).0, evs);
}

proof fn lemma_rejections<E>(s: AttemptView, errs: Seq<E>)
    requires
        well_formed(s),
        s.stage is Dialing,
        stage_index(s.stage) + errs.len() <= s.candidates.len(),
    ensures
        run(s, rejections(errs)).len() == errs.len(),
        forall|j: int| 0 <= j < errs.len() && stage_index(s.stage) + 1 + j < s.candidates.len() ==>
            #[trigger] run(s, rejections(errs))[j] == Step::<E>::Dial(s.host, s.candidates[stage_index(s.stage) + 1 + j]),
        stage_index(s.stage) + errs.len() < s.candidates.len() ==>
            after(s, rejections(errs)).stage is Dialing
            && stage_index(after(s, rejections(errs)).stage) == stage_index(s.stage) + errs.len()
            && after(s, rejections(errs)).candidates == s.candidates,
        errs.len() > 0 && stage_index(s.stage) + errs.len() == s.candidates.len() ==>
            run(s, rejections(errs)).last() == Step::<E>::Fail(ConnectError::Dial(errs.last()))
            && after(s, rejections(errs)).stage == Stage::Finished,
    decreases errs.len(),
{
    let evs = rejections(errs);
    if errs.len() > 0 {
        let t = next(s, evs[0]).0;
        assert(evs.drop_first() =~= rejections(errs.drop_first()));
        if stage_index(s.stage) + 1 < s.candidates.len() {
            lemma_rejections(t, errs.drop_first());
            let r = run(s, evs);
            assert forall|j: int| 0 < j < r.len() implies r[j] == run(t, evs.drop_first())[j - 1] by {}
        } else {
            assert(t.stage == Stage::Finished);
            assert(errs.len() == 1);
            assert(run(t, evs.drop_first()) =~= Seq::<Step<E>>::empty());
        }
    }
}

/// Candidates are tried strictly in order: while candidates remain, each
/// rejected dial is followed by a dial of the next candidate, and an accepted
/// dial is then negotiated on that very candidate.
pub proof fn rejected_dials_move_to_the_next_candidate<E>(s: AttemptView, errs: Seq<E>)
    requires
        well_formed(s),
        s.stage is Dialing,
        stage_index(s.stage) + errs.len() < s.candidates.len(),
    ensures
        run(s, rejections(errs)).len() == errs.len(),
        forall|j: int| 0 <= j < errs.len() ==>
            #[trigger] run(s, rejections(errs))[j] == Step::<E>::Dial(s.host, s.candidates[stage_index(s.stage) + 1 + j]),
        next(after(s, rejections(errs)), EventView::<E>::Dialed).1
            == Step::<E>::Negotiate(s.candidates[stage_index(s.stage) + errs.len()]),
{
    lemma_rejections(s, errs);
}

/// When every remaining candidate is rejected, the attempt fails with the
/// last rejection, and is over.
pub proof fn all_dials_rejected_reports_the_last_error<E>(s: AttemptView, errs: Seq<E>)
    requires
        well_formed(s),
        s.stage is Dialing,
        errs.len() > 0,
        stage_index(s.stage) + errs.len() == s.candidates.len(),
    ensures
        run(s, rejections(errs)).last() == Step::<E>::Fail(ConnectError::Dial(errs.last())),
        after(s, rejections(errs)).stage == Stage::Finished,
{
    lemma_rejections(s, errs);
}

/// Each `connect` starts from nothing: the attempt it starts on `dest`
/// depends on `dest` alone and holds no candidate; a destination without a
/// host is over at once, and a host that is no literal address is resolved
/// anew, under the resolver name of that host.
pub proof fn every_connect_starts_afresh<E>(dest: http::Uri)
    ensures
        ({
            let s = start::<E>(uri_host(dest), uri_port(dest)).0;
            match uri_host(dest) {
                Some(h) => {
                    &&& s == AttemptView {
                        host: unbracketed(h),
                        port: port_or_default(uri_port(dest)),
                        candidates: Seq::empty(),
                        stage: Stage::Classifying,
                    }
                    &&& next(s, EventView::<E>::HostParsed(None)).1 == Step::<E>::Resolve(unbracketed(h))
                },
                None => s.stage == Stage::Finished && s.candidates.len() == 0,
            }
        }),
{
}

} // verus!
