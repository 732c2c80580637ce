//! Laws of the translation of Gemini Live server frames, stated over the
//! frames themselves: what a frame carries is what its events say.

use vstd::prelude::*;
use crate::events::ServerEvent;
use crate::gemini_frames::{
    call_event, calls_events, cancellation_ids, content_events, decoded_or_empty, event_matches, events_match,
    part_events, parts_events, spec_as_array, spec_translate, transcript_text, Expected,
};
use crate::json::{spec_as_bool, spec_as_str, spec_get, spec_get_opt, Json};

verus! {

/// The texts of the `TextDelta` events among `es`, in order.
pub open spec fn text_deltas(es: Seq<ServerEvent>) -> Seq<Seq<char>>
    decreases es.len(),
{
    if es.len() == 0 {
        Seq::empty()
    } else {
        let rest = text_deltas(es.drop_last());
        match es.last() {
            ServerEvent::TextDelta { delta, .. } => rest.push(delta@),
            _ => rest,
        }
    }
}

/// The string `text` members of model-turn parts, in order.
pub open spec fn part_texts(ps: Seq<Json>) -> Seq<Seq<char>>
    decreases ps.len(),
{
    if ps.len() == 0 {
        Seq::empty()
    } else {
        let rest = part_texts(ps.drop_last());
        match ps.last() {
            Json::Object(_) => match spec_get(ps.last(), "text"@) {
                Some(Json::Str(t)) => rest.push(t@),
                _ => rest,
            },
            _ => rest,
        }
    }
}

/// The model-turn parts of a `serverContent` payload.
pub open spec fn model_parts(content: Json) -> Seq<Json> {
    match spec_get(content, "modelTurn"@) {
        Some(turn) => match spec_get(turn, "parts"@) {
            Some(Json::Array(ps)) => ps@,
            _ => Seq::empty(),
        },
        None => Seq::empty(),
    }
}

/// The texts that expected events describe.
pub open spec fn expected_texts(xs: Seq<Expected>) -> Seq<Seq<char>>
    decreases xs.len(),
{
    if xs.len() == 0 {
        Seq::empty()
    } else {
        let rest = expected_texts(xs.drop_last());
        match xs.last() {
            Expected::Text(t) => rest.push(t),
            _ => rest,
        }
    }
}

proof fn lemma_expected_texts_concat(a: Seq<Expected>, b: Seq<Expected>)
    ensures
        expected_texts(a + b) == expected_texts(a) + expected_texts(b),
    decreases b.len(),
{
    if b.len() == 0 {
        assert(a + b =~= a);
        assert(expected_texts(b) =~= Seq::<Seq<char>>::empty());
        assert(expected_texts(a) + expected_texts(b) =~= expected_texts(a));
    } else {
        lemma_expected_texts_concat(a, b.drop_last());
        assert((a + b).drop_last() =~= a + b.drop_last());
        assert((a + b).last() == b.last());
        match b.last() {
            Expected::Text(t) => {
                assert(expected_texts(a) + expected_texts(b) =~= (expected_texts(a) + expected_texts(
                    b.drop_last(),
                )).push(t));
            },
            _ => {},
        }
    }
}

proof fn lemma_events_texts(es: Seq<ServerEvent>, xs: Seq<Expected>)
    requires
        events_match(es, xs),
    ensures
        text_deltas(es) == expected_texts(xs),
    decreases xs.len(),
{
    if xs.len() > 0 {
        let n = xs.len() - 1;
        assert(event_matches(es[n], xs[n]));
        assert forall|i: int| 0 <= i < xs.drop_last().len() implies #[trigger] event_matches(
            es.drop_last()[i],
            xs.drop_last()[i],
        ) by {
            assert(event_matches(es[i], xs[i]));
        }
        lemma_events_texts(es.drop_last(), xs.drop_last());
    }
}

proof fn lemma_part_texts(ps: Seq<Json>)
    ensures
        expected_texts(parts_events(ps)) == part_texts(ps),
    decreases ps.len(),
{
    if ps.len() > 0 {
        lemma_part_texts(ps.drop_last());
        let p = ps.last();
        lemma_expected_texts_concat(parts_events(ps.drop_last()), part_events(p));
        let audio = match spec_as_str(spec_get_opt(spec_get(p, "inlineData"@), "data"@)) {
            Some(d) => seq![Expected::Audio(decoded_or_empty(d))],
            None => Seq::<Expected>::empty(),
        };
        let text = match spec_as_str(spec_get(p, "text"@)) {
            Some(t) => seq![Expected::Text(t)],
            None => Seq::<Expected>::empty(),
        };
        assert(part_events(p) == audio + text);
        lemma_expected_texts_concat(audio, text);
        assert(expected_texts(Seq::<Expected>::empty()) =~= Seq::<Seq<char>>::empty());
        if audio.len() > 0 {
            lemma_single_no_text(audio[0]);
            assert(audio =~= seq![audio[0]]);
        }
        if text.len() > 0 {
            assert(text.drop_last() =~= Seq::<Expected>::empty());
        }
    }
}

proof fn lemma_calls_no_texts(calls: Seq<Json>, n: int)
    requires
        calls_events(calls, n) is Some,
    ensures
        expected_texts(calls_events(calls, n).unwrap()) =~= Seq::<Seq<char>>::empty(),
    decreases n,
{
    if n > 0 {
        lemma_calls_no_texts(calls, n - 1);
        let prefix = calls_events(calls, n - 1).unwrap();
        let e = call_event(n - 1, calls[n - 1]).unwrap();
        assert(calls_events(calls, n).unwrap() == prefix.push(e));
        assert(prefix.push(e).drop_last() =~= prefix);
    }
}

proof fn lemma_single_no_text(x: Expected)
    requires
        !(x is Text),
    ensures
        expected_texts(seq![x]) =~= Seq::<Seq<char>>::empty(),
{
    assert(seq![x].drop_last() =~= Seq::<Expected>::empty());
    assert(expected_texts(Seq::<Expected>::empty()) =~= Seq::<Seq<char>>::empty());
    assert(seq![x].last() == x);
}

/// Model text is delivered as text, part by part: in the translation of a
/// `serverContent` frame that is not a barge-in, the `TextDelta` events are
/// exactly the string `text` members of the model-turn parts, in order; and
/// a frame with such text always translates.
pub proof fn law_model_text_becomes_text_deltas(v: Json, events: Seq<ServerEvent>)
    requires
        spec_get(v, "setupComplete"@) is None,
        spec_get(v, "goAway"@) is None,
        spec_get(v, "serverContent"@) matches Some(c) && spec_as_bool(spec_get(c, "interrupted"@)) != Some(true),
    ensures
        part_texts(model_parts(spec_get(v, "serverContent"@).unwrap())).len() > 0 ==> spec_translate(v) is Some,
        (spec_translate(v) matches Some(xs) && events_match(events, xs)) ==> text_deltas(events) == part_texts(
            model_parts(spec_get(v, "serverContent"@).unwrap()),
        ),
{
    let c = spec_get(v, "serverContent"@).unwrap();
    let ps = model_parts(c);
    lemma_part_texts(ps);
    assert(spec_as_array(spec_get_opt(spec_get(c, "modelTurn"@), "parts"@)) matches Some(a) ==> a == ps);
    let parts = match spec_as_array(spec_get_opt(spec_get(c, "modelTurn"@), "parts"@)) {
        Some(a) => parts_events(a),
        None => Seq::<Expected>::empty(),
    };
    assert(expected_texts(parts) == part_texts(ps)) by {
        if spec_as_array(spec_get_opt(spec_get(c, "modelTurn"@), "parts"@)) is None {
            assert(ps =~= Seq::<Json>::empty());
        }
    }
    let out = match transcript_text(c, "outputTranscription"@) {
        Some(t) => seq![Expected::Transcript(t)],
        None => Seq::<Expected>::empty(),
    };
    let inp = match transcript_text(c, "inputTranscription"@) {
        Some(t) => seq![Expected::InputTranscript(t)],
        None => Seq::<Expected>::empty(),
    };
    let done = if spec_as_bool(spec_get(c, "turnComplete"@)) == Some(true) {
        seq![Expected::Done(v)]
    } else {
        Seq::<Expected>::empty()
    };
    let ce = content_events(v, c);
    assert(ce == Seq::<Expected>::empty() + parts + out + inp + done);
    assert(Seq::<Expected>::empty() + parts =~= parts);
    lemma_expected_texts_concat(parts, out);
    lemma_expected_texts_concat(parts + out, inp);
    lemma_expected_texts_concat(parts + out + inp, done);
    if out.len() > 0 {
        lemma_single_no_text(out[0]);
        assert(out =~= seq![out[0]]);
    }
    if inp.len() > 0 {
        lemma_single_no_text(inp[0]);
        assert(inp =~= seq![inp[0]]);
    }
    if done.len() > 0 {
        lemma_single_no_text(done[0]);
        assert(done =~= seq![done[0]]);
    }
    assert(expected_texts(ce) =~= part_texts(ps));
    if ps.len() == 0 || part_texts(ps).len() == 0 || true {
        // When the content yields no events, it holds no text either.
        if ce.len() == 0 {
            assert(expected_texts(ce) =~= Seq::<Seq<char>>::empty());
        }
    }
    match spec_translate(v) {
        Some(xs) => {
            if events_match(events, xs) {
                lemma_events_texts(events, xs);
                if ce.len() > 0 {
                    assert(xs == ce);
                } else if spec_get(v, "sessionResumptionUpdate"@) is Some {
                    assert(xs =~= Seq::<Expected>::empty());
                } else if spec_get(v, "toolCallCancellation"@) is Some && cancellation_ids(
                    spec_get(v, "toolCallCancellation"@).unwrap(),
                ) is Some && cancellation_ids(spec_get(v, "toolCallCancellation"@).unwrap()).unwrap().len() > 0 {
                    lemma_single_no_text(xs[0]);
                    assert(xs =~= seq![xs[0]]);
                } else {
                    match spec_as_array(spec_get_opt(spec_get(v, "toolCall"@), "functionCalls"@)) {
                        Some(calls) => if calls.len() > 0 {
                            lemma_calls_no_texts(calls, calls.len() as int);
                        } else {
                            lemma_single_no_text(Expected::Unknown);
                        },
                        None => {
                            lemma_single_no_text(Expected::Unknown);
                        },
                    }
                }
            }
        },
        None => {},
    }
}


} // verus!
