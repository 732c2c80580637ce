//! Per-connection Gemini Live state that server frames update: the last
//! resumable session handle, the announced replacement deadline, and the
//! registry of issued function calls (needed to name tool responses).

use vstd::prelude::*;
use crate::duration::{parse_duration_string, spec_parse_duration};
use crate::error::RealtimeError;
use crate::events::{ServerEvent, ToolCallId, ToolResponse};
use crate::gemini::{gemini_cause_disposition, gemini_classify, gemini_classify_attempt_error, index_of_id, inserted, unique_ids, CallNamesMap};
use crate::error::spec_is_connection_reset;
use crate::recovery::{RealtimeRecovery, RecoveryCause, RecoveryDisposition};
use crate::gemini_frames::{spec_translate, translate_frame, events_match, Expected};
use crate::json::{as_bool, as_str, member_count, object1, object3, spec_as_bool, spec_as_str, spec_get, spec_get_opt, Json};
use crate::gemini_frames::spec_as_array;
use crate::time::Instant;
use crate::supervisor::sat_add;

verus! {

/// The registry with `id` removed, when present.
pub open spec fn removed(p: Seq<(Seq<char>, Seq<char>)>, id: Seq<char>) -> Seq<(Seq<char>, Seq<char>)> {
    let k = index_of_id(p, id);
    if k >= 0 { p.remove(k) } else { p }
}

/// The registry after removing each of `ids` in turn.
pub open spec fn removed_all(p: Seq<(Seq<char>, Seq<char>)>, ids: Seq<ToolCallId>) -> Seq<(Seq<char>, Seq<char>)>
    decreases ids.len(),
{
    if ids.len() == 0 {
        p
    } else {
        removed(removed_all(p, ids.drop_last()), ids.last().view())
    }
}

/// The registry after recording `events`: each completed function call is
/// registered, each cancelled call forgotten.
pub open spec fn recorded(p: Seq<(Seq<char>, Seq<char>)>, events: Seq<ServerEvent>) -> Seq<(Seq<char>, Seq<char>)>
    decreases events.len(),
{
    if events.len() == 0 {
        p
    } else {
        let q = recorded(p, events.drop_last());
        match events.last() {
            ServerEvent::FunctionCallDone { call_id, name, .. } => inserted(q, call_id@, name@),
            ServerEvent::ToolCallCancelled { call_ids } => removed_all(q, call_ids@),
            _ => q,
        }
    }
}

/// The handle a frame offers for resumption: `newHandle` of a
/// `sessionResumptionUpdate` that says `resumable: true`.
pub open spec fn offered_handle(frame: Json) -> Option<Seq<char>> {
    let upd = spec_get(frame, "sessionResumptionUpdate"@);
    if spec_as_bool(spec_get_opt(upd, "resumable"@)) == Some(true) {
        spec_as_str(spec_get_opt(upd, "newHandle"@))
    } else {
        None
    }
}

/// The replacement deadline a `goAway` frame announces at `now`, when its
/// `timeLeft` parses.
pub open spec fn announced_deadline(frame: Json, now: Instant) -> Option<Instant> {
    match spec_as_str(spec_get_opt(spec_get(frame, "goAway"@), "timeLeft"@)) {
        Some(t) => match spec_parse_duration(t) {
            Some(d) => Some(sat_add(now, d)),
            None => None,
        },
        None => None,
    }
}

/// A withdrawn call is forgotten: once a frame cancels calls `ids`, the
/// registry names none of them (so a later tool response for one is
/// refused, see `tool_response_message`), whatever it held before.
pub proof fn law_cancelled_call_is_forgotten(p: Seq<(Seq<char>, Seq<char>)>, ids: Vec<ToolCallId>, k: int)
    requires
        unique_ids(p),
        0 <= k < ids@.len(),
    ensures
        index_of_id(recorded(p, seq![ServerEvent::ToolCallCancelled { call_ids: ids }]), ids@[k]@) < 0,
{
    let evs = seq![ServerEvent::ToolCallCancelled { call_ids: ids }];
    assert(evs.drop_last() =~= Seq::<ServerEvent>::empty());
    assert(recorded(p, evs.drop_last()) == p);
    assert(evs.last() == ServerEvent::ToolCallCancelled { call_ids: ids });
    lemma_removed_all_forgets(p, ids@, k);
}

proof fn lemma_removed_forgets(q: Seq<(Seq<char>, Seq<char>)>, id: Seq<char>)
    requires
        unique_ids(q),
    ensures
        index_of_id(removed(q, id), id) < 0,
{
    let j = index_of_id(q, id);
    if j >= 0 {
        assert(q[j].0 == id);
        let q2 = q.remove(j);
        if index_of_id(q2, id) >= 0 {
            let m = index_of_id(q2, id);
            assert(q2[m].0 == id);
            if m < j {
                assert(q2[m] == q[m]);
            } else {
                assert(q2[m] == q[m + 1]);
            }
        }
    }
}

proof fn lemma_removed_keeps_absent(q: Seq<(Seq<char>, Seq<char>)>, x: Seq<char>, id: Seq<char>)
    requires
        index_of_id(q, id) < 0,
    ensures
        index_of_id(removed(q, x), id) < 0,
{
    let j = index_of_id(q, x);
    if j >= 0 {
        let q2 = q.remove(j);
        if index_of_id(q2, id) >= 0 {
            let m = index_of_id(q2, id);
            if m < j {
                assert(q2[m] == q[m]);
            } else {
                assert(q2[m] == q[m + 1]);
            }
        }
    }
}

proof fn lemma_removed_all_forgets(p: Seq<(Seq<char>, Seq<char>)>, ids: Seq<ToolCallId>, k: int)
    requires
        unique_ids(p),
        0 <= k < ids.len(),
    ensures
        index_of_id(removed_all(p, ids), ids[k]@) < 0,
    decreases ids.len(),
{
    let q = removed_all(p, ids.drop_last());
    lemma_removed_all_unique(p, ids.drop_last());
    if k == ids.len() - 1 {
        lemma_removed_forgets(q, ids.last()@);
    } else {
        lemma_removed_all_forgets(p, ids.drop_last(), k);
        assert(ids.drop_last()[k] == ids[k]);
        lemma_removed_keeps_absent(q, ids.last()@, ids[k]@);
    }
}

proof fn lemma_removed_all_unique(p: Seq<(Seq<char>, Seq<char>)>, ids: Seq<ToolCallId>)
    requires
        unique_ids(p),
    ensures
        unique_ids(removed_all(p, ids)),
    decreases ids.len(),
{
    if ids.len() > 0 {
        lemma_removed_all_unique(p, ids.drop_last());
        let q = removed_all(p, ids.drop_last());
        let k = index_of_id(q, ids.last()@);
        if k >= 0 {
            let q2 = q.remove(k);
            assert forall|i: int, j: int| 0 <= i < q2.len() && 0 <= j < q2.len() && i != j implies q2[i].0
                != q2[j].0 by {
                let a = if i < k { i } else { i + 1 };
                let b = if j < k { j } else { j + 1 };
                assert(q2[i] == q[a] && q2[j] == q[b]);
            }
        }
    }
}

/// Gemini Live per-connection state.
#[derive(Debug)]
pub struct GeminiSessionState {
    /// The most recent resumable handle; a non-resumable update never
    /// overwrites it.
    pub last_resume_handle: Option<String>,
    /// The latest replacement deadline announced by `goAway`.
    pub replacement_deadline: Option<Instant>,
    pub call_names: CallNamesMap,
}

impl GeminiSessionState {
    pub open spec fn wf(&self) -> bool {
        self.call_names.wf()
    }

    /// Fresh state: no handle, no deadline, no calls.
    pub fn new() -> (s: Self)
        ensures
            s.wf(),
            s.last_resume_handle is None,
            s.replacement_deadline is None,
            s.call_names.view().len() == 0,
    {
        GeminiSessionState {
            last_resume_handle: None,
            replacement_deadline: None,
            call_names: CallNamesMap::new(),
        }
    }

    /// Note what a frame says about resumption and replacement, at `now`.
    pub fn observe_frame(&mut self, frame: &Json, now: Instant)
        requires
            old(self).wf(),
        ensures
            final(self).wf(),
            final(self).call_names == old(self).call_names,
            match offered_handle(*frame) {
                Some(h) => final(self).last_resume_handle matches Some(s) && s@ == h,
                None => final(self).last_resume_handle == old(self).last_resume_handle,
            },
            match announced_deadline(*frame, now) {
                Some(d) => final(self).replacement_deadline == Some(d),
                None => final(self).replacement_deadline == old(self).replacement_deadline,
            },
    {
        let upd = frame.get("sessionResumptionUpdate");
        let resumable = match upd {
            Some(u) => match as_bool(u.get("resumable")) {
                Some(b) => b,
                None => false,
            },
            None => false,
        };
        if resumable {
            let h = match upd {
                Some(u) => as_str(u.get("newHandle")),
                None => None,
            };
            match h {
                Some(h) => {
                    self.last_resume_handle = Some(h.clone());
                },
                None => {},
            }
        }
        let tl = match frame.get("goAway") {
            Some(g) => as_str(g.get("timeLeft")),
            None => None,
        };
        match tl {
            Some(t) => match parse_duration_string(t.as_str()) {
                Some(d) => {
                    self.replacement_deadline = Some(now.saturating_add(d));
                },
                None => {},
            },
            None => {},
        }
    }

    fn forget_all(&mut self, ids: &Vec<ToolCallId>)
        requires
            old(self).wf(),
        ensures
            final(self).wf(),
            final(self).call_names.view() == removed_all(old(self).call_names.view(), ids@),
            final(self).last_resume_handle == old(self).last_resume_handle,
            final(self).replacement_deadline == old(self).replacement_deadline,
    {
        let mut i: usize = 0;
        while i < ids.len()
            invariant
                self.wf(),
                i <= ids.len(),
                self.call_names.view() == removed_all(old(self).call_names.view(), ids@.subrange(0, i as int)),
                self.last_resume_handle == old(self).last_resume_handle,
                self.replacement_deadline == old(self).replacement_deadline,
            decreases ids.len() - i,
        {
            let _ = self.call_names.remove(ids[i].as_str());
            proof {
                assert(ids@.subrange(0, i + 1).drop_last() =~= ids@.subrange(0, i as int));
            }
            i = i + 1;
        }
        proof {
            assert(ids@.subrange(0, ids@.len() as int) =~= ids@);
        }
    }

    /// Record the calls that translated events issue or withdraw.
    pub fn record_events(&mut self, events: &Vec<ServerEvent>)
        requires
            old(self).wf(),
        ensures
            final(self).wf(),
            final(self).call_names.view() == recorded(old(self).call_names.view(), events@),
            final(self).last_resume_handle == old(self).last_resume_handle,
            final(self).replacement_deadline == old(self).replacement_deadline,
    {
        let mut i: usize = 0;
        while i < events.len()
            invariant
                self.wf(),
                i <= events.len(),
                self.call_names.view() == recorded(old(self).call_names.view(), events@.subrange(0, i as int)),
                self.last_resume_handle == old(self).last_resume_handle,
                self.replacement_deadline == old(self).replacement_deadline,
            decreases events.len() - i,
        {
            proof {
                assert(events@.subrange(0, i + 1).drop_last() =~= events@.subrange(0, i as int));
            }
            match &events[i] {
                ServerEvent::FunctionCallDone { call_id, name, .. } => {
                    self.call_names.insert(call_id.clone(), name.clone());
                },
                ServerEvent::ToolCallCancelled { call_ids } => {
                    self.forget_all(call_ids);
                },
                _ => {},
            }
            i = i + 1;
        }
        proof {
            assert(events@.subrange(0, events@.len() as int) =~= events@);
        }
    }

    /// Handle one server frame at `now`: note resumption and replacement
    /// facts, translate the frame, then record the calls its events issue or
    /// withdraw. A protocol error leaves the call registry as it was.
    pub fn handle_frame(&mut self, frame: Json, now: Instant) -> (r: Result<Vec<ServerEvent>, RealtimeError>)
        requires
            old(self).wf(),
        ensures
            final(self).wf(),
            match offered_handle(frame) {
                Some(h) => final(self).last_resume_handle matches Some(s) && s@ == h,
                None => final(self).last_resume_handle == old(self).last_resume_handle,
            },
            match announced_deadline(frame, now) {
                Some(d) => final(self).replacement_deadline == Some(d),
                None => final(self).replacement_deadline == old(self).replacement_deadline,
            },
            match r {
                Ok(events) => spec_translate(frame) matches Some(xs) && events_match(events@, xs)
                    && final(self).call_names.view() == recorded(old(self).call_names.view(), events@),
                Err(e) => spec_translate(frame) is None && e is Protocol && final(self).call_names
                    == old(self).call_names,
            },
    {
        self.observe_frame(&frame, now);
        let events = translate_frame(frame)?;
        self.record_events(&events);
        Ok(events)
    }

    /// The wire message answering a tool call: the call's registered name is
    /// looked up and forgotten; a string output is wrapped as
    /// `{"result": output}`. A protocol error when the call id is unknown
    /// (for instance a call issued on an earlier connection).
    pub fn tool_response_message(&mut self, response: ToolResponse) -> (r: Result<Json, RealtimeError>)
        requires
            old(self).wf(),
        ensures
            final(self).wf(),
            final(self).last_resume_handle == old(self).last_resume_handle,
            final(self).replacement_deadline == old(self).replacement_deadline,
            index_of_id(old(self).call_names.view(), response.call_id@) >= 0 ==> {
                let k = index_of_id(old(self).call_names.view(), response.call_id@);
                &&& final(self).call_names.view() == old(self).call_names.view().remove(k)
                &&& r matches Ok(m) && tool_response_shape(
                    m,
                    response.call_id@,
                    old(self).call_names.view()[k].1,
                    response.output,
                )
            },
            index_of_id(old(self).call_names.view(), response.call_id@) < 0 ==> {
                &&& final(self).call_names.view() == old(self).call_names.view()
                &&& r matches Err(RealtimeError::Protocol(m)) && m@ == "Missing tool name for call_id '"@
                    + response.call_id@ + "' in GeminiFunctionResponse"@
            },
    {
        let ToolResponse { call_id, output } = response;
        let name = match self.call_names.remove(call_id.as_str()) {
            Some(n) => n,
            None => {
                let mut m = String::from_str("Missing tool name for call_id '");
                m.append(call_id.as_str());
                m.append("' in GeminiFunctionResponse");
                return Err(RealtimeError::protocol(m));
            },
        };
        let ghost out0 = output;
        proof {
            reveal_strlit("result");
            reveal_strlit("id");
            reveal_strlit("name");
            reveal_strlit("response");
            reveal_strlit("toolResponse");
            reveal_strlit("functionResponses");
            assert("id"@.len() == 2);
            assert("name"@.len() == 4);
            assert("response"@.len() == 8);
            assert("id"@ != "name"@);
            assert("id"@ != "response"@);
            assert("name"@ != "response"@);
        }
        let wrapped = match output {
            Json::Str(s) => object1("result", Json::Str(s)),
            other => other,
        };
        let fr = object3("id", Json::Str(call_id), "name", Json::Str(name), "response", wrapped);
        let mut arr: Vec<Json> = Vec::new();
        arr.push(fr);
        let inner = object1("functionResponses", Json::Array(arr));
        let msg = object1("toolResponse", inner);
        Ok(msg)
    }
}

/// `m` is the Gemini `toolResponse` message answering call `id` of tool
/// `name` with `output` (a JSON string output appears as `{"result": s}`).
pub open spec fn tool_response_shape(m: Json, id: Seq<char>, name: Seq<char>, output: Json) -> bool {
    &&& member_count(m) == 1
    &&& member_count(spec_get(m, "toolResponse"@).unwrap()) == 1
    &&& match spec_as_array(spec_get_opt(spec_get(m, "toolResponse"@), "functionResponses"@)) {
        Some(frs) => {
            &&& frs.len() == 1
            &&& member_count(frs[0]) == 3
            &&& spec_as_str(spec_get(frs[0], "id"@)) == Some(id)
            &&& spec_as_str(spec_get(frs[0], "name"@)) == Some(name)
            &&& match output {
                Json::Str(s) => member_count(spec_get(frs[0], "response"@).unwrap()) == 1 && spec_as_str(
                    spec_get_opt(spec_get(frs[0], "response"@), "result"@),
                ) == Some(s@),
                other => spec_get(frs[0], "response"@) == Some(other),
            }
        },
        None => false,
    }
}

impl RealtimeRecovery for GeminiSessionState {
    /// A transport reset or an end of stream is recoverable, as is a planned
    /// rotation; any other read or write failure is fatal.
    fn classify(&self, cause: &RecoveryCause) -> (d: RecoveryDisposition)
        ensures
            d == gemini_cause_disposition(*cause),
    {
        gemini_classify(cause)
    }

    /// A failed attempt is retried only on a transport reset.
    fn classify_attempt_error(&self, error: &RealtimeError) -> (d: RecoveryDisposition)
        ensures
            d == if spec_is_connection_reset(*error) {
                RecoveryDisposition::Recoverable
            } else {
                RecoveryDisposition::Fatal
            },
    {
        gemini_classify_attempt_error(error)
    }
}

} // verus!
