//! Gemini Live adapter logic: model ids, endpoint URLs, modalities, the call
//! name registry, the recovery classification, and the translation of server
//! frames into unified events.

use vstd::prelude::*;
use crate::audio::{spec_bytes_per_second, AudioFormat};
use crate::error::{spec_is_connection_reset, RealtimeError};
use crate::recovery::{RecoveryCause, RecoveryDisposition};
use crate::text::{starts_with, str_starts_with, to_uppercase, uppercase_of};
use crate::json::str_eq;

verus! {

/// Capacity of the call name registry.
pub const MAX_CALL_NAMES_CAPACITY: usize = 1000;

/// One registered function call: its id and tool name.
#[derive(Debug)]
pub struct CallName {
    pub call_id: String,
    pub name: String,
}

/// The registry of function-call ids to tool names, evicting the oldest
/// entry beyond capacity (first in, first out).
#[derive(Debug)]
pub struct CallNamesMap {
    entries: Vec<CallName>,
}

/// The id/name pairs in insertion order.
pub open spec fn pairs(entries: Seq<CallName>) -> Seq<(Seq<char>, Seq<char>)> {
    entries.map_values(|e: CallName| (e.call_id@, e.name@))
}

/// Index of the entry with id `id`, or -1.
pub open spec fn index_of_id(p: Seq<(Seq<char>, Seq<char>)>, id: Seq<char>) -> int {
    if exists|i: int| 0 <= i < p.len() && p[i].0 == id {
        choose|i: int| 0 <= i < p.len() && p[i].0 == id
    } else {
        -1
    }
}

/// Ids are unique.
pub open spec fn unique_ids(p: Seq<(Seq<char>, Seq<char>)>) -> bool {
    forall|i: int, j: int| 0 <= i < p.len() && 0 <= j < p.len() && i != j ==> p[i].0 != p[j].0
}

/// The registry after inserting `(id, name)`: an existing id keeps its place
/// and takes the new name; a new id goes last, and the oldest entry is
/// evicted when that exceeds capacity.
pub open spec fn inserted(p: Seq<(Seq<char>, Seq<char>)>, id: Seq<char>, name: Seq<char>) -> Seq<(Seq<char>, Seq<char>)> {
    let k = index_of_id(p, id);
    if k >= 0 {
        p.update(k, (id, name))
    } else if p.len() + 1 > MAX_CALL_NAMES_CAPACITY {
        p.push((id, name)).drop_first()
    } else {
        p.push((id, name))
    }
}

/// Registering a call makes its name available: after `inserted` the id is
/// present with the new name, ids stay unique, and the registry stays within
/// capacity; a new id arriving at a full registry evicts the oldest entry.
pub proof fn law_registered_call_is_found(p: Seq<(Seq<char>, Seq<char>)>, id: Seq<char>, name: Seq<char>)
    requires
        unique_ids(p),
        p.len() <= MAX_CALL_NAMES_CAPACITY,
    ensures
        unique_ids(inserted(p, id, name)),
        inserted(p, id, name).len() <= MAX_CALL_NAMES_CAPACITY,
        index_of_id(inserted(p, id, name), id) >= 0,
        inserted(p, id, name)[index_of_id(inserted(p, id, name), id)].1 == name,
        index_of_id(p, id) == -1 && p.len() == MAX_CALL_NAMES_CAPACITY ==> inserted(p, id, name)
            == p.drop_first().push((id, name)),
{
    let q = inserted(p, id, name);
    let k = index_of_id(p, id);
    let pos: int;
    if k >= 0 {
        assert(p[k].0 == id);
        assert forall|i: int, j: int| 0 <= i < q.len() && 0 <= j < q.len() && i != j implies q[i].0 != q[j].0 by {
            assert(q[i].0 == p[i].0);
            assert(q[j].0 == p[j].0);
        }
        pos = k;
    } else {
        assert(forall|i: int| 0 <= i < p.len() ==> p[i].0 != id);
        let pp = p.push((id, name));
        assert(unique_ids(pp)) by {
            assert forall|i: int, j: int| 0 <= i < pp.len() && 0 <= j < pp.len() && i != j implies pp[i].0
                != pp[j].0 by {
                if i < p.len() && j < p.len() {
                    assert(pp[i] == p[i] && pp[j] == p[j]);
                } else if i < p.len() {
                    assert(pp[i] == p[i]);
                } else if j < p.len() {
                    assert(pp[j] == p[j]);
                }
            }
        }
        if p.len() + 1 > MAX_CALL_NAMES_CAPACITY {
            assert(q == pp.drop_first());
            assert forall|i: int, j: int| 0 <= i < q.len() && 0 <= j < q.len() && i != j implies q[i].0 != q[j].0 by {
                assert(q[i] == pp[i + 1] && q[j] == pp[j + 1]);
            }
            assert(p.drop_first().push((id, name)) =~= q);
            pos = q.len() - 1;
            assert(q[pos] == pp[pos + 1]);
        } else {
            pos = q.len() - 1;
        }
    }
    assert(q[pos].0 == id && q[pos].1 == name);
    let c = index_of_id(q, id);
    assert(c == pos);
}

impl CallNamesMap {
    /// The registered pairs, oldest first.
    pub closed spec fn view(&self) -> Seq<(Seq<char>, Seq<char>)> {
        pairs(self.entries@)
    }

    pub open spec fn wf(&self) -> bool {
        unique_ids(self.view()) && self.view().len() <= MAX_CALL_NAMES_CAPACITY
    }

    /// An empty registry.
    pub fn new() -> (m: Self)
        ensures
            m.wf(),
            m.view() == Seq::<(Seq<char>, Seq<char>)>::empty(),
    {
        let m = CallNamesMap { entries: Vec::new() };
        assert(m.view() =~= Seq::<(Seq<char>, Seq<char>)>::empty());
        m
    }

    fn find(&self, call_id: &str) -> (r: Option<usize>)
        requires
            self.wf(),
        ensures
            match r {
                Some(k) => k < self.view().len() && self.view()[k as int].0 == call_id@ && index_of_id(
                    self.view(),
                    call_id@,
                ) == k,
                None => index_of_id(self.view(), call_id@) == -1,
            },
    {
        let mut i: usize = 0;
        while i < self.entries.len()
            invariant
                self.wf(),
                i <= self.entries.len(),
                self.view().len() == self.entries.len(),
                forall|j: int| 0 <= j < i ==> self.view()[j].0 != call_id@,
            decreases self.entries.len() - i,
        {
            if str_eq(self.entries[i].call_id.as_str(), call_id) {
                proof {
                    assert(self.view()[i as int].0 == call_id@);
                    let c = choose|j: int| 0 <= j < self.view().len() && self.view()[j].0 == call_id@;
                    assert(c == i);
                }
                return Some(i);
            }
            i = i + 1;
        }
        None
    }

    /// Register `call_id` → `name`.
    pub fn insert(&mut self, call_id: String, name: String)
        requires
            old(self).wf(),
        ensures
            final(self).wf(),
            final(self).view() == inserted(old(self).view(), call_id@, name@),
    {
        match self.find(call_id.as_str()) {
            Some(k) => {
                let ghost before = self.entries@;
                self.entries.set(k, CallName { call_id, name });
                proof {
                    assert(self.view() =~= inserted(pairs(before), call_id@, name@));
                }
            },
            None => {
                let ghost before = self.entries@;
                self.entries.push(CallName { call_id, name });
                if self.entries.len() > MAX_CALL_NAMES_CAPACITY {
                    let _ = self.entries.remove(0);
                }
                proof {
                    assert(self.view() =~= inserted(pairs(before), call_id@, name@));
                }
            },
        }
    }

    /// Remove `call_id`, returning its name.
    pub fn remove(&mut self, call_id: &str) -> (r: Option<String>)
        requires
            old(self).wf(),
        ensures
            final(self).wf(),
            match r {
                Some(n) => {
                    let k = index_of_id(old(self).view(), call_id@);
                    &&& k >= 0
                    &&& old(self).view()[k].1 == n@
                    &&& final(self).view() == old(self).view().remove(k)
                },
                None => index_of_id(old(self).view(), call_id@) == -1 && final(self).view()
                    == old(self).view(),
            },
    {
        match self.find(call_id) {
            Some(k) => {
                let ghost before = self.entries@;
                let e = self.entries.remove(k);
                proof {
                    assert(self.view() =~= pairs(before).remove(k as int));
                }
                Some(e.name)
            },
            None => None,
        }
    }

    /// The number of registered calls.
    pub fn len(&self) -> (n: usize)
        ensures
            n == self.view().len(),
    {
        self.entries.len()
    }
}

/// The model id with the `models/` prefix Gemini Live setup frames need,
/// unless it already names a model, project or publisher path.
pub open spec fn normalized_model_id(m: Seq<char>) -> Seq<char> {
    if starts_with(m, "models/"@) || starts_with(m, "projects/"@) || starts_with(m, "publishers/"@) {
        m
    } else {
        "models/"@ + m
    }
}

/// Ensure the model id is prefixed with `models/`.
pub fn normalize_model_id(model_id: &str) -> (r: String)
    ensures
        r@ == normalized_model_id(model_id@),
{
    if str_starts_with(model_id, "models/") || str_starts_with(model_id, "projects/")
        || str_starts_with(model_id, "publishers/") {
        String::from_str(model_id)
    } else {
        let mut s = String::from_str("models/");
        s.append(model_id);
        s
    }
}

/// The Vertex AI Live WebSocket URL for a region and project.
pub open spec fn vertex_live_url(region: Seq<char>, project_id: Seq<char>) -> Seq<char> {
    "wss://"@ + region
        + "-aiplatform.googleapis.com/ws/google.cloud.aiplatform.v1beta1.LlmBidiService/BidiGenerateContent?project_id="@
        + project_id
}

/// Build the Vertex AI Live WebSocket URL; a configuration error when the
/// region or the project id is empty.
pub fn build_vertex_live_url(region: &str, project_id: &str) -> (r: Result<String, RealtimeError>)
    ensures
        match r {
            Ok(u) => region@.len() > 0 && project_id@.len() > 0 && u@ == vertex_live_url(
                region@,
                project_id@,
            ),
            Err(e) => (region@.len() == 0 || project_id@.len() == 0) && e is ConfigError,
        },
{
    if region.unicode_len() == 0 {
        return Err(RealtimeError::config(String::from_str("Vertex AI Live requires a non-empty region")));
    }
    if project_id.unicode_len() == 0 {
        return Err(
            RealtimeError::config(String::from_str("Vertex AI Live requires a non-empty project_id")),
        );
    }
    let mut s = String::from_str("wss://");
    s.append(region);
    s.append(
        "-aiplatform.googleapis.com/ws/google.cloud.aiplatform.v1beta1.LlmBidiService/BidiGenerateContent?project_id=",
    );
    s.append(project_id);
    Ok(s)
}

/// Gemini `responseModalities` for the provider-neutral modalities: each
/// uppercased, or `["AUDIO"]` when none are given.
pub fn gemini_response_modalities(modalities: Option<&Vec<String>>) -> (r: Vec<String>)
    ensures
        match modalities {
            Some(v) if v.len() > 0 => r.len() == v.len() && forall|i: int|
                0 <= i < v.len() ==> #[trigger] r@[i]@ == uppercase_of(v@[i]@),
            _ => r.len() == 1 && r@[0]@ == "AUDIO"@,
        },
{
    match modalities {
        Some(v) => {
            if v.len() > 0 {
                let mut out: Vec<String> = Vec::new();
                let mut i: usize = 0;
                while i < v.len()
                    invariant
                        i <= v.len(),
                        out.len() == i,
                        forall|k: int| 0 <= k < i ==> #[trigger] out@[k]@ == uppercase_of(v@[k]@),
                    decreases v.len() - i,
                {
                    out.push(to_uppercase(v[i].as_str()));
                    i = i + 1;
                }
                return out;
            }
        },
        None => {},
    }
    let mut out: Vec<String> = Vec::new();
    out.push(String::from_str("AUDIO"));
    proof {
        reveal_strlit("AUDIO");
    }
    out
}

/// Bytes of audio buffered before a flush: 40 ms of the format, rounded up,
/// at least one byte.
pub open spec fn flush_threshold(f: AudioFormat) -> int {
    let t = (spec_bytes_per_second(f) * 40 + 999) / 1000;
    if t >= 1 { t } else { 1 }
}

/// The audio flush threshold of a format.
pub fn flush_threshold_bytes(format: &AudioFormat) -> (n: usize)
    requires
        spec_bytes_per_second(*format) <= u32::MAX,
    ensures
        n == flush_threshold(*format),
{
    let bps = format.bytes_per_second();
    let prod = (bps as u64) * 40;
    let t = prod / 1000 + if prod % 1000 == 0 {
        0
    } else {
        1
    };
    if t >= 1 {
        t as usize
    } else {
        1
    }
}

/// Gemini's classification of a recovery cause: a read or write failure is
/// recoverable only when it is a transport reset; end of stream and planned
/// rotation are recoverable.
pub open spec fn gemini_cause_disposition(cause: RecoveryCause) -> RecoveryDisposition {
    match cause {
        RecoveryCause::ReadFailed(e) => if spec_is_connection_reset(e) {
            RecoveryDisposition::Recoverable
        } else {
            RecoveryDisposition::Fatal
        },
        RecoveryCause::WriteFailed(e) => if spec_is_connection_reset(e) {
            RecoveryDisposition::Recoverable
        } else {
            RecoveryDisposition::Fatal
        },
        _ => RecoveryDisposition::Recoverable,
    }
}

/// Classify a recovery cause for a Gemini session.
pub fn gemini_classify(cause: &RecoveryCause) -> (d: RecoveryDisposition)
    ensures
        d == gemini_cause_disposition(*cause),
{
    match cause {
        RecoveryCause::ReadFailed(e) | RecoveryCause::WriteFailed(e) => {
            if e.is_connection_reset() {
                RecoveryDisposition::Recoverable
            } else {
                RecoveryDisposition::Fatal
            }
        },
        _ => RecoveryDisposition::Recoverable,
    }
}

/// Classify a failed Gemini recovery attempt: retryable only on a transport
/// reset.
pub fn gemini_classify_attempt_error(error: &RealtimeError) -> (d: RecoveryDisposition)
    ensures
        d == if spec_is_connection_reset(*error) {
            RecoveryDisposition::Recoverable
        } else {
            RecoveryDisposition::Fatal
        },
{
    if error.is_connection_reset() {
        RecoveryDisposition::Recoverable
    } else {
        RecoveryDisposition::Fatal
    }
}

/// A Gemini session recovers from everything but a real failure: a cause is
/// fatal exactly when it is a read or write failure whose error is not a
/// connection reset; an unexpected end of stream and a planned rotation are
/// recoverable.
pub proof fn law_only_non_reset_failures_are_fatal(cause: RecoveryCause)
    ensures
        (gemini_cause_disposition(cause) == RecoveryDisposition::Fatal) <==> match cause {
            RecoveryCause::ReadFailed(e) => !spec_is_connection_reset(e),
            RecoveryCause::WriteFailed(e) => !spec_is_connection_reset(e),
            _ => false,
        },
        cause is UnexpectedEof ==> gemini_cause_disposition(cause) == RecoveryDisposition::Recoverable,
        cause is PlannedRotation ==> gemini_cause_disposition(cause) == RecoveryDisposition::Recoverable,
{
}

/// Gemini Live session resumption settings: the handle of the session to
/// resume, when there is one.
#[derive(Debug)]
pub struct SessionResumptionConfig {
    pub handle: Option<String>,
}

/// The Gemini Live endpoint of AI Studio.
pub const GEMINI_LIVE_URL: &'static str =
    "wss://generativelanguage.googleapis.com/ws/google.ai.generativelanguage.v1beta.GenerativeService.BidiGenerateContent";

/// Where a Gemini Live session connects, and how it authenticates. A Vertex
/// backend authenticates with Application Default Credentials, which are
/// discovered when connecting.
#[derive(Debug, Clone)]
pub enum GeminiLiveBackend {
    /// AI Studio, authenticated by API key.
    Studio { api_key: String, endpoint_url: Option<String> },
    /// Vertex AI in a region of a project.
    Vertex { region: String, project_id: String, endpoint_url: Option<String> },
}

impl GeminiLiveBackend {
    /// An AI Studio backend using `api_key`.
    pub fn studio(api_key: String) -> (b: Self)
        ensures
            b == (GeminiLiveBackend::Studio { api_key, endpoint_url: None }),
    {
        GeminiLiveBackend::Studio { api_key, endpoint_url: None }
    }

    /// A Vertex AI backend for `project_id` in `region`, authenticated by
    /// Application Default Credentials (discovered when connecting).
    pub fn vertex_adc(project_id: String, region: String) -> (b: Self)
        ensures
            b == (GeminiLiveBackend::Vertex { region, project_id, endpoint_url: None }),
    {
        GeminiLiveBackend::Vertex { region, project_id, endpoint_url: None }
    }

    /// Connect to `endpoint_url` instead (a mock server or a proxy). No
    /// Google credential is ever sent to such an endpoint.
    pub fn with_endpoint_url(self, endpoint_url: String) -> (b: Self)
        ensures
            b == match self {
                GeminiLiveBackend::Studio { api_key, .. } => GeminiLiveBackend::Studio {
                    api_key,
                    endpoint_url: Some(endpoint_url),
                },
                GeminiLiveBackend::Vertex { region, project_id, .. } => GeminiLiveBackend::Vertex {
                    region,
                    project_id,
                    endpoint_url: Some(endpoint_url),
                },
            },
    {
        match self {
            GeminiLiveBackend::Studio { api_key, .. } => GeminiLiveBackend::Studio {
                api_key,
                endpoint_url: Some(endpoint_url),
            },
            GeminiLiveBackend::Vertex { region, project_id, .. } => GeminiLiveBackend::Vertex {
                region,
                project_id,
                endpoint_url: Some(endpoint_url),
            },
        }
    }
}

/// The WebSocket URL to open, and whether an OAuth2 bearer token from
/// Application Default Credentials goes in the `Authorization` header.
#[derive(Debug)]
pub struct ConnectionTarget {
    pub url: String,
    pub bearer_from_adc: bool,
}

/// The connection a backend makes: a custom endpoint as given and with no
/// credential at all; otherwise AI Studio with the API key as the `key`
/// query parameter, or the regional Vertex AI endpoint with an ADC token.
pub fn connection_target(backend: &GeminiLiveBackend) -> (r: Result<ConnectionTarget, RealtimeError>)
    ensures
        match backend {
            GeminiLiveBackend::Studio { api_key, endpoint_url } => r matches Ok(t) && !t.bearer_from_adc
                && t.url@ == match endpoint_url {
                Some(u) => u@,
                None => GEMINI_LIVE_URL@ + "?key="@ + api_key@,
            },
            GeminiLiveBackend::Vertex { region, project_id, endpoint_url } => match endpoint_url {
                Some(u) => r matches Ok(t) && !t.bearer_from_adc && t.url@ == u@,
                None => if region@.len() > 0 && project_id@.len() > 0 {
                    r matches Ok(t) && t.bearer_from_adc && t.url@ == vertex_live_url(region@, project_id@)
                } else {
                    r matches Err(e) && e is ConfigError
                },
            },
        },
{
    match backend {
        GeminiLiveBackend::Studio { api_key, endpoint_url } => match endpoint_url {
            Some(u) => Ok(ConnectionTarget { url: u.clone(), bearer_from_adc: false }),
            None => {
                let mut url = String::from_str(GEMINI_LIVE_URL);
                url.append("?key=");
                url.append(api_key.as_str());
                Ok(ConnectionTarget { url, bearer_from_adc: false })
            },
        },
        GeminiLiveBackend::Vertex { region, project_id, endpoint_url } => match endpoint_url {
            Some(u) => Ok(ConnectionTarget { url: u.clone(), bearer_from_adc: false }),
            None => match build_vertex_live_url(region.as_str(), project_id.as_str()) {
                Ok(url) => Ok(ConnectionTarget { url, bearer_from_adc: true }),
                Err(e) => Err(e),
            },
        },
    }
}

/// A Gemini Live model: a backend and a model id in its `models/` form.
#[derive(Debug, Clone)]
pub struct GeminiRealtimeModel {
    pub backend: GeminiLiveBackend,
    pub model_id: String,
}

impl GeminiRealtimeModel {
    /// A model for `model_id` (normalized to its `models/` form) on `backend`.
    pub fn new(backend: GeminiLiveBackend, model_id: &str) -> (m: Self)
        ensures
            m.backend == backend,
            m.model_id@ == normalized_model_id(model_id@),
    {
        GeminiRealtimeModel { backend, model_id: normalize_model_id(model_id) }
    }

    /// Gemini Live takes PCM16 mono at 16 kHz.
    pub fn supported_input_format(&self) -> (f: AudioFormat)
        ensures
            f == AudioFormat::pcm16_16khz_spec(),
    {
        AudioFormat::pcm16_16khz()
    }

    /// Gemini Live speaks PCM16 mono at 24 kHz.
    pub fn supported_output_format(&self) -> (f: AudioFormat)
        ensures
            f == AudioFormat::pcm16_24khz_spec(),
    {
        AudioFormat::pcm16_24khz()
    }
}

} // verus!
