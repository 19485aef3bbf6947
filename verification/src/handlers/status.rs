//! `Status` — what the running app is doing right now.
//!
//! Answered by the dispatcher itself: it takes no locks that a running job
//! holds, so it stays responsive while a long transcription is in flight. That
//! makes it the natural smoke test for the whole transport.

use crate::protocol;
use crate::protocol::BodyView;
use crate::protocol::LeaseOwner;
use crate::protocol::ResultBody;
use crate::protocol::StatusBody;
use crate::protocol::StatusView;
use crate::server::HandlerResult;
use crate::text;
use vstd::prelude::*;

verus! {

/// What a status answer is made of.
#[derive(Debug)]
pub struct AppFacts {
    pub app_version: String,
    pub pid: u32,
    pub uptime_secs: u64,
    pub selected_model: String,
    pub loaded_model: Option<String>,
    pub backend: Option<String>,
    pub model_loaded: bool,
    pub engine_busy: Option<LeaseOwner>,
    /// Whether a recording is running; `None` where the app has no recorder.
    pub recording: Option<bool>,
    pub streaming: bool,
    pub post_process_enabled: bool,
}

/// What a status answer says.
pub open spec fn status_view(facts: AppFacts) -> StatusView {
    StatusView {
        app_version: facts.app_version@,
        protocol: protocol::PROTOCOL_VERSION,
        pid: facts.pid,
        uptime_secs: facts.uptime_secs,
        selected_model: facts.selected_model@,
        loaded_model: text::opt_text(facts.loaded_model),
        backend: text::opt_text(facts.backend),
        model_loaded: facts.model_loaded,
        engine_busy: facts.engine_busy,
        recording: facts.recording == Some(true),
        streaming: facts.streaming,
        post_process_enabled: facts.post_process_enabled,
    }
}

/// Answer a status request. This always succeeds.
pub fn handle(facts: AppFacts) -> (r: HandlerResult)
    ensures
        r is Ok,
        r->Ok_0@ == BodyView::Status(status_view(facts)),
        r matches Ok(ResultBody::Status(b)) && {
            &&& b.recording <==> facts.recording == Some(true)
            &&& b.protocol == 1
            &&& b.app_version@ == facts.app_version@
            &&& b.pid == facts.pid
            &&& b.uptime_secs == facts.uptime_secs
            &&& b.selected_model@ == facts.selected_model@
            &&& b.loaded_model == facts.loaded_model
            &&& b.backend == facts.backend
            &&& b.model_loaded == facts.model_loaded
            &&& b.engine_busy == facts.engine_busy
            &&& b.streaming == facts.streaming
            &&& b.post_process_enabled == facts.post_process_enabled
        },
{
    Ok(
        ResultBody::Status(
            Box::new(
                StatusBody {
                    app_version: facts.app_version,
                    protocol: protocol::PROTOCOL_VERSION,
                    pid: facts.pid,
                    uptime_secs: facts.uptime_secs,
                    selected_model: facts.selected_model,
                    loaded_model: facts.loaded_model,
                    backend: facts.backend,
                    model_loaded: facts.model_loaded,
                    engine_busy: facts.engine_busy,
                    recording: match facts.recording {
                        Some(recording) => recording,
                        None => false,
                    },
                    streaming: facts.streaming,
                    post_process_enabled: facts.post_process_enabled,
                },
            ),
        ),
    )
}

/// A status answer says of everything what is so: it reports a recording exactly
/// where the recorder says that one is running, which an app without a recorder
/// does not, and it repeats every other fact.
pub proof fn law_a_status_repeats_the_facts(facts: AppFacts)
    ensures
        ({
            let s = status_view(facts);
            &&& s.recording <==> facts.recording == Some(true)
            &&& facts.recording is None ==> !s.recording
            &&& s.protocol == 1
            &&& s.app_version == facts.app_version@
            &&& s.pid == facts.pid
            &&& s.uptime_secs == facts.uptime_secs
            &&& s.selected_model == facts.selected_model@
            &&& match facts.loaded_model {
                Some(id) => s.loaded_model == Some(id@),
                None => s.loaded_model is None,
            }
            &&& match facts.backend {
                Some(name) => s.backend == Some(name@),
                None => s.backend is None,
            }
            &&& s.model_loaded == facts.model_loaded
            &&& s.engine_busy == facts.engine_busy
            &&& s.streaming == facts.streaming
            &&& s.post_process_enabled == facts.post_process_enabled
        }),
{
}

} // verus!
