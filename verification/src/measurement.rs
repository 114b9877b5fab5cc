//! Resolving a runtime measurement into the code identities of the two
//! images that a worker runs.
//!
//! The attested environment runs a fixed supporting image (the API image)
//! and, on top of it, the image of the caller (the application image). A TCB
//! descriptor is a log of events; each event says, for one measurement, which
//! code identity one of the two images had.

use crate::attestation::AttestationReport;
use crate::encoding::{bytes_to_hex, encode};
use crate::error::ResolutionError;
use vstd::prelude::*;

verus! {

/// Which of the two images an event speaks of.
#[derive(Clone, Copy, Debug, PartialEq, Eq, Structural)]
pub enum Component {
    /// The supporting image.
    ApiImage,
    /// The image supplied by the caller.
    AppImage,
}

/// One event of a TCB descriptor.
pub struct TcbEvent {
    /// The measurement that the event belongs to, as lower-case hex.
    pub measurement: String,
    /// The image that the event speaks of.
    pub component: Component,
    /// The code identity of that image.
    pub codehash: String,
}

/// An event as a mathematical value.
pub struct TcbEventView {
    pub measurement: Seq<char>,
    pub component: Component,
    pub codehash: Seq<char>,
}

impl View for TcbEvent {
    type V = TcbEventView;

    open spec fn view(&self) -> TcbEventView {
        TcbEventView {
            measurement: self.measurement@,
            component: self.component,
            codehash: self.codehash@,
        }
    }
}

/// A TCB descriptor: its events, in the order of the log.
pub struct TcbDescriptor {
    pub events: Vec<TcbEvent>,
}

impl View for TcbDescriptor {
    type V = Seq<TcbEventView>;

    open spec fn view(&self) -> Seq<TcbEventView> {
        self.events@.map_values(|e: TcbEvent| e@)
    }
}

/// The code identities of the two images of a worker.
#[derive(Debug, PartialEq, Eq)]
pub struct Codehashes {
    pub api_image: String,
    pub app_image: String,
}

/// A pair of code identities as a mathematical value.
pub struct CodehashesView {
    pub api_image: Seq<char>,
    pub app_image: Seq<char>,
}

impl View for Codehashes {
    type V = CodehashesView;

    open spec fn view(&self) -> CodehashesView {
        CodehashesView { api_image: self.api_image@, app_image: self.app_image@ }
    }
}

/// Whether `event` speaks of `component` under `measurement`.
pub open spec fn concerns(
    event: TcbEventView,
    measurement: Seq<char>,
    component: Component,
) -> bool {
    event.measurement == measurement && event.component == component
}

/// Whether the event at index `i` is the first of `events` that speaks of
/// `component` under `measurement`.
pub open spec fn is_first_event(
    events: Seq<TcbEventView>,
    measurement: Seq<char>,
    component: Component,
    i: int,
) -> bool {
    &&& 0 <= i < events.len()
    &&& concerns(events[i], measurement, component)
    &&& forall|j: int| 0 <= j < i ==> !concerns(#[trigger] events[j], measurement, component)
}

/// Whether some event of `events` speaks of `component` under `measurement`.
pub open spec fn has_event(
    events: Seq<TcbEventView>,
    measurement: Seq<char>,
    component: Component,
) -> bool {
    exists|i: int| 0 <= i < events.len() && concerns(#[trigger] events[i], measurement, component)
}

/// The code identity that `events` give to `component` under `measurement`:
/// that of the first event that speaks of it. A later event never overrides
/// an earlier one.
pub open spec fn logged_codehash(
    events: Seq<TcbEventView>,
    measurement: Seq<char>,
    component: Component,
) -> Seq<char>
    recommends
        has_event(events, measurement, component),
{
    events[choose|i: int| is_first_event(events, measurement, component, i)].codehash
}

/// What a measurement resolves to under a descriptor. Both images must have
/// an event under the measurement, and neither code identity may be empty;
/// the API image is looked at first.
pub open spec fn resolution(measurement: Seq<char>, events: Seq<TcbEventView>) -> Result<
    CodehashesView,
    ResolutionError,
> {
    let api_image = logged_codehash(events, measurement, Component::ApiImage);
    let app_image = logged_codehash(events, measurement, Component::AppImage);
    if !has_event(events, measurement, Component::ApiImage) {
        Err(ResolutionError::ApiImageMissing)
    } else if api_image.len() == 0 {
        Err(ResolutionError::ApiImageMalformed)
    } else if !has_event(events, measurement, Component::AppImage) {
        Err(ResolutionError::AppImageMissing)
    } else if app_image.len() == 0 {
        Err(ResolutionError::AppImageMalformed)
    } else {
        Ok(CodehashesView { api_image, app_image })
    }
}

/// The first event is the only one that is first.
pub proof fn lemma_first_event_is_unique(
    events: Seq<TcbEventView>,
    measurement: Seq<char>,
    component: Component,
    i: int,
)
    requires
        is_first_event(events, measurement, component, i),
    ensures
        has_event(events, measurement, component),
        logged_codehash(events, measurement, component) == events[i].codehash,
{
    let k = choose|k: int| is_first_event(events, measurement, component, k);
    if k < i {
        assert(!concerns(events[k], measurement, component));
    } else if i < k {
        assert(!concerns(events[i], measurement, component));
    }
}

/// The measurement of `report` in the form in which descriptors name it: the
/// fourth runtime measurement register as lower-case hex.
pub fn measurement_digest(report: &AttestationReport) -> (r: String)
    ensures
        r@ == bytes_to_hex(report@.rt_mr3),
{
    encode(report.rt_mr3.as_slice())
}

fn find_event(tcb_info: &TcbDescriptor, measurement: &String, component: Component) -> (r: Option<
    usize,
>)
    ensures
        match r {
            Some(i) => is_first_event(tcb_info@, measurement@, component, i as int),
            None => !has_event(tcb_info@, measurement@, component),
        },
{
    let mut i: usize = 0;
    while i < tcb_info.events.len()
        invariant
            i <= tcb_info.events@.len(),
            forall|j: int|
                0 <= j < i ==> !concerns(#[trigger] tcb_info@[j], measurement@, component),
        decreases tcb_info.events@.len() - i,
    {
        let event = &tcb_info.events[i];
        assert(tcb_info@[i as int] == event@);
        if event.component == component && event.measurement == *measurement {
            return Some(i);
        }
        i += 1;
    }
    None
}

/// Resolves the measurement named `measurement` under `tcb_info` into the
/// code identities of the two images.
pub fn resolve_digest(measurement: &String, tcb_info: &TcbDescriptor) -> (r: Result<
    Codehashes,
    ResolutionError,
>)
    ensures
        match r {
            Ok(codehashes) => resolution(measurement@, tcb_info@) == Ok::<
                CodehashesView,
                ResolutionError,
            >(codehashes@),
            Err(e) => resolution(measurement@, tcb_info@) == Err::<
                CodehashesView,
                ResolutionError,
            >(e),
        },
{
    let api = match find_event(tcb_info, measurement, Component::ApiImage) {
        Some(i) => i,
        None => { return Err(ResolutionError::ApiImageMissing); },
    };
    proof {
        lemma_first_event_is_unique(tcb_info@, measurement@, Component::ApiImage, api as int);
    }
    if tcb_info.events[api].codehash.as_str().is_empty() {
        return Err(ResolutionError::ApiImageMalformed);
    }
    let app = match find_event(tcb_info, measurement, Component::AppImage) {
        Some(i) => i,
        None => { return Err(ResolutionError::AppImageMissing); },
    };
    proof {
        lemma_first_event_is_unique(tcb_info@, measurement@, Component::AppImage, app as int);
    }
    if tcb_info.events[app].codehash.as_str().is_empty() {
        return Err(ResolutionError::AppImageMalformed);
    }
    Ok(
        Codehashes {
            api_image: tcb_info.events[api].codehash.clone(),
            app_image: tcb_info.events[app].codehash.clone(),
        },
    )
}

/// Resolves the measurement of `report` under `tcb_info` into the code
/// identities of the two images.
pub fn resolve(report: &AttestationReport, tcb_info: &TcbDescriptor) -> (r: Result<
    Codehashes,
    ResolutionError,
>)
    ensures
        match r {
            Ok(codehashes) => resolution(bytes_to_hex(report@.rt_mr3), tcb_info@) == Ok::<
                CodehashesView,
                ResolutionError,
            >(codehashes@),
            Err(e) => resolution(bytes_to_hex(report@.rt_mr3), tcb_info@) == Err::<
                CodehashesView,
                ResolutionError,
            >(e),
        },
{
    let measurement = measurement_digest(report);
    resolve_digest(&measurement, tcb_info)
}

} // verus!
