//! The DRM canvas: its errors and the decisions taken while discovering a
//! display (which connector drives it, which CRTC scans it out and which
//! mode it runs in).

use vstd::prelude::*;
use vstd::string::*;

verus! {

/// The standard I/O error, carried opaquely inside [`DrmCanvasError::IoError`].
#[verifier::external_type_specification]
#[verifier::external_body]
pub struct ExIoError(std::io::Error);

/// Renders an I/O error through its `Display` implementation
/// (`std::io::Error as Display`).
///
/// Nothing is claimed of the text: for operating-system errors it is
/// produced by the platform's error-description facility.
#[verifier::external_body]
fn io_error_text(err: &std::io::Error) -> String {
    format!("{}", err)
}

/// Error type for DRM canvas operations.
#[derive(Debug)]
pub enum DrmCanvasError {
    DeviceRequest(String),
    Init(String),
    DrmError(String),
    ModesetError(String),
    PageFlipError(String),
    IoError(std::io::Error),
    NoConnectedDisplay,
}

/// The fixed text that precedes the detail of each message-carrying variant.
pub open spec fn message_prefix(err: DrmCanvasError) -> Seq<char> {
    match err {
        DrmCanvasError::DeviceRequest(_) => "Failed to request device: "@,
        DrmCanvasError::Init(_) => "Initialization error: "@,
        DrmCanvasError::DrmError(_) => "DRM error: "@,
        DrmCanvasError::ModesetError(_) => "Display configuration error: "@,
        DrmCanvasError::PageFlipError(_) => "Page flip error: "@,
        DrmCanvasError::IoError(_) => "I/O error: "@,
        DrmCanvasError::NoConnectedDisplay => "No connected display found"@,
    }
}

/// The description of an I/O error whose own text is `detail`.
pub fn io_error_message(detail: &str) -> (text: String)
    ensures
        text@ == "I/O error: "@ + detail@,
{
    String::from_str("I/O error: ").concat(detail)
}

impl DrmCanvasError {
    /// The human-readable description of the error (what `Display` prints).
    pub fn message(&self) -> (text: String)
        ensures
            match self {
                DrmCanvasError::DeviceRequest(m) => text@ == message_prefix(*self) + m@,
                DrmCanvasError::Init(m) => text@ == message_prefix(*self) + m@,
                DrmCanvasError::DrmError(m) => text@ == message_prefix(*self) + m@,
                DrmCanvasError::ModesetError(m) => text@ == message_prefix(*self) + m@,
                DrmCanvasError::PageFlipError(m) => text@ == message_prefix(*self) + m@,
                DrmCanvasError::IoError(_) => exists|detail: Seq<char>|
                    text@ == message_prefix(*self) + detail,
                DrmCanvasError::NoConnectedDisplay => text@ == message_prefix(*self),
            },
    {
        match self {
            DrmCanvasError::DeviceRequest(m) => {
                String::from_str("Failed to request device: ").concat(m.as_str())
            },
            DrmCanvasError::Init(m) => String::from_str("Initialization error: ").concat(m.as_str()),
            DrmCanvasError::DrmError(m) => String::from_str("DRM error: ").concat(m.as_str()),
            DrmCanvasError::ModesetError(m) => {
                String::from_str("Display configuration error: ").concat(m.as_str())
            },
            DrmCanvasError::PageFlipError(m) => {
                String::from_str("Page flip error: ").concat(m.as_str())
            },
            DrmCanvasError::IoError(e) => {
                let detail = io_error_text(e);
                let text = io_error_message(detail.as_str());
                assert(text@ == message_prefix(*self) + detail@);
                text
            },
            DrmCanvasError::NoConnectedDisplay => String::from_str("No connected display found"),
        }
    }
}

impl From<std::io::Error> for DrmCanvasError {
    fn from(err: std::io::Error) -> (r: Self) {
        DrmCanvasError::IoError(err)
    }
}

impl vstd::std_specs::convert::FromSpecImpl<std::io::Error> for DrmCanvasError {
    open spec fn obeys_from_spec() -> bool {
        true
    }

    open spec fn from_spec(err: std::io::Error) -> Self {
        DrmCanvasError::IoError(err)
    }
}

/// Connection state reported for a connector.
#[derive(Clone, Copy, Debug, PartialEq, Eq, Structural)]
pub enum ConnectorState {
    Connected,
    Disconnected,
    Unknown,
}

/// What the search for a connected connector does after querying one
/// connector.
#[derive(Debug)]
pub enum ConnectorProbe {
    /// This connector drives a display: the search ends with it.
    Select,
    /// This connector drives no display: the search goes on to the next.
    Skip,
    /// The query failed, or no connector is left: the search ends with
    /// this error.
    Fail(DrmCanvasError),
}

/// The text that precedes the detail of a failed connector query.
pub open spec fn connector_query_failure_prefix() -> Seq<char> {
    "Failed to get connector info: "@
}

/// The error that ends the connector search when querying a connector
/// failed with an error whose own text is `detail`.
pub fn connector_query_failure(detail: &str) -> (err: DrmCanvasError)
    ensures
        err matches DrmCanvasError::DrmError(m) && m@ == connector_query_failure_prefix() + detail@,
{
    DrmCanvasError::DrmError(String::from_str("Failed to get connector info: ").concat(detail))
}

/// Decides the next step of the search for a connected connector, given
/// the reply to the query of the next connector, or `None` when every
/// connector has been queried: a connected connector is selected, any other
/// is skipped, a failed query ends the search with a DRM error, and running
/// out of connectors ends it with [`DrmCanvasError::NoConnectedDisplay`].
pub fn probe_connector(reply: Option<Result<ConnectorState, std::io::Error>>) -> (probe: ConnectorProbe)
    ensures
        match reply {
            Some(Ok(ConnectorState::Connected)) => probe is Select,
            Some(Ok(_)) => probe is Skip,
            Some(Err(_)) => probe matches ConnectorProbe::Fail(DrmCanvasError::DrmError(m))
                && exists|detail: Seq<char>| m@ == connector_query_failure_prefix() + detail,
            None => probe matches ConnectorProbe::Fail(DrmCanvasError::NoConnectedDisplay),
        },
{
    match reply {
        Some(Ok(ConnectorState::Connected)) => ConnectorProbe::Select,
        Some(Ok(_)) => ConnectorProbe::Skip,
        Some(Err(e)) => {
            let detail = io_error_text(&e);
            let err = connector_query_failure(detail.as_str());
            assert(err matches DrmCanvasError::DrmError(m) && m@ == connector_query_failure_prefix() + detail@);
            ConnectorProbe::Fail(err)
        },
        None => ConnectorProbe::Fail(DrmCanvasError::NoConnectedDisplay),
    }
}

/// Finds an available CRTC: the first one the device lists.
pub fn find_available_crtc<H: Copy>(crtcs: &[H]) -> (r: Result<H, DrmCanvasError>)
    ensures
        crtcs@.len() > 0 ==> r == Ok::<H, DrmCanvasError>(crtcs@[0]),
        crtcs@.len() == 0 ==> (r matches Err(DrmCanvasError::ModesetError(m)) && m@
            == "No CRTCs available"@),
{
    if crtcs.len() == 0 {
        Err(DrmCanvasError::ModesetError(String::from_str("No CRTCs available")))
    } else {
        Ok(crtcs[0])
    }
}

/// Selects the best display mode: the first one the connector reports,
/// which is its preferred (native) mode.
pub fn select_best_mode<M: Copy>(modes: &[M]) -> (r: Result<M, DrmCanvasError>)
    ensures
        modes@.len() > 0 ==> r == Ok::<M, DrmCanvasError>(modes@[0]),
        modes@.len() == 0 ==> (r matches Err(DrmCanvasError::ModesetError(m)) && m@
            == "No display modes available"@),
{
    if modes.len() == 0 {
        Err(DrmCanvasError::ModesetError(String::from_str("No display modes available")))
    } else {
        Ok(modes[0])
    }
}

/// The error for a device whose resource handles could not be read,
/// `detail` being the text of the I/O error.
pub fn resource_handles_failure(detail: &str) -> (err: DrmCanvasError)
    ensures
        err matches DrmCanvasError::DrmError(m) && m@ == "Failed to get resource handles: "@ + detail@,
{
    DrmCanvasError::DrmError(String::from_str("Failed to get resource handles: ").concat(detail))
}

/// Where a canvas sends its frames.
#[derive(Clone, Copy, Debug, PartialEq, Eq, Structural)]
pub enum RenderMode {
    /// Offscreen rendering only (screenshots, recording).
    Offscreen,
    /// Display output through DRM/KMS.
    Display,
}

/// What happened since presentation started.
pub enum PresentEvent {
    /// Presentation of a frame starts.
    Begin,
    /// The rendered frame was read into a CPU buffer, or reading it failed
    /// with the given text.
    FrameRead(Result<(), String>),
    /// The frame was handed to the display, or handing it over failed with
    /// the given text.
    FrameSent(Result<(), String>),
}

/// What presentation does next.
#[derive(Debug)]
pub enum PresentAction {
    /// Read the rendered frame into a CPU buffer.
    ReadFrame,
    /// Hand the read frame to the display.
    SendFrame,
    /// Presentation is over, with this outcome.
    Finish(Result<(), DrmCanvasError>),
}

/// The text that precedes the detail of a failed frame hand-over.
pub open spec fn frame_send_failure_prefix() -> Seq<char> {
    "Failed to send frame to display thread: "@
}

/// Decides the next step of presenting a frame. Offscreen presentation is a
/// no-op; display presentation reads the frame, then sends it, and fails
/// with `Init` if the read fails or with `PageFlipError` if the send fails.
pub fn present_step(mode: RenderMode, event: PresentEvent) -> (action: PresentAction)
    ensures
        match event {
            PresentEvent::Begin => match mode {
                RenderMode::Offscreen => action matches PresentAction::Finish(Ok(())),
                RenderMode::Display => action is ReadFrame,
            },
            PresentEvent::FrameRead(Ok(())) => action is SendFrame,
            PresentEvent::FrameRead(Err(e)) => action matches PresentAction::Finish(
                Err(DrmCanvasError::Init(m)),
            ) && m@ == e@,
            PresentEvent::FrameSent(Ok(())) => action matches PresentAction::Finish(Ok(())),
            PresentEvent::FrameSent(Err(e)) => action matches PresentAction::Finish(
                Err(DrmCanvasError::PageFlipError(m)),
            ) && m@ == frame_send_failure_prefix() + e@,
        },
{
    match event {
        PresentEvent::Begin => match mode {
            RenderMode::Offscreen => PresentAction::Finish(Ok(())),
            RenderMode::Display => PresentAction::ReadFrame,
        },
        PresentEvent::FrameRead(Ok(())) => PresentAction::SendFrame,
        PresentEvent::FrameRead(Err(e)) => PresentAction::Finish(Err(DrmCanvasError::Init(e))),
        PresentEvent::FrameSent(Ok(())) => PresentAction::Finish(Ok(())),
        PresentEvent::FrameSent(Err(e)) => {
            let text = String::from_str("Failed to send frame to display thread: ").concat(e.as_str());
            PresentAction::Finish(Err(DrmCanvasError::PageFlipError(text)))
        },
    }
}

} // verus!
