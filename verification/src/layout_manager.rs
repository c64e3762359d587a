//! Presentation layouts for the AR display, and the manager that stamps each
//! display request with its session's addressing.

use vstd::prelude::*;

use crate::clock::now_rfc3339;

verus! {

/// The presentation layouts the display understands.
#[derive(Debug, Clone, Copy, PartialEq, Eq, Structural)]
pub enum LayoutType {
    TextWall,
    DoubleTextWall,
    ReferenceCard,
    DashboardCard,
    BitmapView,
}

/// Which surface a display request addresses.
#[derive(Debug, Clone, Copy, PartialEq, Eq, Structural)]
pub enum ViewType {
    Main,
    Dashboard,
}

/// One concrete layout with its content.
#[derive(Debug, Clone)]
pub enum Layout {
    TextWall { text: String },
    DoubleTextWall { top_text: String, bottom_text: String },
    ReferenceCard { title: String, text: String },
    DashboardCard { left_text: String, right_text: String },
    BitmapView { data: String },
}

/// One outbound display request.
#[derive(Debug, Clone)]
pub struct DisplayRequest {
    /// The protocol discriminator; always `display_event`.
    pub message_type: String,
    pub package_name: String,
    pub session_id: String,
    pub view: ViewType,
    pub layout: Layout,
    pub duration_ms: Option<u64>,
    pub timestamp: String,
}

/// Builds display requests addressed to one session.
#[derive(Debug, Clone)]
pub struct LayoutManager {
    pub package_name: String,
    pub session_id: String,
}

impl LayoutManager {
    /// A manager stamping requests for the given package and session.
    pub fn new(package_name: String, session_id: String) -> (r: LayoutManager)
        ensures
            r.package_name == package_name,
            r.session_id == session_id,
    {
        LayoutManager { package_name, session_id }
    }

    /// A display request showing one wall of text. The timestamp is the
    /// moment of the call; everything else is pinned below.
    pub fn show_text_wall(
        &self,
        text: String,
        view: Option<ViewType>,
        duration_ms: Option<u64>,
    ) -> (r: DisplayRequest)
        ensures
            r.message_type@ == "display_event"@,
            r.package_name == self.package_name,
            r.session_id == self.session_id,
            r.view == view.unwrap_or(ViewType::Main),
            r.layout == (Layout::TextWall { text }),
            r.duration_ms == duration_ms,
    {
        DisplayRequest {
            message_type: String::from_str("display_event"),
            package_name: self.package_name.clone(),
            session_id: self.session_id.clone(),
            view: match view {
                Some(v) => v,
                None => ViewType::Main,
            },
            layout: Layout::TextWall { text },
            duration_ms,
            timestamp: now_rfc3339(),
        }
    }

    /// A display request showing a top and a bottom text.
    pub fn show_double_text_wall(
        &self,
        top_text: String,
        bottom_text: String,
        view: Option<ViewType>,
        duration_ms: Option<u64>,
    ) -> (r: DisplayRequest)
        ensures
            r.message_type@ == "display_event"@,
            r.package_name == self.package_name,
            r.session_id == self.session_id,
            r.view == view.unwrap_or(ViewType::Main),
            r.layout == (Layout::DoubleTextWall { top_text, bottom_text }),
            r.duration_ms == duration_ms,
    {
        DisplayRequest {
            message_type: String::from_str("display_event"),
            package_name: self.package_name.clone(),
            session_id: self.session_id.clone(),
            view: match view {
                Some(v) => v,
                None => ViewType::Main,
            },
            layout: Layout::DoubleTextWall { top_text, bottom_text },
            duration_ms,
            timestamp: now_rfc3339(),
        }
    }
}

} // verus!
