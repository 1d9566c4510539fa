//! The preview pane's model: what it shows of the path last loaded, and how
//! its messages change that. (Drawing, the image texture and smooth
//! scrolling belong to the drawing side.)

use vstd::prelude::*;
use crate::services::fs::{ImagePreviewData, PreviewData};
use crate::text::copy_string;

verus! {

#[derive(Debug, Clone)]
pub enum PreviewMessage {
    SetPath { path: String },
    Clear,
    PreviewLoaded { path: String, data: PreviewData },
}

/// What the preview pane shows: the path, its details and content, and the
/// first line of the text preview in view.
#[derive(Debug, Clone)]
pub struct PreviewState {
    pub path: Option<String>,
    pub path_display: String,
    pub name: String,
    pub is_dir: bool,
    pub size: String,
    pub permissions: String,
    pub modified: String,
    pub file_type: String,
    pub target: String,
    pub content_preview: Option<String>,
    pub image: Option<ImagePreviewData>,
    pub scroll_line: u32,
}

/// The pane showing nothing.
pub open spec fn empty_preview(s: PreviewState) -> bool {
    &&& s.path is None
    &&& s.path_display@.len() == 0
    &&& s.name@.len() == 0
    &&& !s.is_dir
    &&& s.size@.len() == 0
    &&& s.permissions@.len() == 0
    &&& s.modified@.len() == 0
    &&& s.file_type@.len() == 0
    &&& s.target@.len() == 0
    &&& s.content_preview is None
    &&& s.image is None
    &&& s.scroll_line == 0
}

/// The pane after the preview of `path` loaded: the path and everything
/// the loaded data says, scrolled back to the first line.
pub open spec fn loaded_preview(path: String, data: PreviewData) -> PreviewState {
    PreviewState {
        path: Some(path),
        path_display: path,
        name: data.name,
        is_dir: data.is_dir,
        size: data.size,
        permissions: data.permissions,
        modified: data.modified,
        file_type: data.file_type,
        target: data.target,
        content_preview: data.content_preview,
        image: data.image_preview,
        scroll_line: 0,
    }
}

impl PreviewState {
    /// The pane showing nothing.
    pub fn new() -> (r: PreviewState)
        ensures
            empty_preview(r),
    {
        PreviewState {
            path: None,
            path_display: String::new(),
            name: String::new(),
            is_dir: false,
            size: String::new(),
            permissions: String::new(),
            modified: String::new(),
            file_type: String::new(),
            target: String::new(),
            content_preview: None,
            image: None,
            scroll_line: 0,
        }
    }
}

/// Apply a message to the pane: `Clear` empties it, a loaded preview
/// replaces what it shows, and `SetPath` (previews are loaded by the
/// filesystem service) changes nothing.
pub fn update(state: &mut PreviewState, msg: PreviewMessage)
    ensures
        match msg {
            PreviewMessage::Clear => empty_preview(*final(state)),
            PreviewMessage::SetPath { path } => *final(state) == *old(state),
            PreviewMessage::PreviewLoaded { path, data } => *final(state) == loaded_preview(path, data),
        },
{
    match msg {
        PreviewMessage::Clear => {
            *state = PreviewState::new();
        },
        PreviewMessage::SetPath { path: _ } => {},
        PreviewMessage::PreviewLoaded { path, data } => {
            let shown = copy_string(&path);
            *state = PreviewState {
                path: Some(path),
                path_display: shown,
                name: data.name,
                is_dir: data.is_dir,
                size: data.size,
                permissions: data.permissions,
                modified: data.modified,
                file_type: data.file_type,
                target: data.target,
                content_preview: data.content_preview,
                image: data.image_preview,
                scroll_line: 0,
            };
        },
    }
}

} // verus!
