//! The metadata record and its mathematical model.

use vstd::prelude::*;

verus! {

/// What is known of one capture session, as mathematics sees it.
pub struct Record {
    /// Frames per second.
    pub frame_rate: nat,
    /// Tag of the media container.
    pub format: Seq<char>,
    /// Height of a frame, in pixels.
    pub resolution_height: nat,
    /// Width of a frame, in pixels.
    pub resolution_width: nat,
    /// Start of the capture, in milliseconds since the Unix epoch.
    pub capture_start: nat,
    /// Name of the logging component.
    pub logger_identifier: Seq<char>,
    /// Name of the capturing device.
    pub device_identifier: Seq<char>,
    /// Time bucket of the capture, in milliseconds since the Unix epoch.
    pub tick: nat,
}

/// The metadata of one capture session. The fields carry the names that the
/// JSON document gives them.
#[derive(Debug, PartialEq, Eq)]
pub struct VideoMeta {
    pub fps: u32,
    pub format: String,
    pub res_y: u32,
    pub res_x: u32,
    pub capture_start: u64,
    pub logger_id: String,
    pub device_id: String,
    pub tick: u64,
}

impl View for VideoMeta {
    type V = Record;

    open spec fn view(&self) -> Record {
        Record {
            frame_rate: self.fps as nat,
            format: self.format@,
            resolution_height: self.res_y as nat,
            resolution_width: self.res_x as nat,
            capture_start: self.capture_start as nat,
            logger_identifier: self.logger_id@,
            device_identifier: self.device_id@,
            tick: self.tick as nat,
        }
    }
}

impl Clone for VideoMeta {
    fn clone(&self) -> (copy: Self)
        ensures
            copy == *self,
    {
        VideoMeta {
            fps: self.fps,
            format: self.format.clone(),
            res_y: self.res_y,
            res_x: self.res_x,
            capture_start: self.capture_start,
            logger_id: self.logger_id.clone(),
            device_id: self.device_id.clone(),
            tick: self.tick,
        }
    }
}

/// Why a document, a file or a directory gave no record.
#[derive(Debug, Clone, Copy, PartialEq, Eq, Structural)]
pub enum MetaError {
    /// The directory is missing or cannot be listed.
    DirectoryUnavailable,
    /// The file cannot be opened, read or written.
    FileUnavailable,
    /// The text is not JSON.
    MalformedDocument,
    /// The text is JSON, but a field is missing or of the wrong kind.
    SchemaMismatch,
}

} // verus!
