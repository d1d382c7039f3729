use vstd::prelude::*;

verus! {

/// Where a track's audio comes from.
#[derive(Clone, Copy, Debug, PartialEq, Eq, Structural)]
pub enum InputType {
    /// A page of a media site, resolved by a downloader.
    YouTube,
    /// A direct HTTP locator.
    HTTP,
    /// A local file.
    File,
}

/// A source descriptor: the kind of source and its locator.
pub struct JsInput {
    pub input_type: InputType,
    pub identifier: String,
}

impl JsInput {
    /// A media-site page.
    pub fn youtube(identifier: String) -> (r: JsInput)
        ensures
            r.input_type == InputType::YouTube,
            r.identifier == identifier,
    {
        JsInput { input_type: InputType::YouTube, identifier }
    }

    /// A direct HTTP locator.
    pub fn http(url: String) -> (r: JsInput)
        ensures
            r.input_type == InputType::HTTP,
            r.identifier == url,
    {
        JsInput { input_type: InputType::HTTP, identifier: url }
    }

    /// A local file.
    pub fn file(path: String) -> (r: JsInput)
        ensures
            r.input_type == InputType::File,
            r.identifier == path,
    {
        JsInput { input_type: InputType::File, identifier: path }
    }

    /// Whether resolving this source goes through an HTTP client.
    pub fn needs_http_client(&self) -> (r: bool)
        ensures
            r == (self.input_type != InputType::File),
    {
        match self.input_type {
            InputType::File => false,
            _ => true,
        }
    }
}

/// Metadata of a source, as far as it is known. Times are in milliseconds.
pub struct JsAuxMetadata {
    /// The track name.
    pub track: Option<String>,
    /// The main artist.
    pub artist: Option<String>,
    /// The album name.
    pub album: Option<String>,
    /// The date of creation.
    pub date: Option<String>,
    /// The number of audio channels.
    pub channels: Option<u8>,
    /// The uploading channel on a media site.
    pub channel: Option<String>,
    /// When the first true sample plays, an artefact of coder delay.
    pub start_time: Option<u32>,
    /// The reported duration.
    pub duration: Option<u32>,
    /// The sample rate.
    pub sample_rate: Option<u32>,
    /// The source locator.
    pub source_url: Option<String>,
    /// The title on a media site.
    pub title: Option<String>,
    /// The thumbnail locator.
    pub thumbnail: Option<String>,
}

} // verus!
