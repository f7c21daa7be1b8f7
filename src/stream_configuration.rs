//! The negotiated parameters of one capture stream.
use vstd::prelude::*;

use crate::geometry::Size;
use crate::pixel_format::PixelFormat;

verus! {

/// The purpose a stream is requested for.
#[derive(Clone, Copy, Debug, PartialEq, Eq, Structural)]
pub enum StreamRole {
    Raw,
    StillCapture,
    VideoRecording,
    Viewfinder,
}

/// One data path of a configured camera: the camera's device index and the
/// stream's position in the configuration that produced it.
#[derive(Clone, Copy, Debug, PartialEq, Eq, Structural)]
pub struct Stream {
    pub camera: usize,
    pub index: usize,
}

impl Stream {
    /// The device index of the camera the stream belongs to.
    pub fn camera(&self) -> (r: usize)
        ensures
            r == self.camera,
    {
        self.camera
    }

    /// The stream's position in its configuration.
    pub fn index(&self) -> (r: usize)
        ensures
            r == self.index,
    {
        self.index
    }
}

/// The parameters of one stream, as values.
pub struct StreamConfigurationView {
    pub pixel_format: PixelFormat,
    pub size: Size,
    pub stride: u32,
    pub frame_size: u32,
    pub buffer_count: u32,
    pub stream: Option<Stream>,
}

/// The parameters of one stream. The stream handle is absent until the camera
/// is configured with the configuration that holds this entry.
#[derive(Debug)]
pub struct StreamConfigurationOpaque {
    pixel_format: PixelFormat,
    size: Size,
    stride: u32,
    frame_size: u32,
    buffer_count: u32,
    stream: Option<Stream>,
}

impl View for StreamConfigurationOpaque {
    type V = StreamConfigurationView;

    closed spec fn view(&self) -> StreamConfigurationView {
        StreamConfigurationView {
            pixel_format: self.pixel_format,
            size: self.size,
            stride: self.stride,
            frame_size: self.frame_size,
            buffer_count: self.buffer_count,
            stream: self.stream,
        }
    }
}

impl StreamConfigurationOpaque {
    /// A stream configuration that no configured camera has produced a stream
    /// for yet.
    pub fn new(pixel_format: PixelFormat, size: Size, stride: u32, frame_size: u32, buffer_count: u32) -> (r: StreamConfigurationOpaque)
        ensures
            r@ == (StreamConfigurationView { pixel_format, size, stride, frame_size, buffer_count, stream: None }),
    {
        StreamConfigurationOpaque { pixel_format, size, stride, frame_size, buffer_count, stream: None }
    }

    pub fn pixel_format(&self) -> (r: PixelFormat)
        ensures
            r == self@.pixel_format,
    {
        self.pixel_format
    }

    pub fn set_pixel_format(&mut self, value: PixelFormat)
        ensures
            final(self)@ == (StreamConfigurationView { pixel_format: value, ..old(self)@ }),
    {
        self.pixel_format = value;
    }

    pub fn size(&self) -> (r: Size)
        ensures
            r == self@.size,
    {
        self.size
    }

    pub fn set_size(&mut self, value: Size)
        ensures
            final(self)@ == (StreamConfigurationView { size: value, ..old(self)@ }),
    {
        self.size = value;
    }

    pub fn stride(&self) -> (r: u32)
        ensures
            r == self@.stride,
    {
        self.stride
    }

    pub fn set_stride(&mut self, value: u32)
        ensures
            final(self)@ == (StreamConfigurationView { stride: value, ..old(self)@ }),
    {
        self.stride = value;
    }

    pub fn frame_size(&self) -> (r: u32)
        ensures
            r == self@.frame_size,
    {
        self.frame_size
    }

    pub fn set_frame_size(&mut self, value: u32)
        ensures
            final(self)@ == (StreamConfigurationView { frame_size: value, ..old(self)@ }),
    {
        self.frame_size = value;
    }

    pub fn buffer_count(&self) -> (r: u32)
        ensures
            r == self@.buffer_count,
    {
        self.buffer_count
    }

    pub fn set_buffer_count(&mut self, value: u32)
        ensures
            final(self)@ == (StreamConfigurationView { buffer_count: value, ..old(self)@ }),
    {
        self.buffer_count = value;
    }

    /// The stream produced for this entry, once its camera is configured.
    pub fn stream(&self) -> (r: Option<Stream>)
        ensures
            r == self@.stream,
    {
        self.stream
    }

    /// The same parameters, with no stream bound.
    pub(crate) fn unbound(&self) -> (r: StreamConfigurationOpaque)
        ensures
            r@ == (StreamConfigurationView { stream: None, ..self@ }),
    {
        StreamConfigurationOpaque {
            pixel_format: self.pixel_format,
            size: self.size,
            stride: self.stride,
            frame_size: self.frame_size,
            buffer_count: self.buffer_count,
            stream: None,
        }
    }

    pub(crate) fn bind(&mut self, stream: Stream)
        ensures
            final(self)@ == (StreamConfigurationView { stream: Some(stream), ..old(self)@ }),
    {
        self.stream = Some(stream);
    }
}

} // verus!
