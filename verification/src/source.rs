//! Audio sources and the station configuration.

use std::sync::Arc;
use vstd::prelude::*;

verus! {

/// The mathematical value of a [`Source`]: the raw bytes and the format
/// extension.
pub struct SourceView {
    pub data: Seq<u8>,
    pub ext: Seq<char>,
}

/// Resolved audio: a read-only byte buffer behind a shared handle, and the
/// format extension of the bytes. Every stream of one batch reads the same
/// allocation.
#[derive(Debug, Clone, PartialEq, Eq)]
pub struct Source {
    pub data: Arc<Vec<u8>>,
    pub ext: String,
}

impl View for Source {
    type V = SourceView;

    open spec fn view(&self) -> SourceView {
        SourceView { data: self.data@, ext: self.ext@ }
    }
}

/// `Arc::clone` of std: the result is a second handle to the allocation that
/// `data` points to, so both read the same bytes.
#[verifier::external_body]
fn share_bytes(data: &Arc<Vec<u8>>) -> (shared: Arc<Vec<u8>>)
    ensures
        shared == *data,
{
    Arc::clone(data)
}

impl Source {
    /// Pairs a byte buffer with its format extension.
    pub fn new(data: Arc<Vec<u8>>, ext: String) -> (source: Source)
        ensures
            source.data == data,
            source.ext == ext,
            source@ == (SourceView { data: data@, ext: ext@ }),
    {
        Source { data, ext }
    }

    /// Another handle to the same audio; the bytes are not copied.
    pub fn share(&self) -> (shared: Source)
        ensures
            shared == *self,
            shared@ == self@,
    {
        Source { data: share_bytes(&self.data), ext: self.ext.clone() }
    }
}

/// The mathematical value of a [`Config`].
pub struct ConfigView {
    pub streams: nat,
    pub fallback: SourceView,
    pub random: Seq<char>,
}

/// What the queue reads of the station configuration.
#[derive(Debug, Clone, PartialEq, Eq)]
pub struct Config {
    /// The number of stream profiles. A profile is known to the queue by its
    /// position in the station's list, from 0.
    pub streams: usize,
    /// The audio that is played when neither the queue nor the remote service
    /// yields any.
    pub fallback: Source,
    /// The endpoint of the remote service that proposes a random track.
    pub random: String,
}

impl View for Config {
    type V = ConfigView;

    open spec fn view(&self) -> ConfigView {
        ConfigView { streams: self.streams as nat, fallback: self.fallback@, random: self.random@ }
    }
}

impl Config {
    /// Makes the configuration of a station with `streams` stream profiles.
    pub fn new(streams: usize, fallback: Source, random: String) -> (config: Config)
        ensures
            config.streams == streams,
            config.fallback == fallback,
            config.random == random,
            config@ == (ConfigView {
                streams: streams as nat,
                fallback: fallback@,
                random: random@,
            }),
    {
        Config { streams, fallback, random }
    }
}

} // verus!
