use vstd::prelude::*;

use crate::error::QuietWatchError;
use crate::types::StreamConfig;

verus! {

/// A live capture → process → playback session opened by a backend.
///
/// A session remembers the stream it was opened with and whether it is
/// running. Starting and stopping never change the stream; a successful
/// start leaves it running and a successful stop leaves it stopped.
pub trait AudioSession: Send {
    /// The stream this session was opened with.
    spec fn opened_stream(&self) -> StreamConfig;

    /// Whether audio is flowing.
    spec fn running(&self) -> bool;

    fn stream_config(&self) -> (stream: StreamConfig)
        ensures
            stream == self.opened_stream(),
    ;

    fn start(&mut self) -> (result: Result<(), QuietWatchError>)
        ensures
            final(self).opened_stream() == old(self).opened_stream(),
            result is Ok ==> final(self).running(),
    ;

    fn stop(&mut self) -> (result: Result<(), QuietWatchError>)
        ensures
            final(self).opened_stream() == old(self).opened_stream(),
            result is Ok ==> !final(self).running(),
    ;

    fn is_running(&self) -> (running: bool)
        ensures
            running == self.running(),
    ;
}

} // verus!
