//! Embed-link resolvers, one module per provider family.
pub mod vidcloud;

use vstd::prelude::*;
use crate::flixhq::FlixHQError;
use crate::providers::vidcloud::{
    envelope_payload, envelope_tracks, PayloadModel, SourceModel, TrackModel,
};

verus! {

/// A provider family's resolver: it reads the source envelope of an embed
/// link and hands back an encrypted payload, if any, for decryption.
pub trait VideoExtractor {
    /// The sources resolved so far, as (file, media kind).
    spec fn resolved_sources(&self) -> Seq<SourceModel>;

    /// The subtitle tracks resolved so far, as (file, label, kind, default).
    spec fn resolved_tracks(&self) -> Seq<TrackModel>;

    /// Reads a source envelope. A `sources` string is encrypted: it is
    /// returned for decryption and no source is kept yet. A `sources` array
    /// is the list itself: it is kept and `None` returned. The tracks are read
    /// the same way in both cases. Any other envelope is `Decode`, and then
    /// nothing changes.
    fn extract(&mut self, envelope: &str) -> (r: Result<Option<String>, FlixHQError>)
        ensures
            r is Ok <==> (envelope_payload(envelope@) is Some && envelope_tracks(envelope@) is Some),
            r matches Err(e) ==> {
                &&& e == FlixHQError::Decode
                &&& final(self).resolved_sources() == old(self).resolved_sources()
                &&& final(self).resolved_tracks() == old(self).resolved_tracks()
            },
            r is Ok ==> final(self).resolved_tracks() == envelope_tracks(envelope@)->Some_0,
            r matches Ok(c) ==> match envelope_payload(envelope@)->Some_0 {
                PayloadModel::Encrypted(d) => c matches Some(x) && x@ == d
                    && final(self).resolved_sources().len() == 0,
                PayloadModel::Plain(l) => c is None && final(self).resolved_sources() == l,
            },
    ;
}

} // verus!
