//! The cloud-embed family (Vidcloud and Upcloud).
use vstd::prelude::*;
use crate::flixhq::FlixHQError;
use crate::providers::VideoExtractor;
use crate::json::{field, find_field, json_shape, read_json, JsonNode, JsonShape};

verus! {

/// One playable stream.
#[derive(Debug)]
pub struct Source {
    pub file: String,
    /// The stream's media kind (`"hls"`, ...); empty when not given.
    pub kind: String,
}

/// One subtitle track.
#[derive(Debug)]
pub struct Track {
    pub file: String,
    pub label: String,
    pub kind: String,
    pub default: Option<bool>,
}

/// What one embed link resolved to.
#[derive(Debug)]
pub struct VidCloud {
    pub sources: Vec<Source>,
    pub tracks: Vec<Track>,
}

/// A source as (file, media kind).
pub type SourceModel = (Seq<char>, Seq<char>);

/// A track as (file, label, kind, default).
pub type TrackModel = (Seq<char>, Seq<char>, Seq<char>, Option<bool>);

/// The `sources` field of an embed envelope: either one encrypted string or
/// the list itself.
#[derive(Debug)]
pub enum SourcePayload {
    Encrypted(String),
    Plain(Vec<Source>),
}

pub enum PayloadModel {
    Encrypted(Seq<char>),
    Plain(Seq<SourceModel>),
}

/// The string that a JSON text holds, if it is a JSON string.
pub open spec fn string_in(text: Option<Seq<char>>) -> Option<Seq<char>> {
    match text {
        Some(t) => match json_shape(t) {
            Some(JsonShape::Str(s)) => Some(s),
            _ => None,
        },
        None => None,
    }
}

/// The boolean that a JSON text holds, if it is a JSON boolean.
pub open spec fn bool_in(text: Option<Seq<char>>) -> Option<bool> {
    match text {
        Some(t) => match json_shape(t) {
            Some(JsonShape::Bool(b)) => Some(b),
            _ => None,
        },
        None => None,
    }
}

pub open spec fn or_empty(s: Option<Seq<char>>) -> Seq<char> {
    match s {
        Some(v) => v,
        None => Seq::empty(),
    }
}

/// A source object: `file` must be a string; `type` is kept when it is one.
pub open spec fn source_model(item: Seq<char>) -> Option<SourceModel> {
    match json_shape(item) {
        Some(JsonShape::Object(es)) => match string_in(field(es, "file"@)) {
            Some(f) => Some((f, or_empty(string_in(field(es, "type"@))))),
            None => None,
        },
        _ => None,
    }
}

/// A track object: `file` must be a string; `label` and `kind` are kept when
/// they are strings, `default` when it is a boolean.
pub open spec fn track_model(item: Seq<char>) -> Option<TrackModel> {
    match json_shape(item) {
        Some(JsonShape::Object(es)) => match string_in(field(es, "file"@)) {
            Some(f) => Some(
                (
                    f,
                    or_empty(string_in(field(es, "label"@))),
                    or_empty(string_in(field(es, "kind"@))),
                    bool_in(field(es, "default"@)),
                ),
            ),
            None => None,
        },
        _ => None,
    }
}

/// The sources of a JSON array's items, when every item is a source.
pub open spec fn source_models(items: Seq<Seq<char>>) -> Option<Seq<SourceModel>> {
    if forall|i: int| 0 <= i < items.len() ==> (#[trigger] source_model(items[i])) is Some {
        Some(Seq::new(items.len(), |i: int| source_model(items[i])->Some_0))
    } else {
        None
    }
}

/// The tracks of a JSON array's items, when every item is a track.
pub open spec fn track_models(items: Seq<Seq<char>>) -> Option<Seq<TrackModel>> {
    if forall|i: int| 0 <= i < items.len() ==> (#[trigger] track_model(items[i])) is Some {
        Some(Seq::new(items.len(), |i: int| track_model(items[i])->Some_0))
    } else {
        None
    }
}

/// The sources that a JSON text lists: it must be an array of sources.
pub open spec fn listed_sources(text: Seq<char>) -> Option<Seq<SourceModel>> {
    match json_shape(text) {
        Some(JsonShape::Array(items)) => source_models(items),
        _ => None,
    }
}

/// The JSON text of a field of an envelope object.
pub open spec fn envelope_field(envelope: Seq<char>, key: Seq<char>) -> Option<Seq<char>> {
    match json_shape(envelope) {
        Some(JsonShape::Object(es)) => field(es, key),
        _ => None,
    }
}

/// The `sources` field of an envelope: a string is encrypted, an array is
/// the list itself; anything else does not decode.
pub open spec fn envelope_payload(envelope: Seq<char>) -> Option<PayloadModel> {
    match envelope_field(envelope, "sources"@) {
        Some(t) => match json_shape(t) {
            Some(JsonShape::Str(c)) => Some(PayloadModel::Encrypted(c)),
            Some(JsonShape::Array(items)) => match source_models(items) {
                Some(list) => Some(PayloadModel::Plain(list)),
                None => None,
            },
            _ => None,
        },
        None => None,
    }
}

/// The `tracks` field of an envelope: absent or null is no track, an array
/// lists them; anything else does not decode.
pub open spec fn envelope_tracks(envelope: Seq<char>) -> Option<Seq<TrackModel>> {
    match json_shape(envelope) {
        Some(JsonShape::Object(es)) => match field(es, "tracks"@) {
            None => Some(Seq::empty()),
            Some(t) => match json_shape(t) {
                Some(JsonShape::Null) => Some(Seq::empty()),
                Some(JsonShape::Array(items)) => track_models(items),
                _ => None,
            },
        },
        _ => None,
    }
}

/// The `link` string of a server's JSON envelope.
pub open spec fn envelope_link(text: Seq<char>) -> Option<Seq<char>> {
    string_in(envelope_field(text, "link"@))
}

pub open spec fn sources_are(v: Seq<Source>, m: Seq<SourceModel>) -> bool {
    &&& v.len() == m.len()
    &&& forall|i: int| 0 <= i < m.len() ==> (#[trigger] v[i]).file@ == m[i].0 && v[i].kind@ == m[i].1
}

pub open spec fn tracks_are(v: Seq<Track>, m: Seq<TrackModel>) -> bool {
    &&& v.len() == m.len()
    &&& forall|i: int|
        0 <= i < m.len() ==> {
            &&& (#[trigger] v[i]).file@ == m[i].0
            &&& v[i].label@ == m[i].1
            &&& v[i].kind@ == m[i].2
            &&& v[i].default == m[i].3
        }
}

pub open spec fn payload_is(p: SourcePayload, m: PayloadModel) -> bool {
    match (p, m) {
        (SourcePayload::Encrypted(c), PayloadModel::Encrypted(d)) => c@ == d,
        (SourcePayload::Plain(v), PayloadModel::Plain(l)) => sources_are(v@, l),
        _ => false,
    }
}

/// The string held by a JSON text, if it is a JSON string.
fn string_of(text: &Option<String>) -> (r: Option<String>)
    ensures
        r.deep_view() == string_in(text.deep_view()),
{
    match text {
        Some(t) => match read_json(t.as_str()) {
            Some(JsonNode::Str(s)) => Some(s),
            _ => None,
        },
        None => None,
    }
}

fn string_or_empty(text: &Option<String>) -> (r: String)
    ensures
        r@ == or_empty(string_in(text.deep_view())),
{
    match string_of(text) {
        Some(s) => s,
        None => String::new(),
    }
}

fn source_of(item: &str) -> (r: Option<Source>)
    ensures
        source_model(item@) matches Some(m) ==> (r matches Some(s) && s.file@ == m.0 && s.kind@
            == m.1),
        source_model(item@) is None ==> r is None,
{
    match read_json(item) {
        Some(JsonNode::Object(es)) => {
            match string_of(&find_field(&es, "file")) {
                Some(file) => Some(Source { file, kind: string_or_empty(&find_field(&es, "type")) }),
                None => None,
            }
        },
        _ => None,
    }
}

fn track_of(item: &str) -> (r: Option<Track>)
    ensures
        track_model(item@) matches Some(m) ==> (r matches Some(t) && t.file@ == m.0 && t.label@
            == m.1 && t.kind@ == m.2 && t.default == m.3),
        track_model(item@) is None ==> r is None,
{
    match read_json(item) {
        Some(JsonNode::Object(es)) => {
            match string_of(&find_field(&es, "file")) {
                Some(file) => {
                    let default = match find_field(&es, "default") {
                        Some(t) => match read_json(t.as_str()) {
                            Some(JsonNode::Bool(b)) => Some(b),
                            _ => None,
                        },
                        None => None,
                    };
                    Some(
                        Track {
                            file,
                            label: string_or_empty(&find_field(&es, "label")),
                            kind: string_or_empty(&find_field(&es, "kind")),
                            default,
                        },
                    )
                },
                None => None,
            }
        },
        _ => None,
    }
}

/// The sources of the items of a JSON array, in order; `Decode` when an item
/// is not a source.
pub fn sources_from_items(items: &Vec<String>) -> (r: Result<Vec<Source>, FlixHQError>)
    ensures
        r is Ok <==> source_models(items.deep_view()) is Some,
        r matches Ok(v) ==> sources_are(v@, source_models(items.deep_view())->Some_0),
        r matches Err(e) ==> e == FlixHQError::Decode,
{
    let ghost its = items.deep_view();
    let mut out: Vec<Source> = Vec::new();
    let mut i: usize = 0;
    while i < items.len()
        invariant
            its == items.deep_view(),
            i <= items@.len(),
            forall|j: int| 0 <= j < i ==> (#[trigger] source_model(its[j])) is Some,
            sources_are(out@, Seq::new(i as nat, |j: int| source_model(its[j])->Some_0)),
        decreases items@.len() - i,
    {
        match source_of(items[i].as_str()) {
            Some(s) => {
                out.push(s);
            },
            None => {
                assert(its[i as int] == items@[i as int]@);
                assert(source_model(its[i as int]) is None);
                return Err(FlixHQError::Decode);
            },
        }
        i = i + 1;
    }
    Ok(out)
}

/// The tracks of the items of a JSON array, in order; `Decode` when an item
/// is not a track.
pub fn tracks_from_items(items: &Vec<String>) -> (r: Result<Vec<Track>, FlixHQError>)
    ensures
        r is Ok <==> track_models(items.deep_view()) is Some,
        r matches Ok(v) ==> tracks_are(v@, track_models(items.deep_view())->Some_0),
        r matches Err(e) ==> e == FlixHQError::Decode,
{
    let ghost its = items.deep_view();
    let mut out: Vec<Track> = Vec::new();
    let mut i: usize = 0;
    while i < items.len()
        invariant
            its == items.deep_view(),
            i <= items@.len(),
            forall|j: int| 0 <= j < i ==> (#[trigger] track_model(its[j])) is Some,
            tracks_are(out@, Seq::new(i as nat, |j: int| track_model(its[j])->Some_0)),
        decreases items@.len() - i,
    {
        match track_of(items[i].as_str()) {
            Some(t) => {
                out.push(t);
            },
            None => {
                assert(its[i as int] == items@[i as int]@);
                assert(track_model(its[i as int]) is None);
                return Err(FlixHQError::Decode);
            },
        }
        i = i + 1;
    }
    Ok(out)
}

/// The sources listed by a decrypted payload, which must be a JSON array of
/// sources.
pub fn decode_source_list(text: &str) -> (r: Result<Vec<Source>, FlixHQError>)
    ensures
        r is Ok <==> listed_sources(text@) is Some,
        r matches Ok(v) ==> sources_are(v@, listed_sources(text@)->Some_0),
        r matches Err(e) ==> e == FlixHQError::Decode,
{
    match read_json(text) {
        Some(JsonNode::Array(items)) => sources_from_items(&items),
        _ => Err(FlixHQError::Decode),
    }
}

/// The `sources` field of an embed envelope, by its JSON kind: a string is
/// an encrypted payload, an array the sources themselves.
pub fn decode_payload(envelope: &str) -> (r: Result<SourcePayload, FlixHQError>)
    ensures
        r is Ok <==> envelope_payload(envelope@) is Some,
        r matches Ok(p) ==> payload_is(p, envelope_payload(envelope@)->Some_0),
        r matches Err(e) ==> e == FlixHQError::Decode,
{
    let sources = match read_json(envelope) {
        Some(JsonNode::Object(es)) => find_field(&es, "sources"),
        _ => None,
    };
    match sources {
        Some(t) => match read_json(t.as_str()) {
            Some(JsonNode::Str(c)) => Ok(SourcePayload::Encrypted(c)),
            Some(JsonNode::Array(items)) => match sources_from_items(&items) {
                Ok(v) => Ok(SourcePayload::Plain(v)),
                Err(e) => Err(e),
            },
            _ => Err(FlixHQError::Decode),
        },
        None => Err(FlixHQError::Decode),
    }
}

/// The subtitle tracks of an embed envelope; they are never encrypted.
pub fn decode_tracks(envelope: &str) -> (r: Result<Vec<Track>, FlixHQError>)
    ensures
        r is Ok <==> envelope_tracks(envelope@) is Some,
        r matches Ok(v) ==> tracks_are(v@, envelope_tracks(envelope@)->Some_0),
        r matches Err(e) ==> e == FlixHQError::Decode,
{
    match read_json(envelope) {
        Some(JsonNode::Object(es)) => match find_field(&es, "tracks") {
            None => Ok(Vec::new()),
            Some(t) => match read_json(t.as_str()) {
                Some(JsonNode::Null) => Ok(Vec::new()),
                Some(JsonNode::Array(items)) => tracks_from_items(&items),
                _ => Err(FlixHQError::Decode),
            },
        },
        _ => Err(FlixHQError::Decode),
    }
}

/// Decrypting before parsing and parsing a plain list give the same sources:
/// when an envelope lists `items` as an array and a decrypted payload is an
/// array of the same items, both yield the same sources, or both fail. So
/// `extract` on the plain envelope and `set_decrypted` on the plaintext leave
/// the same sources.
pub proof fn decrypted_and_plain_agree(envelope: Seq<char>, plaintext: Seq<char>, items: Seq<Seq<char>>)
    requires
        envelope_field(envelope, "sources"@) matches Some(t) && json_shape(t) == Some(
            JsonShape::Array(items),
        ),
        json_shape(plaintext) == Some(JsonShape::Array(items)),
    ensures
        listed_sources(plaintext) is Some <==> envelope_payload(envelope) is Some,
        listed_sources(plaintext) matches Some(l) ==> envelope_payload(envelope) == Some(
            PayloadModel::Plain(l),
        ),
{
}

/// The sources as (file, media kind).
pub open spec fn source_models_of(v: Seq<Source>) -> Seq<SourceModel> {
    v.map_values(|s: Source| (s.file@, s.kind@))
}

/// The tracks as (file, label, kind, default).
pub open spec fn track_models_of(v: Seq<Track>) -> Seq<TrackModel> {
    v.map_values(|t: Track| (t.file@, t.label@, t.kind@, t.default))
}

proof fn lemma_sources_are(v: Seq<Source>, m: Seq<SourceModel>)
    requires
        sources_are(v, m),
    ensures
        source_models_of(v) == m,
{
    assert(source_models_of(v) =~= m);
}

proof fn lemma_tracks_are(v: Seq<Track>, m: Seq<TrackModel>)
    requires
        tracks_are(v, m),
    ensures
        track_models_of(v) == m,
{
    assert(track_models_of(v) =~= m);
}

impl VideoExtractor for VidCloud {
    open spec fn resolved_sources(&self) -> Seq<SourceModel> {
        source_models_of(self.sources@)
    }

    open spec fn resolved_tracks(&self) -> Seq<TrackModel> {
        track_models_of(self.tracks@)
    }

    fn extract(&mut self, envelope: &str) -> (r: Result<Option<String>, FlixHQError>) {
        let r = self.read_envelope(envelope);
        proof {
            if r is Ok {
                lemma_tracks_are(self.tracks@, envelope_tracks(envelope@)->Some_0);
                if let PayloadModel::Plain(l) = envelope_payload(envelope@)->Some_0 {
                    lemma_sources_are(self.sources@, l);
                }
            }
        }
        r
    }
}

/// The decryption proxy that turns an embed link into its source envelope.
pub const RESOLVER: &'static str = "https://dec.eatmynerds.live?url=";

impl VidCloud {
    pub fn new() -> (r: Self)
        ensures
            r.sources@.len() == 0,
            r.tracks@.len() == 0,
    {
        VidCloud { sources: Vec::new(), tracks: Vec::new() }
    }

    /// The request that resolves an embed link.
    pub fn request_url(link: &str) -> (r: String)
        ensures
            r@ == RESOLVER@ + link@,
    {
        let mut u = String::from_str(RESOLVER);
        u.append(link);
        u
    }

    /// Reads a source envelope. The tracks are taken as they are. Plain
    /// sources are taken too and `None` returned; an encrypted payload is
    /// returned for decryption, and the sources are left empty until
    /// `set_decrypted` is given the plaintext. Nothing changes on `Decode`.
    pub fn read_envelope(&mut self, envelope: &str) -> (r: Result<Option<String>, FlixHQError>)
        ensures
            r is Ok <==> (envelope_payload(envelope@) is Some && envelope_tracks(envelope@) is Some),
            r matches Err(e) ==> e == FlixHQError::Decode && final(self).sources@ == old(self).sources@
                && final(self).tracks@ == old(self).tracks@,
            r is Ok ==> tracks_are(final(self).tracks@, envelope_tracks(envelope@)->Some_0),
            r matches Ok(c) ==> match envelope_payload(envelope@)->Some_0 {
                PayloadModel::Encrypted(d) => c matches Some(x) && x@ == d && final(self).sources@.len()
                    == 0,
                PayloadModel::Plain(l) => c is None && sources_are(final(self).sources@, l),
            },
    {
        let tracks = match decode_tracks(envelope) {
            Ok(t) => t,
            Err(e) => {
                return Err(e);
            },
        };
        match decode_payload(envelope) {
            Ok(SourcePayload::Plain(v)) => {
                self.sources = v;
                self.tracks = tracks;
                Ok(None)
            },
            Ok(SourcePayload::Encrypted(c)) => {
                self.sources = Vec::new();
                self.tracks = tracks;
                Ok(Some(c))
            },
            Err(e) => Err(e),
        }
    }

    /// The first source's file, the stream to play when no quality is
    /// negotiated; `NoSourcesAvailable` when there is none.
    pub fn primary_file(&self) -> (r: Result<String, FlixHQError>)
        ensures
            self.sources@.len() == 0 ==> r == Err::<String, FlixHQError>(
                FlixHQError::NoSourcesAvailable,
            ),
            self.sources@.len() > 0 ==> (r matches Ok(f) && f@ == self.sources@[0].file@),
    {
        if self.sources.len() == 0 {
            Err(FlixHQError::NoSourcesAvailable)
        } else {
            Ok(self.sources[0].file.clone())
        }
    }

    /// Takes the sources from a decrypted payload, a JSON array of sources.
    pub fn set_decrypted(&mut self, plaintext: &str) -> (r: Result<(), FlixHQError>)
        ensures
            r is Ok <==> listed_sources(plaintext@) is Some,
            r is Ok ==> sources_are(final(self).sources@, listed_sources(plaintext@)->Some_0),
            r is Ok ==> source_models_of(final(self).sources@) == listed_sources(plaintext@)->Some_0,
            r matches Err(e) ==> e == FlixHQError::Decode && final(self).sources@ == old(
                self,
            ).sources@,
            final(self).tracks@ == old(self).tracks@,
    {
        match decode_source_list(plaintext) {
            Ok(v) => {
                self.sources = v;
                proof {
                    lemma_sources_are(self.sources@, listed_sources(plaintext@)->Some_0);
                }
                Ok(())
            },
            Err(e) => Err(e),
        }
    }
}

} // verus!
