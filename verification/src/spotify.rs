//! The media adapter: track records of the player-control utility, and the
//! playback events made of them.

use vstd::prelude::*;
use vstd::std_specs::convert::TryFromSpecImpl;

use crate::number::parse_u64;
use crate::number::parsed_u64;
use crate::payload::OpCode;
use crate::payload::PayloadData;
use crate::text::same_text;
use crate::text::split;
use crate::text::split_fields;
use crate::text::trim;
use crate::text::trim_text;
use crate::wire::field_views;
use crate::wire::Wire;
use crate::wire::WireField;
use crate::wire::WireValue;

verus! {

/// What is known of the current track. A text that the player leaves empty
/// is absent here, never an empty string.
#[derive(Debug, Clone, PartialEq, Eq)]
pub struct TrackInfo {
    pub title: Option<String>,
    pub artist: Option<String>,
    pub album: Option<String>,
    pub status: String,
    pub position: Option<u64>,
    pub duration: Option<u64>,
    pub volume: Option<String>,
    pub artwork_url: Option<String>,
}

/// A track as plain values.
pub ghost struct TrackInfoView {
    pub title: Option<Seq<char>>,
    pub artist: Option<Seq<char>>,
    pub album: Option<Seq<char>>,
    pub status: Seq<char>,
    pub position: Option<u64>,
    pub duration: Option<u64>,
    pub volume: Option<Seq<char>>,
    pub artwork_url: Option<Seq<char>>,
}

/// The characters of an optional text.
pub open spec fn text_view(text: Option<String>) -> Option<Seq<char>> {
    match text {
        Some(s) => Some(s@),
        None => None,
    }
}

impl View for TrackInfo {
    type V = TrackInfoView;

    open spec fn view(&self) -> TrackInfoView {
        TrackInfoView {
            title: text_view(self.title),
            artist: text_view(self.artist),
            album: text_view(self.album),
            status: self.status@,
            position: self.position,
            duration: self.duration,
            volume: text_view(self.volume),
            artwork_url: text_view(self.artwork_url),
        }
    }
}

/// An optional text as it goes on the wire.
pub open spec fn wire_text(text: Option<Seq<char>>) -> Wire {
    match text {
        Some(t) => Wire::Text(t),
        None => Wire::Null,
    }
}

/// An optional number as it goes on the wire.
pub open spec fn wire_number(number: Option<u64>) -> Wire {
    match number {
        Some(n) => Wire::Integer(n),
        None => Wire::Null,
    }
}

impl TrackInfoView {
    /// The track as it goes on the wire. What is absent is there with no
    /// value.
    pub open spec fn wire(self) -> Wire {
        Wire::Record(
            seq![
                ("title"@, wire_text(self.title)),
                ("artist"@, wire_text(self.artist)),
                ("album"@, wire_text(self.album)),
                ("status"@, Wire::Text(self.status)),
                ("position"@, wire_number(self.position)),
                ("duration"@, wire_number(self.duration)),
                ("volume"@, wire_text(self.volume)),
                ("artworkUrl"@, wire_text(self.artwork_url)),
            ],
        )
    }

    /// No optional text is present and empty.
    pub open spec fn no_empty_text(self) -> bool {
        &&& self.title != Some(Seq::<char>::empty())
        &&& self.artist != Some(Seq::<char>::empty())
        &&& self.album != Some(Seq::<char>::empty())
        &&& self.volume != Some(Seq::<char>::empty())
        &&& self.artwork_url != Some(Seq::<char>::empty())
    }
}

/// Why a record of the change feed was dropped.
#[derive(Debug, Clone, Copy, PartialEq, Eq)]
pub enum TrackParseError {
    /// The record has fewer than eight fields.
    InvalidFormat,
    /// The position is neither empty nor a number.
    InvalidPosition,
    /// The duration is neither empty nor a number.
    InvalidDuration,
}

/// A text field of a record: absent where the field is empty.
pub open spec fn optional_text(field: Seq<char>) -> Option<Seq<char>> {
    if field.len() == 0 {
        None
    } else {
        Some(field)
    }
}

/// Whether a number field of a record is acceptable: empty, or a number
/// that fits 64 bits.
pub open spec fn number_field_ok(field: Seq<char>) -> bool {
    field.len() == 0 || parsed_u64(field) is Some
}

/// A number field of a record: absent where the field is empty.
pub open spec fn optional_number(field: Seq<char>) -> Option<u64> {
    if field.len() == 0 {
        None
    } else {
        parsed_u64(field)
    }
}

/// What one record of the change feed says: eight fields or more between
/// vertical bars, in the order status, title, artist, album, position,
/// duration, volume, artwork. A record with a number field that is no number
/// is rejected whole.
pub open spec fn parse_record(line: Seq<char>) -> Result<TrackInfoView, TrackParseError> {
    let fields = split(line, '|');
    if fields.len() < 8 {
        Err(TrackParseError::InvalidFormat)
    } else if !number_field_ok(fields[4]) {
        Err(TrackParseError::InvalidPosition)
    } else if !number_field_ok(fields[5]) {
        Err(TrackParseError::InvalidDuration)
    } else {
        Ok(
            TrackInfoView {
                status: fields[0],
                title: optional_text(fields[1]),
                artist: optional_text(fields[2]),
                album: optional_text(fields[3]),
                position: optional_number(fields[4]),
                duration: optional_number(fields[5]),
                volume: optional_text(fields[6]),
                artwork_url: optional_text(fields[7]),
            },
        )
    }
}

/// Reading a record is total. A record is accepted exactly where it has
/// eight fields or more and its position and its duration are each empty or
/// a number; what is accepted holds a number for every number field that is
/// not empty, and holds no text for a field that is empty.
pub proof fn lemma_record_parsing(line: Seq<char>)
    ensures
        parse_record(line) is Ok <==> split(line, '|').len() >= 8 && number_field_ok(
            split(line, '|')[4],
        ) && number_field_ok(split(line, '|')[5]),
        parse_record(line) matches Ok(track) ==> {
            &&& track.no_empty_text()
            &&& track.status == split(line, '|')[0]
            &&& track.position is Some <==> split(line, '|')[4].len() > 0
            &&& track.duration is Some <==> split(line, '|')[5].len() > 0
            &&& track.title is None <==> split(line, '|')[1].len() == 0
            &&& track.artist is None <==> split(line, '|')[2].len() == 0
            &&& track.album is None <==> split(line, '|')[3].len() == 0
            &&& track.volume is None <==> split(line, '|')[6].len() == 0
            &&& track.artwork_url is None <==> split(line, '|')[7].len() == 0
        },
{
}

/// What a playback event reports: the first snapshot after startup, or a
/// change of state that was seen later.
#[derive(Debug, Clone, Copy, PartialEq, Eq, Structural)]
pub enum SpotifyEventKind {
    Request,
    Playing,
    Paused,
    Stopped,
}

impl SpotifyEventKind {
    /// The name of the kind on the wire.
    pub open spec fn text(self) -> Seq<char> {
        match self {
            SpotifyEventKind::Request => "Request"@,
            SpotifyEventKind::Playing => "Playing"@,
            SpotifyEventKind::Paused => "Paused"@,
            SpotifyEventKind::Stopped => "Stopped"@,
        }
    }

    /// The name of the kind on the wire.
    pub fn name(self) -> (name: &'static str)
        ensures
            name@ == self.text(),
    {
        match self {
            SpotifyEventKind::Request => "Request",
            SpotifyEventKind::Playing => "Playing",
            SpotifyEventKind::Paused => "Paused",
            SpotifyEventKind::Stopped => "Stopped",
        }
    }

    /// The kind that goes by the name `name`.
    pub open spec fn named(name: Seq<char>) -> Option<SpotifyEventKind> {
        if name == "request"@ {
            Some(SpotifyEventKind::Request)
        } else if name == "playing"@ {
            Some(SpotifyEventKind::Playing)
        } else if name == "paused"@ {
            Some(SpotifyEventKind::Paused)
        } else if name == "stopped"@ {
            Some(SpotifyEventKind::Stopped)
        } else {
            None
        }
    }

    /// The kind of the change that a record with the status `status`
    /// reports. A status that is none of the three known ones counts as
    /// stopped.
    pub open spec fn of_status(status: Seq<char>) -> SpotifyEventKind {
        if status == "Playing"@ {
            SpotifyEventKind::Playing
        } else if status == "Paused"@ {
            SpotifyEventKind::Paused
        } else {
            SpotifyEventKind::Stopped
        }
    }
}

impl TryFrom<&str> for SpotifyEventKind {
    type Error = String;

    /// Reads the name of a kind. The error says which name was not known.
    fn try_from(value: &str) -> (r: Result<SpotifyEventKind, String>)
        ensures
            match r {
                Ok(kind) => SpotifyEventKind::named(value@) == Some(kind),
                Err(message) => SpotifyEventKind::named(value@) is None && message@
                    == "Unknown Spotify event kind: "@ + value@,
            },
    {
        if same_text(value, "request") {
            Ok(SpotifyEventKind::Request)
        } else if same_text(value, "playing") {
            Ok(SpotifyEventKind::Playing)
        } else if same_text(value, "paused") {
            Ok(SpotifyEventKind::Paused)
        } else if same_text(value, "stopped") {
            Ok(SpotifyEventKind::Stopped)
        } else {
            let mut message = "Unknown Spotify event kind: ".to_owned();
            message.append(value);
            Err(message)
        }
    }
}

/// The text of the error is made when the name is read, and no
/// specification can hold it beforehand: what `try_from` returns is stated
/// in its own contract.
impl TryFromSpecImpl<&str> for SpotifyEventKind {
    open spec fn obeys_try_from_spec() -> bool {
        false
    }

    open spec fn try_from_spec(value: &str) -> Result<SpotifyEventKind, String> {
        match SpotifyEventKind::named(value@) {
            Some(kind) => Ok(kind),
            None => Err(arbitrary()),
        }
    }
}

/// The name under which the change of a record with the status `status` is
/// handed on.
pub open spec fn event_name(status: Seq<char>) -> Seq<char> {
    if status == "Playing"@ {
        "playing"@
    } else if status == "Paused"@ {
        "paused"@
    } else if status == "Stopped"@ {
        "stopped"@
    } else {
        "unknown"@
    }
}

/// Going through the name of the change gives the kind of the status: the
/// name that stands for an unknown status is the name of no kind.
pub proof fn lemma_event_name_kind(status: Seq<char>)
    ensures
        SpotifyEventKind::named(event_name(status)) == if status == "Playing"@ || status
            == "Paused"@ || status == "Stopped"@ {
            Some(SpotifyEventKind::of_status(status))
        } else {
            None
        },
{
    reveal_strlit("Playing");
    reveal_strlit("Paused");
    reveal_strlit("Stopped");
    reveal_strlit("request");
    reveal_strlit("playing");
    reveal_strlit("paused");
    reveal_strlit("stopped");
    reveal_strlit("unknown");
    assert("Playing"@.len() == 7 && "Paused"@.len() == 6 && "Stopped"@.len() == 7);
    assert("Playing"@[0] == 'P' && "Stopped"@[0] == 'S');
    assert("request"@.len() == 7 && "playing"@.len() == 7 && "paused"@.len() == 6);
    assert("stopped"@.len() == 7 && "unknown"@.len() == 7);
    assert("request"@[0] == 'r' && "playing"@[0] == 'p' && "stopped"@[0] == 's');
    assert("unknown"@[0] == 'u');
}

/// The name under which the change of a record with the status `status` is
/// handed on.
pub fn event_type(status: &str) -> (name: &'static str)
    ensures
        name@ == event_name(status@),
{
    if same_text(status, "Playing") {
        "playing"
    } else if same_text(status, "Paused") {
        "paused"
    } else if same_text(status, "Stopped") {
        "stopped"
    } else {
        "unknown"
    }
}

/// A playback event: its kind, and the track as it was then.
#[derive(Debug, Clone, PartialEq, Eq)]
pub struct SpotifyEvent {
    pub kind: SpotifyEventKind,
    pub track_info: TrackInfo,
}

impl PayloadData for SpotifyEvent {
    open spec fn opcode(&self) -> OpCode {
        OpCode::SpotifyEvent
    }

    open spec fn wire(&self) -> Wire {
        Wire::Record(
            seq![("kind"@, Wire::Text(self.kind.text())), ("trackInfo"@, self.track_info@.wire())],
        )
    }

    fn op(&self) -> (code: OpCode) {
        OpCode::SpotifyEvent
    }

    fn to_wire(&self) -> (value: WireValue) {
        let mut fields: Vec<WireField> = Vec::new();
        fields.push(WireField { name: "kind", value: WireValue::text(self.kind.name()) });
        fields.push(WireField { name: "trackInfo", value: self.track_info.to_wire() });
        assert(field_views(fields@) =~= self.wire()->Record_0);
        WireValue::record(fields)
    }
}

/// On the wire a playback event has the fields `kind` and `trackInfo`, and
/// the track under `trackInfo` has its eight fields, present or not; neither
/// has any other. A playback event travels under the number 4.
pub proof fn lemma_wire_fields(event: SpotifyEvent)
    ensures
        event.opcode().number() == 4,
        event.wire().names() == seq!["kind"@, "trackInfo"@],
        event.track_info@.wire().names() == seq![
            "title"@,
            "artist"@,
            "album"@,
            "status"@,
            "position"@,
            "duration"@,
            "volume"@,
            "artworkUrl"@,
        ],
{
    assert(event.wire().names() =~= seq!["kind"@, "trackInfo"@]);
    assert(event.track_info@.wire().names() =~= seq![
        "title"@,
        "artist"@,
        "album"@,
        "status"@,
        "position"@,
        "duration"@,
        "volume"@,
        "artworkUrl"@,
    ]);
}

/// A property of the current track that the player can be asked for.
#[derive(Debug, Clone, Copy, PartialEq, Eq, Structural)]
pub enum TrackProperty {
    Title,
    Artist,
    Album,
    Status,
    Position,
    Duration,
    Volume,
    ArtworkUrl,
}

impl TrackProperty {
    /// The key by which the player-control utility knows the property.
    pub open spec fn key(self) -> Seq<char> {
        match self {
            TrackProperty::Title => "title"@,
            TrackProperty::Artist => "artist"@,
            TrackProperty::Album => "album"@,
            TrackProperty::Status => "status"@,
            TrackProperty::Position => "position"@,
            TrackProperty::Duration => "mpris:length"@,
            TrackProperty::Volume => "volume"@,
            TrackProperty::ArtworkUrl => "mpris:artUrl"@,
        }
    }

    /// The key by which the player-control utility knows the property.
    pub fn name(self) -> (name: &'static str)
        ensures
            name@ == self.key(),
    {
        match self {
            TrackProperty::Title => "title",
            TrackProperty::Artist => "artist",
            TrackProperty::Album => "album",
            TrackProperty::Status => "status",
            TrackProperty::Position => "position",
            TrackProperty::Duration => "mpris:length",
            TrackProperty::Volume => "volume",
            TrackProperty::ArtworkUrl => "mpris:artUrl",
        }
    }
}

/// The answers to the eight queries of the startup snapshot, each absent
/// where its query failed.
#[derive(Debug, Clone, PartialEq, Eq)]
pub struct TrackProperties {
    pub title: Option<String>,
    pub artist: Option<String>,
    pub album: Option<String>,
    pub status: Option<String>,
    pub position: Option<String>,
    pub duration: Option<String>,
    pub volume: Option<String>,
    pub artwork_url: Option<String>,
}

/// A text of the snapshot: absent where the query failed or the answer is
/// empty.
pub open spec fn answered_text(answer: Option<Seq<char>>) -> Option<Seq<char>> {
    match answer {
        Some(text) => optional_text(text),
        None => None,
    }
}

/// A number of the snapshot: absent where the query failed or the answer is
/// no number that fits 64 bits.
pub open spec fn answered_number(answer: Option<Seq<char>>) -> Option<u64> {
    match answer {
        Some(text) => parsed_u64(text),
        None => None,
    }
}

/// The status of the snapshot: `Unknown` where the query failed.
pub open spec fn answered_status(answer: Option<Seq<char>>) -> Seq<char> {
    match answer {
        Some(text) => text,
        None => "Unknown"@,
    }
}

impl TrackProperties {
    /// The track that the answers describe. No answer makes the snapshot
    /// fail: what is missing or unreadable is absent.
    pub open spec fn track(self) -> TrackInfoView {
        TrackInfoView {
            title: answered_text(text_view(self.title)),
            artist: answered_text(text_view(self.artist)),
            album: answered_text(text_view(self.album)),
            status: answered_status(text_view(self.status)),
            position: answered_number(text_view(self.position)),
            duration: answered_number(text_view(self.duration)),
            volume: answered_text(text_view(self.volume)),
            artwork_url: answered_text(text_view(self.artwork_url)),
        }
    }
}

/// The text of an answer, absent where there is none or it is empty.
fn answer_text(answer: Option<String>) -> (r: Option<String>)
    ensures
        text_view(r) == answered_text(text_view(answer)),
{
    match answer {
        Some(text) => {
            if text.as_str().is_empty() {
                None
            } else {
                Some(text)
            }
        },
        None => None,
    }
}

/// The number of an answer, absent where there is none or it is no number.
fn answer_number(answer: &Option<String>) -> (r: Option<u64>)
    ensures
        r == answered_number(text_view(*answer)),
{
    match answer {
        Some(text) => parse_u64(text.as_str()),
        None => None,
    }
}

impl TrackInfo {
    /// Puts the startup snapshot together from the answers to its queries.
    pub fn from_properties(properties: TrackProperties) -> (track: TrackInfo)
        ensures
            track@ == properties.track(),
            track@.no_empty_text(),
    {
        let position = answer_number(&properties.position);
        let duration = answer_number(&properties.duration);
        let status = match properties.status {
            Some(status) => status,
            None => "Unknown".to_owned(),
        };
        TrackInfo {
            title: answer_text(properties.title),
            artist: answer_text(properties.artist),
            album: answer_text(properties.album),
            status,
            position,
            duration,
            volume: answer_text(properties.volume),
            artwork_url: answer_text(properties.artwork_url),
        }
    }

    /// The track as it goes on the wire.
    pub fn to_wire(&self) -> (value: WireValue)
        ensures
            value@ == self@.wire(),
    {
        let mut fields: Vec<WireField> = Vec::new();
        fields.push(WireField { name: "title", value: WireValue::optional_text(&self.title) });
        fields.push(WireField { name: "artist", value: WireValue::optional_text(&self.artist) });
        fields.push(WireField { name: "album", value: WireValue::optional_text(&self.album) });
        fields.push(WireField { name: "status", value: WireValue::text(self.status.as_str()) });
        fields.push(
            WireField { name: "position", value: WireValue::optional_integer(self.position) },
        );
        fields.push(
            WireField { name: "duration", value: WireValue::optional_integer(self.duration) },
        );
        fields.push(WireField { name: "volume", value: WireValue::optional_text(&self.volume) });
        fields.push(
            WireField { name: "artworkUrl", value: WireValue::optional_text(&self.artwork_url) },
        );
        assert(field_views(fields@) =~= self@.wire()->Record_0);
        WireValue::record(fields)
    }
}

impl SpotifyEvent {
    /// The event that reports the startup snapshot `track_info`.
    pub fn request(track_info: TrackInfo) -> (event: SpotifyEvent)
        ensures
            event == (SpotifyEvent { kind: SpotifyEventKind::Request, track_info }),
    {
        SpotifyEvent { kind: SpotifyEventKind::Request, track_info }
    }
}

/// The player-control utility.
pub const PROGRAM: &'static str = "playerctl";

/// The format in which the change feed is asked for: the eight fields of a
/// record, between vertical bars.
pub const FOLLOW_FORMAT: &'static str =
    "{{status}}|{{title}}|{{artist}}|{{album}}|{{position}}|{{mpris:length}}|{{volume}}|{{mpris:artUrl}}";

/// The text of `field`, absent where it is empty.
fn text_field(field: &String) -> (r: Option<String>)
    ensures
        text_view(r) == optional_text(field@),
{
    if field.as_str().is_empty() {
        None
    } else {
        Some(field.clone())
    }
}

/// The number of `field`: absent where it is empty, refused where it is no
/// number.
fn number_field(field: &String) -> (r: Result<Option<u64>, ()>)
    ensures
        r is Ok == number_field_ok(field@),
        r matches Ok(n) ==> n == optional_number(field@),
{
    if field.as_str().is_empty() {
        Ok(None)
    } else {
        match parse_u64(field.as_str()) {
            Some(n) => Ok(Some(n)),
            None => Err(()),
        }
    }
}

/// A listener on one media player.
pub struct PlayerctlListener {
    player: String,
}

impl PlayerctlListener {
    /// The name of the player that is listened to.
    pub closed spec fn player(&self) -> Seq<char> {
        self.player@
    }

    /// A listener on the player called `player`.
    pub fn new(player: &str) -> (listener: Self)
        ensures
            listener.player() == player@,
    {
        PlayerctlListener { player: player.to_owned() }
    }

    /// The arguments with which the player-control utility answers for one
    /// property of the current track.
    pub fn metadata_args(&self, property: TrackProperty) -> (args: Vec<String>)
        ensures
            args.deep_view() == seq!["-p"@, self.player(), "metadata"@, property.key()],
    {
        let mut args: Vec<String> = Vec::new();
        args.push("-p".to_owned());
        args.push(self.player.clone());
        args.push("metadata".to_owned());
        args.push(property.name().to_owned());
        assert(args.deep_view() =~= seq!["-p"@, self.player(), "metadata"@, property.key()]);
        args
    }

    /// The arguments with which the player-control utility follows the
    /// player and writes one record for each change.
    pub fn follow_args(&self) -> (args: Vec<String>)
        ensures
            args.deep_view() == seq![
                "-p"@,
                self.player(),
                "-f"@,
                FOLLOW_FORMAT@,
                "metadata"@,
                "--follow"@,
            ],
    {
        let mut args: Vec<String> = Vec::new();
        args.push("-p".to_owned());
        args.push(self.player.clone());
        args.push("-f".to_owned());
        args.push(FOLLOW_FORMAT.to_owned());
        args.push("metadata".to_owned());
        args.push("--follow".to_owned());
        assert(args.deep_view() =~= seq![
            "-p"@,
            self.player(),
            "-f"@,
            FOLLOW_FORMAT@,
            "metadata"@,
            "--follow"@,
        ]);
        args
    }

    /// What a query for one property says: nothing where the utility
    /// failed, else its output without the white space around it.
    pub fn property_value(success: bool, output: &str) -> (r: Option<String>)
        ensures
            text_view(r) == if success {
                Some(trim(output@))
            } else {
                None
            },
    {
        if success {
            Some(trim_text(output).to_owned())
        } else {
            None
        }
    }

    /// Reads one record of the change feed.
    pub fn parse_playerctl_output(&self, line: &str) -> (r: Result<TrackInfo, TrackParseError>)
        ensures
            match r {
                Ok(track) => parse_record(line@) == Ok::<TrackInfoView, TrackParseError>(track@),
                Err(e) => parse_record(line@) == Err::<TrackInfoView, TrackParseError>(e),
            },
            r matches Ok(track) ==> track@.no_empty_text(),
    {
        let fields = split_fields(line, '|');
        if fields.len() < 8 {
            return Err(TrackParseError::InvalidFormat);
        }
        proof {
            let parts = split(line@, '|');
            assert(forall|i: int| 0 <= i < 8 ==> fields@[i]@ == #[trigger] parts[i]);
        }
        let position = match number_field(&fields[4]) {
            Ok(n) => n,
            Err(_) => {
                return Err(TrackParseError::InvalidPosition);
            },
        };
        let duration = match number_field(&fields[5]) {
            Ok(n) => n,
            Err(_) => {
                return Err(TrackParseError::InvalidDuration);
            },
        };
        Ok(
            TrackInfo {
                status: fields[0].clone(),
                title: text_field(&fields[1]),
                artist: text_field(&fields[2]),
                album: text_field(&fields[3]),
                position,
                duration,
                volume: text_field(&fields[6]),
                artwork_url: text_field(&fields[7]),
            },
        )
    }

    /// The event that one line of the change feed gives rise to: none for a
    /// line that is no record, else the track of the record under the kind
    /// of its status.
    pub fn follow_event(&self, line: &str) -> (r: Option<SpotifyEvent>)
        ensures
            match r {
                Some(event) => parse_record(line@) == Ok::<TrackInfoView, TrackParseError>(
                    event.track_info@,
                ) && event.kind == SpotifyEventKind::of_status(event.track_info.status@),
                None => parse_record(line@) is Err,
            },
    {
        match self.parse_playerctl_output(line) {
            Ok(track_info) => {
                let name = event_type(track_info.status.as_str());
                proof {
                    lemma_event_name_kind(track_info.status@);
                }
                let kind = match SpotifyEventKind::try_from(name) {
                    Ok(kind) => kind,
                    Err(_) => SpotifyEventKind::Stopped,
                };
                Some(SpotifyEvent { kind, track_info })
            },
            Err(_) => None,
        }
    }
}

} // verus!
