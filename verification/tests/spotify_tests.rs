use skadi::spotify::event_type;
use skadi::spotify::FOLLOW_FORMAT;
use skadi::spotify::PlayerctlListener;
use skadi::spotify::PROGRAM;
use skadi::spotify::SpotifyEvent;
use skadi::spotify::SpotifyEventKind;
use skadi::spotify::TrackInfo;
use skadi::spotify::TrackParseError;
use skadi::spotify::TrackProperties;
use skadi::spotify::TrackProperty;

fn listener() -> PlayerctlListener {
    PlayerctlListener::new("spotify")
}

fn text(s: &str) -> Option<String> {
    Some(s.to_string())
}

fn full_track() -> TrackInfo {
    TrackInfo {
        status: "Playing".to_string(),
        title: text("Song"),
        artist: text("Artist"),
        album: text("Album"),
        position: Some(1000),
        duration: Some(200000),
        volume: text("50"),
        artwork_url: text("http://art"),
    }
}

fn no_answers() -> TrackProperties {
    TrackProperties {
        title: None,
        artist: None,
        album: None,
        status: None,
        position: None,
        duration: None,
        volume: None,
        artwork_url: None,
    }
}

#[test]
fn full_record_gives_track_and_playing_event() {
    let line = "Playing|Song|Artist|Album|1000|200000|50|http://art";
    assert_eq!(listener().parse_playerctl_output(line), Ok(full_track()));
    assert_eq!(
        listener().follow_event(line),
        Some(SpotifyEvent { kind: SpotifyEventKind::Playing, track_info: full_track() })
    );
}

#[test]
fn empty_fields_are_absent() {
    let track = listener().parse_playerctl_output("Paused|||||||").unwrap();
    assert_eq!(
        track,
        TrackInfo {
            status: "Paused".to_string(),
            title: None,
            artist: None,
            album: None,
            position: None,
            duration: None,
            volume: None,
            artwork_url: None,
        }
    );
    let track = listener().parse_playerctl_output("|Song||Album||5||art").unwrap();
    assert_eq!(
        track,
        TrackInfo {
            status: String::new(),
            title: text("Song"),
            artist: None,
            album: text("Album"),
            position: None,
            duration: Some(5),
            volume: None,
            artwork_url: text("art"),
        }
    );
}

#[test]
fn records_with_fewer_than_eight_fields_are_dropped() {
    let lines = [
        "",
        "Playing",
        "Playing|Song|Artist|Album",
        "Playing|Song|Artist|Album|1000|200000|50",
        "||||||",
    ];
    for line in lines {
        assert_eq!(
            listener().parse_playerctl_output(line),
            Err(TrackParseError::InvalidFormat),
            "on {:?}",
            line
        );
        assert_eq!(listener().follow_event(line), None, "on {:?}", line);
    }
}

#[test]
fn fields_past_the_eighth_are_left_out() {
    let line = "Playing|Song|Artist|Album|1000|200000|50|http://art|more|and more";
    assert_eq!(listener().parse_playerctl_output(line), Ok(full_track()));
}

#[test]
fn a_bad_number_rejects_the_whole_record() {
    let l = listener();
    assert_eq!(
        l.parse_playerctl_output("Playing|Song|Artist|Album|x|200000|50|art"),
        Err(TrackParseError::InvalidPosition)
    );
    assert_eq!(
        l.parse_playerctl_output("Playing|Song|Artist|Album|1000|2e5|50|art"),
        Err(TrackParseError::InvalidDuration)
    );
    assert_eq!(
        l.parse_playerctl_output("Playing|Song|Artist|Album|-1|x|50|art"),
        Err(TrackParseError::InvalidPosition)
    );
    assert_eq!(
        l.parse_playerctl_output("Playing|Song|Artist|Album| 1|2|50|art"),
        Err(TrackParseError::InvalidPosition)
    );
    assert_eq!(
        l.parse_playerctl_output("Playing|Song|Artist|Album|1|18446744073709551616|50|art"),
        Err(TrackParseError::InvalidDuration)
    );
    assert_eq!(l.follow_event("Playing|Song|Artist|Album|x|200000|50|art"), None);
    assert_eq!(l.follow_event("Playing|Song|Artist|Album|1|y|50|art"), None);
}

#[test]
fn numbers_at_the_limit_are_read() {
    let track = listener()
        .parse_playerctl_output("Stopped||||0|18446744073709551615||")
        .unwrap();
    assert_eq!(track.position, Some(0));
    assert_eq!(track.duration, Some(u64::MAX));
}

#[test]
fn kind_follows_the_status() {
    let l = listener();
    let kind = |line: &str| l.follow_event(line).unwrap().kind;
    assert_eq!(kind("Playing|a||||||"), SpotifyEventKind::Playing);
    assert_eq!(kind("Paused|a||||||"), SpotifyEventKind::Paused);
    assert_eq!(kind("Stopped|a||||||"), SpotifyEventKind::Stopped);
    assert_eq!(kind("Buffering|a||||||"), SpotifyEventKind::Stopped);
    assert_eq!(kind("playing|a||||||"), SpotifyEventKind::Stopped);
    assert_eq!(kind("|a||||||"), SpotifyEventKind::Stopped);
    assert_eq!(kind("request|a||||||"), SpotifyEventKind::Stopped);
    let event = l.follow_event("Buffering|a||||||").unwrap();
    assert_eq!(event.track_info.status, "Buffering");
}

#[test]
fn event_type_names_the_change() {
    assert_eq!(event_type("Playing"), "playing");
    assert_eq!(event_type("Paused"), "paused");
    assert_eq!(event_type("Stopped"), "stopped");
    assert_eq!(event_type("Unknown"), "unknown");
    assert_eq!(event_type(""), "unknown");
    assert_eq!(event_type("playing"), "unknown");
}

#[test]
fn kinds_by_name() {
    assert_eq!(SpotifyEventKind::try_from("request"), Ok(SpotifyEventKind::Request));
    assert_eq!(SpotifyEventKind::try_from("playing"), Ok(SpotifyEventKind::Playing));
    assert_eq!(SpotifyEventKind::try_from("paused"), Ok(SpotifyEventKind::Paused));
    assert_eq!(SpotifyEventKind::try_from("stopped"), Ok(SpotifyEventKind::Stopped));
    assert_eq!(
        SpotifyEventKind::try_from("unknown"),
        Err("Unknown Spotify event kind: unknown".to_string())
    );
    assert_eq!(
        SpotifyEventKind::try_from("Playing"),
        Err("Unknown Spotify event kind: Playing".to_string())
    );
    assert_eq!(SpotifyEventKind::try_from(""), Err("Unknown Spotify event kind: ".to_string()));
}

#[test]
fn kind_names_on_the_wire() {
    assert_eq!(SpotifyEventKind::Request.name(), "Request");
    assert_eq!(SpotifyEventKind::Playing.name(), "Playing");
    assert_eq!(SpotifyEventKind::Paused.name(), "Paused");
    assert_eq!(SpotifyEventKind::Stopped.name(), "Stopped");
}

#[test]
fn snapshot_without_answers_has_unknown_status() {
    assert_eq!(
        TrackInfo::from_properties(no_answers()),
        TrackInfo {
            status: "Unknown".to_string(),
            title: None,
            artist: None,
            album: None,
            position: None,
            duration: None,
            volume: None,
            artwork_url: None,
        }
    );
}

#[test]
fn snapshot_event_is_a_request() {
    assert_eq!(
        SpotifyEvent::request(full_track()),
        SpotifyEvent { kind: SpotifyEventKind::Request, track_info: full_track() }
    );
}

#[test]
fn snapshot_of_all_answers() {
    let answers = TrackProperties {
        title: text("Song"),
        artist: text("Artist"),
        album: text("Album"),
        status: text("Playing"),
        position: text("1000"),
        duration: text("200000"),
        volume: text("50"),
        artwork_url: text("http://art"),
    };
    assert_eq!(TrackInfo::from_properties(answers), full_track());
}

#[test]
fn snapshot_drops_what_it_cannot_read() {
    let answers = TrackProperties {
        title: text(""),
        artist: text("Artist"),
        album: None,
        status: text(""),
        position: text("12.5"),
        duration: text(""),
        volume: text(""),
        artwork_url: text(""),
    };
    assert_eq!(
        TrackInfo::from_properties(answers),
        TrackInfo {
            status: String::new(),
            title: None,
            artist: text("Artist"),
            album: None,
            position: None,
            duration: None,
            volume: None,
            artwork_url: None,
        }
    );
}

#[test]
fn property_value_trims_the_output() {
    assert_eq!(PlayerctlListener::property_value(true, "Song\n"), text("Song"));
    assert_eq!(PlayerctlListener::property_value(true, "  a b \r\n"), text("a b"));
    assert_eq!(PlayerctlListener::property_value(true, "\n"), text(""));
    assert_eq!(PlayerctlListener::property_value(true, ""), text(""));
    assert_eq!(PlayerctlListener::property_value(false, "Song\n"), None);
    assert_eq!(PlayerctlListener::property_value(false, ""), None);
}

#[test]
fn property_keys() {
    assert_eq!(TrackProperty::Title.name(), "title");
    assert_eq!(TrackProperty::Artist.name(), "artist");
    assert_eq!(TrackProperty::Album.name(), "album");
    assert_eq!(TrackProperty::Status.name(), "status");
    assert_eq!(TrackProperty::Position.name(), "position");
    assert_eq!(TrackProperty::Duration.name(), "mpris:length");
    assert_eq!(TrackProperty::Volume.name(), "volume");
    assert_eq!(TrackProperty::ArtworkUrl.name(), "mpris:artUrl");
}

#[test]
fn query_arguments() {
    assert_eq!(PROGRAM, "playerctl");
    assert_eq!(
        PlayerctlListener::new("spotify").metadata_args(TrackProperty::Duration),
        vec!["-p", "spotify", "metadata", "mpris:length"]
    );
    assert_eq!(
        PlayerctlListener::new("vlc").metadata_args(TrackProperty::Title),
        vec!["-p", "vlc", "metadata", "title"]
    );
}

#[test]
fn follow_arguments() {
    assert_eq!(
        PlayerctlListener::new("spotify").follow_args(),
        vec![
            "-p",
            "spotify",
            "-f",
            "{{status}}|{{title}}|{{artist}}|{{album}}|{{position}}|{{mpris:length}}|{{volume}}|{{mpris:artUrl}}",
            "metadata",
            "--follow"
        ]
    );
}

#[test]
fn follow_format_has_the_eight_fields_of_a_record() {
    let fields: Vec<&str> = FOLLOW_FORMAT.split('|').collect();
    assert_eq!(
        fields,
        vec![
            "{{status}}",
            "{{title}}",
            "{{artist}}",
            "{{album}}",
            "{{position}}",
            "{{mpris:length}}",
            "{{volume}}",
            "{{mpris:artUrl}}"
        ]
    );
}
