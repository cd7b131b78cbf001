use skadi::hyprland::parse_event;
use skadi::hyprland::HyprlandEvent;
use skadi::hyprland::WindowChanged;
use skadi::hyprland::Workspace;
use skadi::hyprland::WorkspaceEventKind;
use skadi::number::parse_u16;
use skadi::number::parse_u64;
use skadi::spotify::PlayerctlListener;
use skadi::spotify::TrackInfo;
use skadi::text::contains_text;
use skadi::text::split_fields;
use skadi::text::split_once_text;
use skadi::text::trim_text;
use skadi::volume::parse_volume;

/// A small deterministic generator of texts over a given alphabet.
struct Texts {
    state: u64,
}

impl Texts {
    fn new(seed: u64) -> Self {
        Texts { state: seed }
    }

    fn next(&mut self) -> u64 {
        self.state = self
            .state
            .wrapping_mul(6364136223846793005)
            .wrapping_add(1442695040888963407);
        self.state >> 33
    }

    fn text(&mut self, alphabet: &[&str], max_len: u64) -> String {
        let len = self.next() % (max_len + 1);
        let mut out = String::new();
        for _ in 0..len {
            out.push_str(alphabet[(self.next() % alphabet.len() as u64) as usize]);
        }
        out
    }
}

fn none_if_empty(s: &str) -> Option<String> {
    if s.is_empty() {
        None
    } else {
        Some(s.to_string())
    }
}

fn track_by_the_standard(line: &str) -> Option<TrackInfo> {
    let parts: Vec<&str> = line.split('|').collect();
    if parts.len() < 8 {
        return None;
    }
    let position = if parts[4].is_empty() { None } else { Some(parts[4].parse::<u64>().ok()?) };
    let duration = if parts[5].is_empty() { None } else { Some(parts[5].parse::<u64>().ok()?) };
    Some(TrackInfo {
        status: parts[0].to_string(),
        title: none_if_empty(parts[1]),
        artist: none_if_empty(parts[2]),
        album: none_if_empty(parts[3]),
        position,
        duration,
        volume: none_if_empty(parts[6]),
        artwork_url: none_if_empty(parts[7]),
    })
}

fn event_by_the_standard(line: &str) -> Option<HyprlandEvent> {
    let (event, data) = line.split_once(">>")?;
    let kind = match event {
        "workspace" => WorkspaceEventKind::Moved,
        "createworkspace" => WorkspaceEventKind::Created,
        "destroyworkspace" => WorkspaceEventKind::Destroyed,
        "activewindow" => {
            return Some(HyprlandEvent::WindowChanged(WindowChanged { title: data.to_string() }))
        }
        _ => return None,
    };
    Some(HyprlandEvent::Workspace(Workspace { kind, id: data.parse().unwrap_or(0) }))
}

fn volume_by_the_standard(output: &str) -> Option<u32> {
    let percent = output.find('%')?;
    let before = &output[..percent];
    let space = before.rfind(' ')?;
    before[space + 1..].parse().ok()
}

#[test]
fn numbers_agree_with_the_standard_parser_on_many_texts() {
    let alphabet = ["0", "1", "9", "5", "+", "-", " ", "6", "a", "\u{0663}"];
    let mut texts = Texts::new(1);
    for _ in 0..20000 {
        let s = texts.text(&alphabet, 7);
        assert_eq!(parse_u16(&s), s.parse::<u16>().ok(), "on {:?}", s);
    }
    for _ in 0..20000 {
        let s = texts.text(&alphabet[..5], 24);
        assert_eq!(parse_u64(&s), s.parse::<u64>().ok(), "on {:?}", s);
    }
}

#[test]
fn fields_agree_with_the_standard_split_on_many_texts() {
    let alphabet = ["|", "a", "\u{00e9}", "", "1", "|"];
    let mut texts = Texts::new(2);
    for _ in 0..20000 {
        let s = texts.text(&alphabet, 14);
        let expected: Vec<String> = s.split('|').map(|f| f.to_string()).collect();
        assert_eq!(split_fields(&s, '|'), expected, "on {:?}", s);
    }
}

#[test]
fn search_agrees_with_the_standard_search_on_many_texts() {
    let alphabet = [">", ">", "a", "b", "\u{4e16}"];
    let mut texts = Texts::new(3);
    for _ in 0..20000 {
        let s = texts.text(&alphabet, 10);
        let pat = texts.text(&alphabet, 3);
        assert_eq!(contains_text(&s, &pat), s.contains(pat.as_str()), "on {:?} {:?}", s, pat);
        let expected = s.split_once(pat.as_str()).map(|(a, b)| (a.to_string(), b.to_string()));
        assert_eq!(split_once_text(&s, &pat), expected, "on {:?} {:?}", s, pat);
    }
}

#[test]
fn trim_agrees_with_the_standard_trim_on_many_texts() {
    let alphabet = [" ", "\n", "\t", "a", "\u{00a0}", "\u{2009}", "\u{200b}", "b", "\u{3000}"];
    let mut texts = Texts::new(4);
    for _ in 0..20000 {
        let s = texts.text(&alphabet, 9);
        assert_eq!(trim_text(&s), s.trim(), "on {:?}", s);
    }
}

#[test]
fn records_agree_with_the_standard_reading_on_many_lines() {
    let alphabet = ["|", "|", "|", "a", "1", "22", "", "Playing", "+", "x y"];
    let listener = PlayerctlListener::new("spotify");
    let mut texts = Texts::new(5);
    let mut accepted = 0;
    for _ in 0..40000 {
        let line = texts.text(&alphabet, 16);
        let expected = track_by_the_standard(&line);
        if expected.is_some() {
            accepted += 1;
        }
        assert_eq!(listener.parse_playerctl_output(&line).ok(), expected, "on {:?}", line);
    }
    assert!(accepted > 100);
}

#[test]
fn events_agree_with_the_standard_reading_on_many_lines() {
    let alphabet =
        ["workspace", "create", "destroy", "activewindow", ">>", ">", "1", "65535", "7", "x", ""];
    let mut texts = Texts::new(6);
    let mut reported = 0;
    for _ in 0..40000 {
        let line = texts.text(&alphabet, 5);
        let expected = event_by_the_standard(&line);
        if expected.is_some() {
            reported += 1;
        }
        assert_eq!(parse_event(&line), expected, "on {:?}", line);
    }
    assert!(reported > 100);
}

#[test]
fn volumes_agree_with_the_standard_reading_on_many_answers() {
    let alphabet = [" ", "%", "1", "00", "4294967295", "/", "x", "\u{00e9}", " "];
    let mut texts = Texts::new(7);
    let mut stated = 0;
    for _ in 0..40000 {
        let answer = texts.text(&alphabet, 8);
        let expected = volume_by_the_standard(&answer);
        if expected.is_some() {
            stated += 1;
        }
        assert_eq!(parse_volume(&answer), expected, "on {:?}", answer);
    }
    assert!(stated > 100);
}
