//! The audio adapter: which lines of the audio server's event feed call for
//! a look at the volume, and what the volume is.

use vstd::prelude::*;

use crate::number::parse_range;
use crate::number::parsed_u32;
use crate::payload::OpCode;
use crate::payload::PayloadData;
use crate::text::chars_of;
use crate::text::contains;
use crate::text::contains_text;
use crate::text::find_char;
use crate::text::find_last_char;
use crate::text::index_of;
use crate::text::last_index_of;
use crate::wire::field_views;
use crate::wire::Wire;
use crate::wire::WireField;
use crate::wire::WireValue;

verus! {

/// The volume of the default sink changed; `volume` is the new volume in
/// percent.
#[derive(Debug, Clone, Copy, PartialEq, Eq, Structural)]
pub struct VolumeEvent {
    pub volume: u32,
}

impl PayloadData for VolumeEvent {
    open spec fn opcode(&self) -> OpCode {
        OpCode::VolumeEvent
    }

    open spec fn wire(&self) -> Wire {
        Wire::Record(seq![("volume"@, Wire::Integer(self.volume as u64))])
    }

    fn op(&self) -> (code: OpCode) {
        OpCode::VolumeEvent
    }

    fn to_wire(&self) -> (value: WireValue) {
        let mut fields: Vec<WireField> = Vec::new();
        fields.push(WireField { name: "volume", value: WireValue::Integer(self.volume as u64) });
        assert(field_views(fields@) =~= self.wire()->Record_0);
        WireValue::record(fields)
    }
}

/// The control utility of the audio server.
pub const PROGRAM: &'static str = "pactl";

/// The arguments with which the utility writes the event feed.
pub fn subscribe_args() -> (args: Vec<String>)
    ensures
        args.deep_view() == seq!["subscribe"@],
{
    let mut args: Vec<String> = Vec::new();
    args.push("subscribe".to_owned());
    assert(args.deep_view() =~= seq!["subscribe"@]);
    args
}

/// The arguments with which the utility states the volume of the default
/// sink.
pub fn volume_query_args() -> (args: Vec<String>)
    ensures
        args.deep_view() == seq!["get-sink-volume"@, "@DEFAULT_SINK@"@],
{
    let mut args: Vec<String> = Vec::new();
    args.push("get-sink-volume".to_owned());
    args.push("@DEFAULT_SINK@".to_owned());
    assert(args.deep_view() =~= seq!["get-sink-volume"@, "@DEFAULT_SINK@"@]);
    args
}

/// Whether a line of the event feed reports a change on a sink.
pub open spec fn is_sink_change(line: Seq<char>) -> bool {
    contains(line, "'change' on sink"@)
}

/// The volume that the answer to a volume query states: the number between
/// the first percent sign and the last space before it. There is none where
/// the answer has no percent sign, no space before it, or no number that
/// fits 32 bits in between.
pub open spec fn volume_percent(output: Seq<char>) -> Option<u32> {
    let percent = index_of(output, '%');
    let space = last_index_of(output.take(percent), ' ');
    if percent >= output.len() || space < 0 {
        None
    } else {
        parsed_u32(output.subrange(space + 1, percent))
    }
}

/// Whether a line of the event feed reports a change on a sink, so that the
/// volume is to be asked for.
pub fn sink_changed(line: &str) -> (r: bool)
    ensures
        r == is_sink_change(line@),
{
    contains_text(line, "'change' on sink")
}

/// Reads the volume in percent out of the answer to a volume query.
pub fn parse_volume(output: &str) -> (r: Option<u32>)
    ensures
        r == volume_percent(output@),
{
    let chars = chars_of(output);
    let n = chars.len();
    let percent = find_char(&chars, 0, n, '%');
    assert(chars@.subrange(0, n as int) == output@);
    if percent >= n {
        return None;
    }
    assert(chars@.subrange(0, percent as int) == output@.take(percent as int));
    let space = match find_last_char(&chars, 0, percent, ' ') {
        Some(space) => space,
        None => {
            return None;
        },
    };
    match parse_range(&chars, space + 1, percent, 0xffff_ffff) {
        Some(volume) => Some(volume as u32),
        None => None,
    }
}

/// The event that the answer to a volume query gives rise to: none where
/// the answer states no volume.
pub fn volume_event(output: &str) -> (r: Option<VolumeEvent>)
    ensures
        r == match volume_percent(output@) {
            Some(volume) => Some((VolumeEvent { volume })),
            None => None,
        },
{
    match parse_volume(output) {
        Some(volume) => Some(VolumeEvent { volume }),
        None => None,
    }
}

/// On the wire a volume event has the field `volume` and no other, and
/// travels under the number 5.
pub proof fn lemma_wire_fields(event: VolumeEvent)
    ensures
        event.wire().names() == seq!["volume"@],
        event.opcode().number() == 5,
{
    assert(event.wire().names() =~= seq!["volume"@]);
}

} // verus!
