//! The window-manager adapter: where its event socket lies, and what the
//! lines that arrive on it mean.

use vstd::prelude::*;

use crate::err::BackendError;
use crate::number::parse_u16;
use crate::number::parsed_u16;
use crate::payload::OpCode;
use crate::payload::PayloadData;
use crate::text::chars_of;
use crate::text::same_text;
use crate::text::split_once;
use crate::text::split_once_text;
use crate::wire::field_views;
use crate::wire::Wire;
use crate::wire::WireField;
use crate::wire::WireValue;

verus! {

/// The window that has the focus changed; `title` is its title.
#[derive(Debug, Clone, PartialEq, Eq)]
pub struct WindowChanged {
    pub title: String,
}

impl PayloadData for WindowChanged {
    open spec fn opcode(&self) -> OpCode {
        OpCode::WindowChanged
    }

    open spec fn wire(&self) -> Wire {
        Wire::Record(seq![("title"@, Wire::Text(self.title@))])
    }

    fn op(&self) -> (code: OpCode) {
        OpCode::WindowChanged
    }

    fn to_wire(&self) -> (value: WireValue) {
        let mut fields: Vec<WireField> = Vec::new();
        fields.push(WireField { name: "title", value: WireValue::text(self.title.as_str()) });
        assert(field_views(fields@) =~= self.wire()->Record_0);
        WireValue::record(fields)
    }
}

/// What happened to a workspace.
#[derive(Debug, Clone, Copy, PartialEq, Eq, Structural)]
pub enum WorkspaceEventKind {
    Moved,
    Created,
    Destroyed,
}

impl WorkspaceEventKind {
    /// The name of the kind on the wire.
    pub open spec fn text(self) -> Seq<char> {
        match self {
            WorkspaceEventKind::Moved => "Moved"@,
            WorkspaceEventKind::Created => "Created"@,
            WorkspaceEventKind::Destroyed => "Destroyed"@,
        }
    }

    /// The name of the kind on the wire.
    pub fn name(self) -> (name: &'static str)
        ensures
            name@ == self.text(),
    {
        match self {
            WorkspaceEventKind::Moved => "Moved",
            WorkspaceEventKind::Created => "Created",
            WorkspaceEventKind::Destroyed => "Destroyed",
        }
    }
}

/// Something happened to the workspace with the number `id`.
#[derive(Debug, Clone, Copy, PartialEq, Eq, Structural)]
pub struct Workspace {
    pub kind: WorkspaceEventKind,
    pub id: u16,
}

impl PayloadData for Workspace {
    open spec fn opcode(&self) -> OpCode {
        OpCode::Workspace
    }

    open spec fn wire(&self) -> Wire {
        Wire::Record(
            seq![("kind"@, Wire::Text(self.kind.text())), ("id"@, Wire::Integer(self.id as u64))],
        )
    }

    fn op(&self) -> (code: OpCode) {
        OpCode::Workspace
    }

    fn to_wire(&self) -> (value: WireValue) {
        let mut fields: Vec<WireField> = Vec::new();
        fields.push(WireField { name: "kind", value: WireValue::text(self.kind.name()) });
        fields.push(WireField { name: "id", value: WireValue::Integer(self.id as u64) });
        assert(field_views(fields@) =~= self.wire()->Record_0);
        WireValue::record(fields)
    }
}

/// An event of the window manager.
#[derive(Debug, Clone, PartialEq, Eq)]
pub enum HyprlandEvent {
    Workspace(Workspace),
    WindowChanged(WindowChanged),
}

/// An event of the window manager as plain values.
pub ghost enum HyprlandEventView {
    Workspace(Workspace),
    WindowChanged { title: Seq<char> },
}

impl View for HyprlandEvent {
    type V = HyprlandEventView;

    open spec fn view(&self) -> HyprlandEventView {
        match self {
            HyprlandEvent::Workspace(workspace) => HyprlandEventView::Workspace(*workspace),
            HyprlandEvent::WindowChanged(window) => HyprlandEventView::WindowChanged {
                title: window.title@,
            },
        }
    }
}

impl PayloadData for HyprlandEvent {
    open spec fn opcode(&self) -> OpCode {
        match self {
            HyprlandEvent::Workspace(_) => OpCode::Workspace,
            HyprlandEvent::WindowChanged(_) => OpCode::WindowChanged,
        }
    }

    open spec fn wire(&self) -> Wire {
        match self {
            HyprlandEvent::Workspace(workspace) => workspace.wire(),
            HyprlandEvent::WindowChanged(window) => window.wire(),
        }
    }

    fn op(&self) -> (code: OpCode) {
        match self {
            HyprlandEvent::Workspace(workspace) => workspace.op(),
            HyprlandEvent::WindowChanged(window) => window.op(),
        }
    }

    fn to_wire(&self) -> (value: WireValue) {
        match self {
            HyprlandEvent::Workspace(workspace) => workspace.to_wire(),
            HyprlandEvent::WindowChanged(window) => window.to_wire(),
        }
    }
}

/// What the event called `name` does to a workspace, if it is about one.
pub open spec fn workspace_kind(name: Seq<char>) -> Option<WorkspaceEventKind> {
    if name == "workspace"@ {
        Some(WorkspaceEventKind::Moved)
    } else if name == "createworkspace"@ {
        Some(WorkspaceEventKind::Created)
    } else if name == "destroyworkspace"@ {
        Some(WorkspaceEventKind::Destroyed)
    } else {
        None
    }
}

/// The number of the workspace that `data` names: 0 where `data` is no
/// number that fits 16 bits.
pub open spec fn workspace_id(data: Seq<char>) -> u16 {
    match parsed_u16(data) {
        Some(id) => id,
        None => 0,
    }
}

/// The event that one line of the socket reports. A line is the name of an
/// event, the two characters `>>`, and the data of the event; a line without
/// `>>`, and one with a name that is not handled, reports nothing.
pub open spec fn parse_line(line: Seq<char>) -> Option<HyprlandEventView> {
    match split_once(line, ">>"@) {
        Some((name, data)) => match workspace_kind(name) {
            Some(kind) => Some(
                HyprlandEventView::Workspace(Workspace { kind, id: workspace_id(data) }),
            ),
            None => if name == "activewindow"@ {
                Some(HyprlandEventView::WindowChanged { title: data })
            } else {
                None
            },
        },
        None => None,
    }
}

/// Reads the number of a workspace. This never fails: what is no number
/// counts as 0.
pub fn parse_workspace_id(data: &str) -> (id: u16)
    ensures
        id == workspace_id(data@),
{
    match parse_u16(data) {
        Some(id) => id,
        None => 0,
    }
}

/// Reads the name of an event that is about a workspace.
fn parse_workspace_kind(name: &str) -> (r: Option<WorkspaceEventKind>)
    ensures
        r == workspace_kind(name@),
{
    if same_text(name, "workspace") {
        Some(WorkspaceEventKind::Moved)
    } else if same_text(name, "createworkspace") {
        Some(WorkspaceEventKind::Created)
    } else if same_text(name, "destroyworkspace") {
        Some(WorkspaceEventKind::Destroyed)
    } else {
        None
    }
}

/// Reads one line of the event socket.
pub fn parse_event(line: &str) -> (r: Option<HyprlandEvent>)
    ensures
        match r {
            Some(event) => parse_line(line@) == Some(event@),
            None => parse_line(line@) is None,
        },
{
    match split_once_text(line, ">>") {
        Some((name, data)) => {
            match parse_workspace_kind(name.as_str()) {
                Some(kind) => {
                    let id = parse_workspace_id(data.as_str());
                    Some(HyprlandEvent::Workspace(Workspace { kind, id }))
                },
                None => {
                    if same_text(name.as_str(), "activewindow") {
                        Some(HyprlandEvent::WindowChanged(WindowChanged { title: data }))
                    } else {
                        None
                    }
                },
            }
        },
        None => None,
    }
}

/// `base` with `part` joined on as a path: an absolute `part` stands alone;
/// otherwise a slash goes in between unless `base` is empty or ends in one.
pub open spec fn join_path(base: Seq<char>, part: Seq<char>) -> Seq<char> {
    if part.len() > 0 && part[0] == '/' {
        part
    } else if base.len() == 0 || base.last() == '/' {
        base + part
    } else {
        base.push('/') + part
    }
}

/// The path of the event socket of the session with the signature
/// `signature`, below the runtime directory `runtime_dir`.
pub open spec fn socket_path_of(runtime_dir: Seq<char>, signature: Seq<char>) -> Seq<char> {
    join_path(join_path(join_path(runtime_dir, "hypr"@), signature), ".socket2.sock"@)
}

/// For a directory and a signature that are not empty and neither start nor
/// end in a slash where the next part joins, the socket lies at
/// `<dir>/hypr/<signature>/.socket2.sock`.
pub proof fn lemma_socket_path_plain(runtime_dir: Seq<char>, signature: Seq<char>)
    requires
        runtime_dir.len() > 0,
        runtime_dir.last() != '/',
        signature.len() > 0,
        signature[0] != '/',
        signature.last() != '/',
    ensures
        socket_path_of(runtime_dir, signature) == runtime_dir + "/hypr/"@ + signature
            + "/.socket2.sock"@,
{
    reveal_strlit("hypr");
    reveal_strlit(".socket2.sock");
    reveal_strlit("/hypr/");
    reveal_strlit("/.socket2.sock");
    let a = join_path(runtime_dir, "hypr"@);
    assert(a =~= runtime_dir.push('/') + "hypr"@);
    assert(a.last() == 'r');
    let b = join_path(a, signature);
    assert(b =~= a.push('/') + signature);
    assert(b.last() == signature.last());
    assert(socket_path_of(runtime_dir, signature) =~= b.push('/') + ".socket2.sock"@);
    assert(b.push('/') + ".socket2.sock"@ =~= runtime_dir + "/hypr/"@ + signature
        + "/.socket2.sock"@);
}

/// Joins `part` on to `base` as a path.
fn join(base: String, part: &str) -> (path: String)
    ensures
        path@ == join_path(base@, part@),
{
    let head = chars_of(part);
    if head.len() > 0 && head[0] == '/' {
        return part.to_owned();
    }
    let tail = chars_of(base.as_str());
    let mut path = base;
    if tail.len() > 0 && tail[tail.len() - 1] != '/' {
        proof {
            reveal_strlit("/");
            assert("/"@ =~= seq!['/']);
        }
        path.append("/");
        assert(path@ =~= tail@.push('/'));
    }
    path.append(part);
    path
}

/// The path of the event socket. Both values come from the environment of
/// the session; where one is missing there is no socket to connect to, and
/// the error names the first that is.
pub fn socket_path(
    runtime_dir: Option<&str>,
    signature: Option<&str>,
) -> (r: Result<String, BackendError>)
    ensures
        match r {
            Ok(path) => runtime_dir is Some && signature is Some && path@ == socket_path_of(
                runtime_dir->0@,
                signature->0@,
            ),
            Err(e) => if runtime_dir is None {
                e == BackendError::XdgRuntimeDirNotSet
            } else {
                signature is None && e == BackendError::HyprlandSignatureNotSet
            },
        },
{
    let dir = match runtime_dir {
        Some(dir) => dir,
        None => {
            return Err(BackendError::XdgRuntimeDirNotSet);
        },
    };
    let sig = match signature {
        Some(sig) => sig,
        None => {
            return Err(BackendError::HyprlandSignatureNotSet);
        },
    };
    let path = join(dir.to_owned(), "hypr");
    let path = join(path, sig);
    let path = join(path, ".socket2.sock");
    Ok(path)
}

/// On the wire a workspace event has the fields `kind` and `id`, and a
/// window change has the field `title`; neither has any other. A workspace
/// event travels under the number 3, a window change under the number 2.
pub proof fn lemma_wire_fields(workspace: Workspace, window: WindowChanged)
    ensures
        workspace.wire().names() == seq!["kind"@, "id"@],
        workspace.opcode().number() == 3,
        window.wire().names() == seq!["title"@],
        window.opcode().number() == 2,
{
    assert(workspace.wire().names() =~= seq!["kind"@, "id"@]);
    assert(window.wire().names() =~= seq!["title"@]);
}

} // verus!
