//! The consumer-group management command: a fluent builder that tracks
//! which sub-command (create, set-id, destroy, create-consumer,
//! delete-consumer) is being assembled and which options are legal for it,
//! the frame assembly for the finalized state, and the decoding of the
//! write acknowledgement reply.

use vstd::prelude::*;
use crate::codec::{CommandError, ErrV, ReqV, Request, RespV, Response, req_views};
use crate::codec::lemma_req_views;

verus! {

/// Options accumulated for the create sub-command.
#[derive(Debug)]
struct XGroupCreateCommand {
    id: Option<String>,
    mkstream: bool,
    entries_read: bool,
}

/// Options accumulated for the set-id sub-command.
#[derive(Debug)]
struct XGroupSetIdCommand {
    id: Option<String>,
    entries_read: bool,
}

/// The builder's state: which sub-command is selected, with its options,
/// or the reason the call sequence so far was illegal.
#[derive(Debug)]
enum XGroupSubCommand {
    NotSet,
    Create(XGroupCreateCommand),
    SetId(XGroupSetIdCommand),
    Destroy,
    CreateConsumer(String),
    DeleteConsumer(String),
    Invalid(String),
}

/// The mathematical shape of the builder's sub-command state.
pub enum SubV {
    NotSet,
    Create { id: Option<Seq<char>>, mkstream: bool, entries_read: bool },
    SetId { id: Option<Seq<char>>, entries_read: bool },
    Destroy,
    CreateConsumer(Seq<char>),
    DeleteConsumer(Seq<char>),
    Invalid(Seq<char>),
}

/// The view of an optional textual value.
pub open spec fn opt_view(o: Option<String>) -> Option<Seq<char>> {
    match o {
        Some(s) => Some(s@),
        None => None,
    }
}

spec fn sub_view(s: XGroupSubCommand) -> SubV {
    match s {
        XGroupSubCommand::NotSet => SubV::NotSet,
        XGroupSubCommand::Create(c) => SubV::Create {
            id: opt_view(c.id),
            mkstream: c.mkstream,
            entries_read: c.entries_read,
        },
        XGroupSubCommand::SetId(c) => SubV::SetId {
            id: opt_view(c.id),
            entries_read: c.entries_read,
        },
        XGroupSubCommand::Destroy => SubV::Destroy,
        XGroupSubCommand::CreateConsumer(c) => SubV::CreateConsumer(c@),
        XGroupSubCommand::DeleteConsumer(c) => SubV::DeleteConsumer(c@),
        XGroupSubCommand::Invalid(m) => SubV::Invalid(m@),
    }
}

/// The wire token that names a concrete sub-command; the empty text for
/// the states that build refuses.
pub open spec fn sub_token(sub: SubV) -> Seq<char> {
    match sub {
        SubV::Create { .. } => "CREATE"@,
        SubV::SetId { .. } => "SETID"@,
        SubV::Destroy => "DESTROY"@,
        SubV::CreateConsumer(_) => "CREATECONSUMER"@,
        SubV::DeleteConsumer(_) => "DELCONSUMER"@,
        SubV::NotSet => Seq::empty(),
        SubV::Invalid(_) => Seq::empty(),
    }
}

/// The id token a finalized create or set-id emits: the chosen id, or `$`
/// when none was chosen.
pub open spec fn id_token(id: Option<Seq<char>>) -> Seq<char> {
    match id {
        Some(s) => s,
        None => "$"@,
    }
}

/// A flag's token sequence: the token when the flag is set, else nothing.
pub open spec fn opt_tok(b: bool, t: Seq<char>) -> Seq<ReqV> {
    if b {
        seq![ReqV::Text(t)]
    } else {
        Seq::empty()
    }
}

/// The exact token sequence of the group-management frame for a finalized
/// state: command token, sub-command token second, stream key, group name,
/// then the sub-command's trailing tokens in their fixed order.
pub open spec fn xgroup_frame(stream: Seq<char>, group: Seq<char>, sub: SubV) -> Seq<ReqV> {
    let head = seq![
        ReqV::Text("XGROUP"@),
        ReqV::Text(sub_token(sub)),
        ReqV::Text(stream),
        ReqV::Text(group),
    ];
    match sub {
        SubV::Create { id, mkstream, entries_read } => head + seq![ReqV::Text(id_token(id))]
            + opt_tok(mkstream, "MKSTREAM"@) + opt_tok(entries_read, "ENTRIESREAD"@),
        SubV::SetId { id, entries_read } => head + seq![ReqV::Text(id_token(id))] + opt_tok(
            entries_read,
            "ENTRIESREAD"@,
        ),
        SubV::Destroy => head,
        SubV::CreateConsumer(c) => head + seq![ReqV::Text(c)],
        SubV::DeleteConsumer(c) => head + seq![ReqV::Text(c)],
        SubV::NotSet => seq![ReqV::Text("XGROUP"@), ReqV::Text(stream), ReqV::Text(group)],
        SubV::Invalid(_) => seq![ReqV::Text("XGROUP"@), ReqV::Text(stream), ReqV::Text(group)],
    }
}

/// A finalized group-management command holding its outgoing frame parts.
#[derive(Debug)]
pub struct XGroupCommand(Vec<Request>);

impl View for XGroupCommand {
    type V = Seq<ReqV>;

    closed spec fn view(&self) -> Seq<ReqV> {
        req_views(self.0@)
    }
}

/// What decoding the write acknowledgement returns: an integer or the
/// status `OK` mean success, any other status is the server's own error,
/// and any other shape a decode error.
pub open spec fn xgroup_output_spec(v: RespV) -> Result<(), ErrV> {
    match v {
        RespV::Integer(_) => Ok(()),
        RespV::Status(s) => if s == "OK"@ {
            Ok(())
        } else {
            Err(ErrV::Error(s))
        },
        _ => Err(ErrV::Output("Unexpected value type, Want string or integer"@, v)),
    }
}

impl XGroupCommand {
    fn new(stream: String, group_name: String, sub_command: XGroupSubCommand) -> (r: XGroupCommand)
        ensures
            r@ == xgroup_frame(stream@, group_name@, sub_view(sub_command)),
    {
        let ghost sv = sub_view(sub_command);
        let mut req: Vec<Request> = Vec::new();
        req.push(Request::Text("XGROUP".to_string()));
        match sub_command {
            XGroupSubCommand::Create(cmd) => {
                req.push(Request::Text("CREATE".to_string()));
                req.push(Request::Text(stream));
                req.push(Request::Text(group_name));
                let id_tok = match cmd.id {
                    Some(id) => id,
                    None => "$".to_string(),
                };
                req.push(Request::Text(id_tok));
                if cmd.mkstream {
                    req.push(Request::Text("MKSTREAM".to_string()));
                }
                if cmd.entries_read {
                    req.push(Request::Text("ENTRIESREAD".to_string()));
                }
            },
            XGroupSubCommand::SetId(cmd) => {
                req.push(Request::Text("SETID".to_string()));
                req.push(Request::Text(stream));
                req.push(Request::Text(group_name));
                let id_tok = match cmd.id {
                    Some(id) => id,
                    None => "$".to_string(),
                };
                req.push(Request::Text(id_tok));
                if cmd.entries_read {
                    req.push(Request::Text("ENTRIESREAD".to_string()));
                }
            },
            XGroupSubCommand::Destroy => {
                req.push(Request::Text("DESTROY".to_string()));
                req.push(Request::Text(stream));
                req.push(Request::Text(group_name));
            },
            XGroupSubCommand::CreateConsumer(consumer) => {
                req.push(Request::Text("CREATECONSUMER".to_string()));
                req.push(Request::Text(stream));
                req.push(Request::Text(group_name));
                req.push(Request::Text(consumer));
            },
            XGroupSubCommand::DeleteConsumer(consumer) => {
                req.push(Request::Text("DELCONSUMER".to_string()));
                req.push(Request::Text(stream));
                req.push(Request::Text(group_name));
                req.push(Request::Text(consumer));
            },
            XGroupSubCommand::NotSet => {
                req.push(Request::Text(stream));
                req.push(Request::Text(group_name));
            },
            XGroupSubCommand::Invalid(_) => {
                req.push(Request::Text(stream));
                req.push(Request::Text(group_name));
            },
        }
        let r = XGroupCommand(req);
        proof {
            lemma_req_views(r.0@);
            assert(r@ =~= xgroup_frame(stream@, group_name@, sv));
        }
        r
    }

    fn builder(stream: String, group_name: String) -> (r: XGroupCommandBuilder)
        ensures
            r@ == (BuilderV { stream: stream@, group: group_name@, sub: SubV::NotSet }),
    {
        XGroupCommandBuilder { stream, group_name, sub_command: XGroupSubCommand::NotSet }
    }

    /// Wraps the finished token sequence as one outgoing frame.
    pub fn to_request(self) -> (r: Request)
        ensures
            r@ == ReqV::Array(self@),
    {
        Request::Array(self.0)
    }

    /// Decodes the server's acknowledgement of a group-management command.
    pub fn to_output(resp: Response) -> (r: Result<(), CommandError>)
        ensures
            (match r {
                Ok(u) => xgroup_output_spec(resp@) == Ok::<(), ErrV>(()),
                Err(e) => xgroup_output_spec(resp@) == Err::<(), ErrV>(e@),
            }),
    {
        match resp {
            Response::Integer(_) => Ok(()),
            Response::String(reply) => {
                let ok = "OK".to_string();
                if reply == ok {
                    Ok(())
                } else {
                    Err(CommandError::Error(reply))
                }
            },
            _ => Err(
                CommandError::Output(
                    "Unexpected value type, Want string or integer".to_string(),
                    resp,
                ),
            ),
        }
    }
}

/// The mathematical state of a builder: the stream key, the group name,
/// and the sub-command state.
pub struct BuilderV {
    pub stream: Seq<char>,
    pub group: Seq<char>,
    pub sub: SubV,
}

/// Builds group-management commands through a fluent call chain; the state
/// records which sub-command was selected and which options are set.
#[derive(Debug)]
pub struct XGroupCommandBuilder {
    stream: String,
    group_name: String,
    sub_command: XGroupSubCommand,
}

impl View for XGroupCommandBuilder {
    type V = BuilderV;

    closed spec fn view(&self) -> BuilderV {
        BuilderV {
            stream: self.stream@,
            group: self.group_name@,
            sub: sub_view(self.sub_command),
        }
    }
}

/// Selecting the create sub-command, discarding prior option accumulation.
pub open spec fn create_spec(b: BuilderV) -> BuilderV {
    BuilderV { sub: SubV::Create { id: None, mkstream: false, entries_read: false }, ..b }
}

/// Selecting the set-id sub-command.
pub open spec fn set_id_spec(b: BuilderV) -> BuilderV {
    BuilderV { sub: SubV::SetId { id: None, entries_read: false }, ..b }
}

/// Selecting the destroy sub-command.
pub open spec fn destroy_spec(b: BuilderV) -> BuilderV {
    BuilderV { sub: SubV::Destroy, ..b }
}

/// Selecting the create-consumer sub-command for a consumer name.
pub open spec fn create_consumer_spec(b: BuilderV, consumer: Seq<char>) -> BuilderV {
    BuilderV { sub: SubV::CreateConsumer(consumer), ..b }
}

/// Selecting the delete-consumer sub-command for a consumer name.
pub open spec fn delete_consumer_spec(b: BuilderV, consumer: Seq<char>) -> BuilderV {
    BuilderV { sub: SubV::DeleteConsumer(consumer), ..b }
}

/// Choosing an id: legal in create and set-id, invalidating otherwise.
pub open spec fn id_spec(b: BuilderV, id: Seq<char>) -> BuilderV {
    match b.sub {
        SubV::Create { id: _, mkstream, entries_read } => BuilderV {
            sub: SubV::Create { id: Some(id), mkstream, entries_read },
            ..b
        },
        SubV::SetId { id: _, entries_read } => BuilderV {
            sub: SubV::SetId { id: Some(id), entries_read },
            ..b
        },
        _ => BuilderV { sub: SubV::Invalid("id only used in create or setid sub command"@), ..b },
    }
}

/// Requesting the entries-read token: legal in create and set-id,
/// invalidating otherwise.
pub open spec fn entries_read_spec(b: BuilderV) -> BuilderV {
    match b.sub {
        SubV::Create { id, mkstream, entries_read: _ } => BuilderV {
            sub: SubV::Create { id, mkstream, entries_read: true },
            ..b
        },
        SubV::SetId { id, entries_read: _ } => BuilderV {
            sub: SubV::SetId { id, entries_read: true },
            ..b
        },
        _ => BuilderV {
            sub: SubV::Invalid("entriesread only used in create or setid sub command"@),
            ..b
        },
    }
}

/// Requesting the make-stream token: legal only in create, invalidating
/// otherwise.
pub open spec fn make_stream_spec(b: BuilderV) -> BuilderV {
    match b.sub {
        SubV::Create { id, mkstream: _, entries_read } => BuilderV {
            sub: SubV::Create { id, mkstream: true, entries_read },
            ..b
        },
        _ => BuilderV { sub: SubV::Invalid("mkstream only used in create sub command"@), ..b },
    }
}

/// What build returns for a builder state: a validation error before any
/// frame exists when no sub-command was selected or an option was illegal,
/// else exactly the frame of [`xgroup_frame`].
pub open spec fn build_spec(b: BuilderV) -> Result<Seq<ReqV>, ErrV> {
    match b.sub {
        SubV::NotSet => Err(ErrV::Error("XGroup Sub Command not set"@)),
        SubV::Invalid(m) => Err(ErrV::Error(m)),
        _ => Ok(xgroup_frame(b.stream, b.group, b.sub)),
    }
}

impl XGroupCommandBuilder {
    /// Selects the create sub-command.
    pub fn create(self) -> (r: Self)
        ensures
            r@ == create_spec(self@),
    {
        XGroupCommandBuilder {
            sub_command: XGroupSubCommand::Create(
                XGroupCreateCommand { id: None, mkstream: false, entries_read: false },
            ),
            ..self
        }
    }

    /// Selects the set-id sub-command.
    pub fn set_id(self) -> (r: Self)
        ensures
            r@ == set_id_spec(self@),
    {
        XGroupCommandBuilder {
            sub_command: XGroupSubCommand::SetId(
                XGroupSetIdCommand { id: None, entries_read: false },
            ),
            ..self
        }
    }

    /// Selects the destroy sub-command.
    pub fn destroy(self) -> (r: Self)
        ensures
            r@ == destroy_spec(self@),
    {
        XGroupCommandBuilder { sub_command: XGroupSubCommand::Destroy, ..self }
    }

    /// Selects the create-consumer sub-command for a consumer name.
    pub fn create_consumer(self, consumer_name: &str) -> (r: Self)
        ensures
            r@ == create_consumer_spec(self@, consumer_name@),
    {
        XGroupCommandBuilder {
            sub_command: XGroupSubCommand::CreateConsumer(consumer_name.to_string()),
            ..self
        }
    }

    /// Selects the delete-consumer sub-command for a consumer name.
    pub fn delete_consumer(self, consumer_name: &str) -> (r: Self)
        ensures
            r@ == delete_consumer_spec(self@, consumer_name@),
    {
        XGroupCommandBuilder {
            sub_command: XGroupSubCommand::DeleteConsumer(consumer_name.to_string()),
            ..self
        }
    }

    /// Chooses the id for a create or set-id sub-command; in any other
    /// state the builder becomes invalid with the matching reason.
    pub fn id(self, id: String) -> (r: Self)
        ensures
            r@ == id_spec(self@, id@),
    {
        let XGroupCommandBuilder { stream, group_name, sub_command } = self;
        let sub_command = match sub_command {
            XGroupSubCommand::Create(sub) => XGroupSubCommand::Create(
                XGroupCreateCommand { id: Some(id), ..sub },
            ),
            XGroupSubCommand::SetId(sub) => XGroupSubCommand::SetId(
                XGroupSetIdCommand { id: Some(id), ..sub },
            ),
            _ => XGroupSubCommand::Invalid(
                "id only used in create or setid sub command".to_string(),
            ),
        };
        XGroupCommandBuilder { stream, group_name, sub_command }
    }

    /// Requests the entries-read token for a create or set-id sub-command;
    /// in any other state the builder becomes invalid with the matching
    /// reason.
    pub fn entries_read(self) -> (r: Self)
        ensures
            r@ == entries_read_spec(self@),
    {
        let XGroupCommandBuilder { stream, group_name, sub_command } = self;
        let sub_command = match sub_command {
            XGroupSubCommand::Create(sub) => XGroupSubCommand::Create(
                XGroupCreateCommand { entries_read: true, ..sub },
            ),
            XGroupSubCommand::SetId(sub) => XGroupSubCommand::SetId(
                XGroupSetIdCommand { entries_read: true, ..sub },
            ),
            _ => XGroupSubCommand::Invalid(
                "entriesread only used in create or setid sub command".to_string(),
            ),
        };
        XGroupCommandBuilder { stream, group_name, sub_command }
    }

    /// Requests the make-stream token for a create sub-command; in any
    /// other state the builder becomes invalid with the matching reason.
    pub fn make_stream(self) -> (r: Self)
        ensures
            r@ == make_stream_spec(self@),
    {
        let XGroupCommandBuilder { stream, group_name, sub_command } = self;
        let sub_command = match sub_command {
            XGroupSubCommand::Create(sub) => XGroupSubCommand::Create(
                XGroupCreateCommand { mkstream: true, ..sub },
            ),
            _ => XGroupSubCommand::Invalid("mkstream only used in create sub command".to_string()),
        };
        XGroupCommandBuilder { stream, group_name, sub_command }
    }

    /// Finalizes the builder: an error for an unset or invalid state, else
    /// the immutable command frame.
    pub fn build(self) -> (r: Result<XGroupCommand, CommandError>)
        ensures
            (match r {
                Ok(cmd) => build_spec(self@) == Ok::<Seq<ReqV>, ErrV>(cmd@),
                Err(e) => build_spec(self@) == Err::<Seq<ReqV>, ErrV>(e@),
            }),
    {
        let XGroupCommandBuilder { stream, group_name, sub_command } = self;
        match sub_command {
            XGroupSubCommand::NotSet => Err(
                CommandError::Error("XGroup Sub Command not set".to_string()),
            ),
            XGroupSubCommand::Invalid(msg) => Err(CommandError::Error(msg)),
            sub => Ok(XGroupCommand::new(stream, group_name, sub)),
        }
    }
}

/// Starts a group-management command builder for a stream key and a group
/// name, with no sub-command selected yet.
#[allow(non_snake_case)]
pub fn XGroup(key: &str, group_name: &str) -> (r: XGroupCommandBuilder)
    ensures
        r@ == (BuilderV { stream: key@, group: group_name@, sub: SubV::NotSet }),
{
    XGroupCommand::builder(key.to_string(), group_name.to_string())
}

/// Every build of a finalized state places the sub-command token second in
/// the frame; an unset state fails with the fixed reason, an invalid state
/// with the reason recorded when the illegal option was applied.
pub proof fn lemma_build_subcommand_position(b: BuilderV)
    ensures
        build_spec(b) matches Ok(frame) ==> frame.len() >= 4 && frame[1] == ReqV::Text(
            sub_token(b.sub),
        ),
        b.sub is NotSet ==> build_spec(b) == Err::<Seq<ReqV>, ErrV>(
            ErrV::Error("XGroup Sub Command not set"@),
        ),
        b.sub matches SubV::Invalid(m) ==> build_spec(b) == Err::<Seq<ReqV>, ErrV>(ErrV::Error(m)),
{
}

/// Applying an option outside the states that give it meaning invalidates
/// the builder, and build then fails carrying exactly that reason.
pub proof fn lemma_option_misuse(b: BuilderV, id: Seq<char>)
    ensures
        !(b.sub matches SubV::Create { .. }) ==> build_spec(make_stream_spec(b)) == Err::<
            Seq<ReqV>,
            ErrV,
        >(ErrV::Error("mkstream only used in create sub command"@)),
        !(b.sub matches SubV::Create { .. } || b.sub matches SubV::SetId { .. }) ==> build_spec(
            id_spec(b, id),
        ) == Err::<Seq<ReqV>, ErrV>(ErrV::Error("id only used in create or setid sub command"@)),
        !(b.sub matches SubV::Create { .. } || b.sub matches SubV::SetId { .. }) ==> build_spec(
            entries_read_spec(b),
        ) == Err::<Seq<ReqV>, ErrV>(
            ErrV::Error("entriesread only used in create or setid sub command"@),
        ),
{
}

/// Building is deterministic: two builders in the same finalized state
/// yield identical frames, so building the same state twice gives
/// byte-identical output.
pub proof fn lemma_build_deterministic(b1: XGroupCommandBuilder, b2: XGroupCommandBuilder)
    requires
        b1@ == b2@,
    ensures
        build_spec(b1@) == build_spec(b2@),
{
}

/// A create or set-id frame carries its id token fifth: the chosen id, or
/// `$` when none was chosen.
pub proof fn lemma_id_token_position(stream: Seq<char>, group: Seq<char>, sub: SubV)
    ensures
        sub matches SubV::Create { id, .. } ==> xgroup_frame(stream, group, sub)[4] == ReqV::Text(
            id_token(id),
        ),
        sub matches SubV::SetId { id, .. } ==> xgroup_frame(stream, group, sub)[4] == ReqV::Text(
            id_token(id),
        ),
        (sub matches SubV::Create { id: None, .. } || sub matches SubV::SetId {
            id: None,
            ..
        }) ==> xgroup_frame(stream, group, sub)[4] == ReqV::Text("$"@),
{
}

} // verus!
