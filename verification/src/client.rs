//! Client side of the control socket.
//!
//! Deliberately free of the app: the CLI process never builds an app, never
//! loads a model, and never initializes a logger, so nothing can leak onto
//! stdout except the result the user asked for.

use crate::endpoint;
use crate::endpoint::Descriptor;
use crate::endpoint::DirError;
use crate::endpoint::DirStat;
use crate::endpoint::EndpointEnv;
use crate::protocol;
use crate::protocol::ClientFrame;
use crate::protocol::ErrorCode;
use crate::protocol::ReadError;
use crate::protocol::ServerFrame;
use crate::protocol::StreamBuffer;
use crate::text;
use crate::transport;
use crate::transport::IoFailure;
use crate::transport::IoKind;
use vstd::prelude::*;

verus! {

/// Why a connection attempt failed, so the CLI can pick an exit code and give
/// advice specific to the cause.
#[derive(Debug)]
pub enum ConnectError {
    /// Nothing is listening.
    NotRunning { endpoint: String, detail: String },
    /// A running app speaks a protocol this build cannot.
    ProtocolMismatch {
        app_version: String,
        server_protocol: u32,
        server_min: u32,
        client_protocol: u32,
    },
    /// The endpoint directory is not safely ours.
    Forbidden(String),
    Other(String),
}

/// Why a connection attempt failed, by its texts.
pub enum ConnectErrorView {
    NotRunning { endpoint: Seq<char>, detail: Seq<char> },
    ProtocolMismatch {
        app_version: Seq<char>,
        server_protocol: u32,
        server_min: u32,
        client_protocol: u32,
    },
    Forbidden(Seq<char>),
    Other(Seq<char>),
}

impl ConnectErrorView {
    /// What the error says.
    pub open spec fn text(self) -> Seq<char> {
        match self {
            ConnectErrorView::NotRunning { endpoint, detail } =>
            "no running Handy instance (nothing listening at "@ + endpoint + ": "@ + detail
                + ")\n  start Handy, or pass --local to transcribe in this process"@,
            ConnectErrorView::ProtocolMismatch {
                app_version,
                server_protocol,
                server_min,
                client_protocol,
            } => "the running Handy ("@ + app_version + ") speaks CLI protocol "@
                + text::decimal_text(server_protocol as nat) + " (accepts >= "@
                + text::decimal_text(server_min as nat) + "), this build speaks "@
                + text::decimal_text(client_protocol as nat)
                + "\n  restart Handy so both sides match"@,
            ConnectErrorView::Forbidden(detail) => "refusing to use the control socket: "@ + detail
                + "\n  fix the directory's ownership and permissions, then retry"@,
            ConnectErrorView::Other(detail) => detail,
        }
    }
}

impl ConnectError {
    /// The error by its texts.
    pub open spec fn view(&self) -> ConnectErrorView {
        match *self {
            ConnectError::NotRunning { endpoint, detail } => ConnectErrorView::NotRunning {
                endpoint: endpoint@,
                detail: detail@,
            },
            ConnectError::ProtocolMismatch {
                app_version,
                server_protocol,
                server_min,
                client_protocol,
            } => ConnectErrorView::ProtocolMismatch {
                app_version: app_version@,
                server_protocol,
                server_min,
                client_protocol,
            },
            ConnectError::Forbidden(detail) => ConnectErrorView::Forbidden(detail@),
            ConnectError::Other(detail) => ConnectErrorView::Other(detail@),
        }
    }

    /// What the error says.
    pub fn message(&self) -> (r: String)
        ensures
            r@ == self@.text(),
    {
        match self {
            ConnectError::NotRunning { endpoint, detail } =>
            "no running Handy instance (nothing listening at ".to_owned().concat(
                endpoint.as_str(),
            ).concat(": ").concat(detail.as_str()).concat(
                ")\n  start Handy, or pass --local to transcribe in this process",
            ),
            ConnectError::ProtocolMismatch {
                app_version,
                server_protocol,
                server_min,
                client_protocol,
            } => "the running Handy (".to_owned().concat(app_version.as_str()).concat(
                ") speaks CLI protocol ",
            ).concat(text::decimal(*server_protocol as u64).as_str()).concat(
                " (accepts >= ",
            ).concat(text::decimal(*server_min as u64).as_str()).concat(
                "), this build speaks ",
            ).concat(text::decimal(*client_protocol as u64).as_str()).concat(
                "\n  restart Handy so both sides match",
            ),
            ConnectError::Forbidden(detail) => "refusing to use the control socket: ".to_owned().concat(
                detail.as_str(),
            ).concat("\n  fix the directory's ownership and permissions, then retry"),
            ConnectError::Other(detail) => detail.clone(),
        }
    }
}

/// A connection that could not be made.
#[derive(Debug)]
pub struct ConnectFailure {
    /// The whole chain of causes.
    pub text: String,
    /// The operating system's part of it, where there is one.
    pub io: Option<IoFailure>,
}

impl ConnectFailure {
    /// The operating system's part of the failure, by its text.
    pub open spec fn os(self) -> Option<(IoKind, Seq<char>)> {
        match self.io {
            Some(io) => Some((io.kind, io.detail@)),
            None => None,
        }
    }
}

/// Whether a kind of failure means that nothing is listening.
pub open spec fn nothing_listens(kind: IoKind) -> bool {
    kind == IoKind::NotFound || kind == IoKind::ConnectionRefused || kind
        == IoKind::AddrNotAvailable
}

/// What a connection that could not be made means, from the whole chain of
/// causes and the operating system's part of it.
pub open spec fn classified(
    endpoint: Seq<char>,
    chain: Seq<char>,
    os: Option<(IoKind, Seq<char>)>,
) -> ConnectErrorView {
    if text::has_text(chain, "owned by uid"@) || text::has_text(
        chain,
        "accessible to other users"@,
    ) {
        ConnectErrorView::Forbidden(chain)
    } else if os is Some && nothing_listens((os->0).0) {
        ConnectErrorView::NotRunning { endpoint, detail: (os->0).1 }
    } else if text::has_text(chain, "No such file"@) || text::has_text(
        chain,
        "Connection refused"@,
    ) {
        ConnectErrorView::NotRunning { endpoint, detail: chain }
    } else {
        ConnectErrorView::Other(chain)
    }
}

/// Find out what a connection that could not be made means.
pub fn classify_connect_error(endpoint: &str, err: ConnectFailure) -> (r: ConnectError)
    ensures
        r@ == classified(endpoint@, err.text@, err.os()),
{
    if text::contains_text(err.text.as_str(), "owned by uid") || text::contains_text(
        err.text.as_str(),
        "accessible to other users",
    ) {
        return ConnectError::Forbidden(err.text);
    }
    if let Some(io) = &err.io {
        if io.kind == IoKind::NotFound || io.kind == IoKind::ConnectionRefused || io.kind
            == IoKind::AddrNotAvailable {
            return ConnectError::NotRunning {
                endpoint: endpoint.to_owned(),
                detail: io.detail.clone(),
            };
        }
    }
    // The socket layer may wrap the operating system's error, so fall back to
    // matching the message.
    if text::contains_text(err.text.as_str(), "No such file") || text::contains_text(
        err.text.as_str(),
        "Connection refused",
    ) {
        return ConnectError::NotRunning { endpoint: endpoint.to_owned(), detail: err.text };
    }
    ConnectError::Other(err.text)
}

/// What the socket's directory rules out before connecting: one that is not
/// ours, or that others can use, is never connected through.
pub open spec fn directory_verdict(
    endpoint: Seq<char>,
    dir: Seq<char>,
    stat: Result<DirStat, IoFailure>,
    user: u32,
) -> Option<ConnectErrorView> {
    match stat {
        Err(e) => Some(
            classified(
                endpoint,
                "stat "@ + dir + ": "@ + e.detail@,
                Some((e.kind, e.detail@)),
            ),
        ),
        Ok(s) => if !s.is_dir {
            Some(classified(endpoint, dir + " is not a directory"@, None))
        } else if s.owner != user {
            Some(ConnectErrorView::Forbidden(endpoint::other_owner_text(dir, s.owner, user)))
        } else if s.mode % 0o100 != 0 {
            Some(ConnectErrorView::Forbidden(endpoint::accessible_text(dir, s.mode % 0o1000)))
        } else {
            None
        },
    }
}

proof fn lemma_has_middle(a: Seq<char>, b: Seq<char>, c: Seq<char>)
    ensures
        text::has_text(a + b + c, b),
{
    let hay = a + b + c;
    assert(hay.subrange(a.len() as int, a.len() as int + b.len()) =~= b);
    assert(text::occurs_at(hay, b, a.len() as int));
}

proof fn lemma_unsafe_directories_are_forbidden(
    endpoint: Seq<char>,
    dir: Seq<char>,
    owner: u32,
    user: u32,
    mode: u32,
)
    ensures
        classified(endpoint, endpoint::other_owner_text(dir, owner, user), None)
            == ConnectErrorView::Forbidden(endpoint::other_owner_text(dir, owner, user)),
        classified(endpoint, endpoint::accessible_text(dir, mode), None)
            == ConnectErrorView::Forbidden(endpoint::accessible_text(dir, mode)),
{
    reveal_strlit(" is owned by uid ");
    reveal_strlit("owned by uid");
    reveal_strlit(" is accessible to other users (mode ");
    reveal_strlit("accessible to other users");
    let tail = text::decimal_text(owner as nat) + ", not by you (uid "@ + text::decimal_text(
        user as nat,
    ) + ")"@;
    lemma_has_middle(dir + " is owned by uid "@.take(4), "owned by uid"@, " "@ + tail);
    reveal_strlit(" ");
    assert(dir + " is owned by uid "@.take(4) + "owned by uid"@ + (" "@ + tail)
        =~= endpoint::other_owner_text(dir, owner, user));
    let close = text::octal_text(mode as nat) + ")"@;
    let whole = " is accessible to other users (mode "@;
    lemma_has_middle(dir + whole.take(4), "accessible to other users"@, whole.skip(29) + close);
    assert(dir + whole.take(4) + "accessible to other users"@ + (whole.skip(29) + close)
        =~= endpoint::accessible_text(dir, mode));
}

/// Refuse to connect through a directory another user could have created — it
/// would let them answer our requests and read the audio we send. `stat` is what
/// is known of the socket's directory, or why it cannot be looked at.
pub fn check_directory(
    endpoint: &str,
    dir: &str,
    stat: Result<DirStat, IoFailure>,
    user: u32,
) -> (r: Result<(), ConnectError>)
    ensures
        match r {
            Ok(_) => directory_verdict(endpoint@, dir@, stat, user) is None,
            Err(e) => directory_verdict(endpoint@, dir@, stat, user) == Some(e@),
        },
{
    let mut kind = IoKind::Other;
    let facts: Result<DirStat, String> = match stat {
        Ok(s) => Ok(s),
        Err(e) => {
            kind = e.kind;
            Err(e.detail)
        },
    };
    match endpoint::verify_dir_ownership(dir, facts, user) {
        Ok(_) => Ok(()),
        Err(e) => {
            proof {
                let (owner, mode) = match e {
                    DirError::OtherOwner { owner, .. } => (owner, 0u32),
                    DirError::Accessible { mode, .. } => (0u32, mode),
                    _ => (0u32, 0u32),
                };
                lemma_unsafe_directories_are_forbidden(endpoint@, dir@, owner, user, mode);
            }
            let text = e.message();
            let io = match e {
                DirError::Unreadable { detail, .. } => Some(IoFailure { kind, detail }),
                _ => None,
            };
            Err(classify_connect_error(endpoint, ConnectFailure { text, io }))
        },
    }
}

/// What the descriptor of an instance rules out before connecting.
pub open spec fn descriptor_verdict(
    endpoint: Seq<char>,
    descriptor: Option<Descriptor>,
    alive: bool,
) -> Option<ConnectErrorView> {
    match descriptor {
        None => None,
        Some(d) => if !alive {
            Some(
                ConnectErrorView::NotRunning {
                    endpoint,
                    detail: "Handy (pid "@ + text::decimal_text(d.pid as nat)
                        + ") is no longer running"@,
                },
            )
        } else if protocol::PROTOCOL_VERSION < d.min_protocol {
            Some(
                ConnectErrorView::ProtocolMismatch {
                    app_version: d.app_version@,
                    server_protocol: d.protocol,
                    server_min: d.min_protocol,
                    client_protocol: protocol::PROTOCOL_VERSION,
                },
            )
        } else {
            None
        },
    }
}

/// What the first reply of a server means: a greeting gives the server's version
/// and process. Only a client below the server's floor is fatal; a newer server
/// is fine, and an older one too.
pub open spec fn greeting_verdict(reply: Result<Option<ServerFrame>, Seq<char>>) -> Result<
    (Seq<char>, u32),
    ConnectErrorView,
> {
    match reply {
        Ok(Some(ServerFrame::Hello { protocol, min_protocol, app_version, pid })) => {
            if protocol::PROTOCOL_VERSION < min_protocol {
                Err(
                    ConnectErrorView::ProtocolMismatch {
                        app_version: app_version@,
                        server_protocol: protocol,
                        server_min: min_protocol,
                        client_protocol: protocol::PROTOCOL_VERSION,
                    },
                )
            } else {
                Ok((app_version@, pid))
            }
        },
        Ok(Some(ServerFrame::Error { code, message, .. })) => Err(
            ConnectErrorView::Other(code.text() + ": "@ + message@),
        ),
        Ok(_) => Err(
            ConnectErrorView::Other(
                "the running Handy did not greet us; it may be an older build"@,
            ),
        ),
        Err(detail) => Err(ConnectErrorView::Other("reading a reply: "@ + detail)),
    }
}

/// A request on its way to the server.
#[derive(Debug)]
pub struct Outgoing {
    pub frame: ClientFrame,
    /// Bytes that follow the request, where it declares any.
    pub audio: Option<Vec<u8>>,
}

/// What reading a reply needs or gives.
#[derive(Debug)]
pub enum ReplyStep {
    /// Read from the socket, then try again.
    NeedBytes,
    /// Parse this line; it is a reply.
    Parse(Vec<u8>),
    /// The server closed the connection.
    Closed,
    /// The stream cannot be read.
    Failed(String),
}

/// What reading a reply needs or gives, from the bytes that are there.
pub open spec fn reply_step(pending: Seq<u8>, ended: bool, step: ReplyStep) -> bool {
    match protocol::frame_read(pending, ended) {
        Ok(Some(line)) => step matches ReplyStep::Parse(l) && l@ == line,
        Ok(None) => step is Closed,
        Err(ReadError::Incomplete) => step is NeedBytes,
        Err(e) => step matches ReplyStep::Failed(m) && m@ == "reading a reply: "@ + e.text(),
    }
}

/// A connected, handshaken session.
#[derive(Debug)]
pub struct Session {
    pub reader: StreamBuffer,
    pub writer: Vec<Outgoing>,
    pub app_version: String,
    pub server_pid: u32,
}

/// What a reply means to somebody who waits for a result; `None` is the end of the
/// connection. A reply that is not terminal, one from a newer server included,
/// keeps them waiting.
pub open spec fn wait_step(reply: Option<ServerFrame>) -> Result<Option<ServerFrame>, Seq<char>> {
    match reply {
        None => Err("the connection closed before a result arrived"@),
        Some(frame) => if frame.terminal() {
            Ok(Some(frame))
        } else {
            Ok(None)
        },
    }
}

/// What comes of waiting for a result.
pub struct WaitRun {
    /// The replies that were handed on, in that order.
    pub handed: Seq<ServerFrame>,
    /// The replies that are still unread.
    pub unread: Seq<ServerFrame>,
    pub result: Result<ServerFrame, Seq<char>>,
}

/// What comes of waiting for a result on a connection that brings `replies` and
/// then ends: each reply is read, handed on and stepped through, until a step
/// settles it.
pub open spec fn wait_run(replies: Seq<ServerFrame>) -> WaitRun
    decreases replies.len(),
{
    if replies.len() == 0 {
        WaitRun {
            handed: seq![],
            unread: seq![],
            result: match wait_step(None) {
                Err(m) => Err(m),
                Ok(done) => Ok(done->0),
            },
        }
    } else {
        let read = seq![replies[0]];
        let rest = replies.drop_first();
        match wait_step(Some(replies[0])) {
            Ok(Some(frame)) => WaitRun { handed: read, unread: rest, result: Ok(frame) },
            Ok(None) => WaitRun { handed: read + wait_run(rest).handed, ..wait_run(rest) },
            Err(m) => WaitRun { handed: read, unread: rest, result: Err(m) },
        }
    }
}

/// Whether `r` is what a handshake comes to: a session that has read the greeting
/// and nothing else, or the error that the reply means.
pub open spec fn handshaken(
    reader: StreamBuffer,
    reply: Result<Option<ServerFrame>, String>,
    r: Result<Session, ConnectError>,
) -> bool {
    let verdict = greeting_verdict(
        match reply {
            Ok(frame) => Ok(frame),
            Err(e) => Err(e@),
        },
    );
    match r {
        Ok(s) => verdict == Ok::<(Seq<char>, u32), ConnectErrorView>(
            (s.app_version@, s.server_pid),
        ) && s.wf() && s.pending() == reader.pending() && s.ended() == reader.ended()
            && s.outbox() == Seq::<Outgoing>::empty(),
        Err(e) => verdict == Err::<(Seq<char>, u32), ConnectErrorView>(e@),
    }
}

impl Session {
    /// The stream is well formed.
    pub open spec fn wf(&self) -> bool {
        self.reader.wf()
    }

    /// Bytes that arrived and were not read yet.
    pub open spec fn pending(&self) -> Seq<u8> {
        self.reader.pending()
    }

    /// Whether the server has closed its side.
    pub open spec fn ended(&self) -> bool {
        self.reader.ended()
    }

    /// Requests that were not written yet, oldest first.
    pub open spec fn outbox(&self) -> Seq<Outgoing> {
        self.writer@
    }

    /// Before connecting: a descriptor of a process that is gone means the app
    /// crashed, and one that asks for a newer protocol means that connecting is
    /// of no use. Both are said plainly, rather than reporting a confusing
    /// connection refusal.
    pub fn check_descriptor(
        endpoint: &str,
        descriptor: &Option<Descriptor>,
        alive: bool,
    ) -> (r: Result<(), ConnectError>)
        ensures
            match r {
                Ok(_) => descriptor_verdict(endpoint@, *descriptor, alive) is None,
                Err(e) => descriptor_verdict(endpoint@, *descriptor, alive) == Some(e@),
            },
    {
        if let Some(d) = descriptor {
            if !alive {
                return Err(
                    ConnectError::NotRunning {
                        endpoint: endpoint.to_owned(),
                        detail: "Handy (pid ".to_owned().concat(
                            text::decimal(d.pid as u64).as_str(),
                        ).concat(") is no longer running"),
                    },
                );
            }
            if protocol::PROTOCOL_VERSION < d.min_protocol {
                return Err(
                    ConnectError::ProtocolMismatch {
                        app_version: d.app_version.clone(),
                        server_protocol: d.protocol,
                        server_min: d.min_protocol,
                        client_protocol: protocol::PROTOCOL_VERSION,
                    },
                );
            }
        }
        Ok(())
    }

    /// Complete the handshake with the server's first reply; `reader` holds what
    /// else has arrived.
    pub fn connect(reader: StreamBuffer, reply: Result<Option<ServerFrame>, String>) -> (r: Result<
        Self,
        ConnectError,
    >)
        requires
            reader.wf(),
        ensures
            handshaken(reader, reply, r),
    {
        match reply {
            Ok(Some(frame)) => match frame {
                ServerFrame::Hello { protocol, min_protocol, app_version, pid } => {
                    if protocol::PROTOCOL_VERSION < min_protocol {
                        return Err(
                            ConnectError::ProtocolMismatch {
                                app_version,
                                server_protocol: protocol,
                                server_min: min_protocol,
                                client_protocol: protocol::PROTOCOL_VERSION,
                            },
                        );
                    }
                    Ok(Session { reader, writer: Vec::new(), app_version, server_pid: pid })
                },
                ServerFrame::Error { code, message, .. } => Err(
                    ConnectError::Other(
                        code.name().to_owned().concat(": ").concat(message.as_str()),
                    ),
                ),
                _ => Err(
                    ConnectError::Other(
                        "the running Handy did not greet us; it may be an older build".to_owned(),
                    ),
                ),
            },
            Ok(None) => Err(
                ConnectError::Other(
                    "the running Handy did not greet us; it may be an older build".to_owned(),
                ),
            ),
            Err(detail) => Err(
                ConnectError::Other("reading a reply: ".to_owned().concat(detail.as_str())),
            ),
        }
    }

    /// Send a request.
    pub fn send(&mut self, frame: ClientFrame)
        requires
            old(self).wf(),
        ensures
            final(self).wf(),
            final(self).outbox() == old(self).outbox().push((Outgoing { frame, audio: None })),
            final(self).pending() == old(self).pending(),
            final(self).ended() == old(self).ended(),
            final(self).app_version@ == old(self).app_version@,
            final(self).server_pid == old(self).server_pid,
    {
        self.writer.push(Outgoing { frame, audio: None });
    }

    /// Send a request, and its audio immediately after it.
    pub fn send_with_audio(&mut self, frame: ClientFrame, audio: Vec<u8>)
        requires
            old(self).wf(),
        ensures
            final(self).wf(),
            final(self).outbox() == old(self).outbox().push(
                (Outgoing { frame, audio: Some(audio) }),
            ),
            final(self).pending() == old(self).pending(),
            final(self).ended() == old(self).ended(),
            final(self).app_version@ == old(self).app_version@,
            final(self).server_pid == old(self).server_pid,
    {
        self.writer.push(Outgoing { frame, audio: Some(audio) });
    }

    /// Ask the server to abandon the running job.
    pub fn cancel(&mut self)
        requires
            old(self).wf(),
        ensures
            final(self).wf(),
            final(self).outbox() == old(self).outbox().push(
                (Outgoing { frame: ClientFrame::Cancel, audio: None }),
            ),
            final(self).pending() == old(self).pending(),
            final(self).ended() == old(self).ended(),
            final(self).app_version@ == old(self).app_version@,
            final(self).server_pid == old(self).server_pid,
    {
        self.send(ClientFrame::Cancel);
    }

    /// The oldest request that was not written yet.
    pub fn next_outgoing(&mut self) -> (r: Option<Outgoing>)
        requires
            old(self).wf(),
        ensures
            final(self).wf(),
            final(self).pending() == old(self).pending(),
            final(self).ended() == old(self).ended(),
            final(self).app_version@ == old(self).app_version@,
            final(self).server_pid == old(self).server_pid,
            match r {
                Some(out) => old(self).outbox().len() > 0 && out == old(self).outbox()[0]
                    && final(self).outbox() == old(self).outbox().skip(1),
                None => old(self).outbox().len() == 0 && final(self).outbox() == old(
                    self,
                ).outbox(),
            },
    {
        if self.writer.len() == 0 {
            None
        } else {
            let out = self.writer.remove(0);
            assert(self.writer@ =~= old(self).writer@.skip(1));
            Some(out)
        }
    }

    /// Take in bytes that arrived.
    pub fn feed(&mut self, bytes: &[u8])
        requires
            old(self).wf(),
        ensures
            final(self).wf(),
            final(self).pending() == old(self).pending() + bytes@,
            final(self).ended() == old(self).ended(),
            final(self).outbox() == old(self).outbox(),
            final(self).app_version@ == old(self).app_version@,
            final(self).server_pid == old(self).server_pid,
    {
        self.reader.feed(bytes);
    }

    /// Take in that the server closed its side.
    pub fn finish(&mut self)
        requires
            old(self).wf(),
        ensures
            final(self).wf(),
            final(self).pending() == old(self).pending(),
            final(self).ended(),
            final(self).outbox() == old(self).outbox(),
            final(self).app_version@ == old(self).app_version@,
            final(self).server_pid == old(self).server_pid,
    {
        self.reader.finish();
    }

    /// Read one reply.
    pub fn read_frame(&mut self) -> (r: ReplyStep)
        requires
            old(self).wf(),
        ensures
            final(self).wf(),
            reply_step(old(self).pending(), old(self).ended(), r),
            final(self).pending() == old(self).pending().skip(
                protocol::frame_consumed(old(self).pending(), old(self).ended()),
            ),
            final(self).ended() == old(self).ended(),
            final(self).outbox() == old(self).outbox(),
            final(self).app_version@ == old(self).app_version@,
            final(self).server_pid == old(self).server_pid,
    {
        match protocol::read_frame(&mut self.reader) {
            Ok(Some(line)) => ReplyStep::Parse(line),
            Ok(None) => ReplyStep::Closed,
            Err(ReadError::Incomplete) => ReplyStep::NeedBytes,
            Err(e) => ReplyStep::Failed(
                "reading a reply: ".to_owned().concat(e.message().as_str()),
            ),
        }
    }

    /// Wait for a result: a terminal reply is the result, any other keeps waiting,
    /// and a connection that closes first is an error.
    ///
    /// There is deliberately no total timeout: a 20-minute transcription is normal.
    /// The deadline that matters is the gap *between* frames, and that is enforced by
    /// [`IdleWatchdog`].
    pub fn wait_for_result(reply: Option<ServerFrame>) -> (r: Result<Option<ServerFrame>, String>)
        ensures
            match r {
                Ok(done) => wait_step(reply) == Ok::<Option<ServerFrame>, Seq<char>>(done),
                Err(m) => wait_step(reply) == Err::<Option<ServerFrame>, Seq<char>>(m@),
            },
    {
        match reply {
            None => Err("the connection closed before a result arrived".to_owned()),
            Some(frame) => if frame.is_terminal() {
                Ok(Some(frame))
            } else {
                Ok(None)
            },
        }
    }
}

/// The first terminal reply is the result. Every reply up to it, itself and those
/// of a newer server included, is handed on once and in order, and what follows it
/// stays unread.
pub proof fn law_the_first_terminal_reply_is_the_result(replies: Seq<ServerFrame>, k: int)
    requires
        0 <= k < replies.len(),
        replies[k].terminal(),
        forall|i: int| 0 <= i < k ==> !(#[trigger] replies[i]).terminal(),
    ensures
        wait_run(replies).result == Ok::<ServerFrame, Seq<char>>(replies[k]),
        wait_run(replies).handed == replies.take(k + 1),
        wait_run(replies).unread == replies.skip(k + 1),
    decreases k,
{
    let rest = replies.drop_first();
    if k == 0 {
        assert(seq![replies[0]] =~= replies.take(1));
        assert(rest =~= replies.skip(1));
    } else {
        assert(!replies[0].terminal());
        assert forall|i: int| 0 <= i < k - 1 implies !(#[trigger] rest[i]).terminal() by {
            assert(rest[i] == replies[i + 1]);
        }
        law_the_first_terminal_reply_is_the_result(rest, k - 1);
        assert(seq![replies[0]] + rest.take(k) =~= replies.take(k + 1));
        assert(rest.skip(k) =~= replies.skip(k + 1));
    }
}

/// A connection that ends without a terminal reply is an error, after every reply
/// was handed on once and in order.
pub proof fn law_an_end_without_a_result_is_an_error(replies: Seq<ServerFrame>)
    requires
        forall|i: int| 0 <= i < replies.len() ==> !(#[trigger] replies[i]).terminal(),
    ensures
        wait_run(replies).result == Err::<ServerFrame, Seq<char>>(
            "the connection closed before a result arrived"@,
        ),
        wait_run(replies).handed == replies,
        wait_run(replies).unread.len() == 0,
    decreases replies.len(),
{
    if replies.len() == 0 {
        assert(wait_run(replies).handed =~= replies);
    } else {
        let rest = replies.drop_first();
        assert(!replies[0].terminal());
        assert forall|i: int| 0 <= i < rest.len() implies !(#[trigger] rest[i]).terminal() by {
            assert(rest[i] == replies[i + 1]);
        }
        law_an_end_without_a_result_is_an_error(rest);
        assert(seq![replies[0]] + rest =~= replies);
    }
}

// ---------------------------------------------------------------------------
// Connecting
// ---------------------------------------------------------------------------

/// What connecting waits for.
#[derive(Debug, Clone, Copy, PartialEq, Eq, Structural)]
pub enum ConnectPhase {
    New,
    /// The descriptor is being read.
    Descriptor,
    /// The socket's directory is being looked at.
    Directory,
    /// The socket is being connected to.
    Socket,
    /// The server's first reply is being read.
    Greeting,
    Over,
}

/// What connecting comes to next, by its texts.
pub enum ConnectActionView {
    ReadDescriptor(Seq<char>),
    LookAtDirectory(Seq<char>),
    Connect(Seq<char>),
    ReadGreeting,
    Fail(ConnectErrorView),
}

/// A step of connecting.
pub struct ConnectOut {
    pub phase: ConnectPhase,
    pub action: ConnectActionView,
}

/// Connecting that ends with an error.
pub open spec fn connect_fails(e: ConnectErrorView) -> ConnectOut {
    ConnectOut { phase: ConnectPhase::Over, action: ConnectActionView::Fail(e) }
}

/// The directory is fine, or there is none: connect.
pub open spec fn connect_cleared(env: EndpointEnv) -> ConnectOut {
    ConnectOut { phase: ConnectPhase::Socket, action: ConnectActionView::Connect(env.target()) }
}

/// The start: the descriptor comes first.
pub open spec fn connect_started(env: EndpointEnv) -> ConnectOut {
    ConnectOut {
        phase: ConnectPhase::Descriptor,
        action: ConnectActionView::ReadDescriptor(env.descriptor()),
    }
}

/// The descriptor is known, and whether its process is alive. A named pipe has no
/// directory to look at.
pub open spec fn connect_described(
    env: EndpointEnv,
    descriptor: Option<Descriptor>,
    alive: bool,
) -> ConnectOut {
    match descriptor_verdict(env.target(), descriptor, alive) {
        Some(e) => connect_fails(e),
        None => if env.windows {
            connect_cleared(env)
        } else {
            ConnectOut {
                phase: ConnectPhase::Directory,
                action: ConnectActionView::LookAtDirectory(env.socket_dir()),
            }
        },
    }
}

/// The directory was looked at.
pub open spec fn connect_looked(env: EndpointEnv, stat: Result<DirStat, IoFailure>) -> ConnectOut {
    match directory_verdict(env.target(), env.socket_dir(), stat, env.user_id) {
        Some(e) => connect_fails(e),
        None => connect_cleared(env),
    }
}

/// The socket was connected to, or could not be.
pub open spec fn connect_reached(
    env: EndpointEnv,
    result: Result<(), (IoKind, Seq<char>)>,
) -> ConnectOut {
    match result {
        Ok(_) => ConnectOut {
            phase: ConnectPhase::Greeting,
            action: ConnectActionView::ReadGreeting,
        },
        Err((kind, detail)) => connect_fails(
            classified(
                env.target(),
                "connecting to "@ + env.target() + ": "@ + detail,
                Some((kind, detail)),
            ),
        ),
    }
}

/// What connecting comes to next.
#[derive(Debug)]
pub enum ConnectAction {
    /// Read the descriptor, and find out whether its process is alive; continue
    /// with [`Connecting::described`].
    ReadDescriptor(String),
    /// Look at the socket's directory; continue with [`Connecting::looked`].
    LookAtDirectory(String),
    /// Connect to the socket; continue with [`Connecting::reached`].
    Connect(String),
    /// Read the server's first reply; continue with [`Connecting::greeted`].
    ReadGreeting,
    /// Give up.
    Fail(ConnectError),
}

impl ConnectAction {
    /// Whether this is the action that the model asks for.
    pub open spec fn is(self, view: ConnectActionView) -> bool {
        match (self, view) {
            (ConnectAction::ReadDescriptor(p), ConnectActionView::ReadDescriptor(v)) => p@ == v,
            (ConnectAction::LookAtDirectory(p), ConnectActionView::LookAtDirectory(v)) => p@ == v,
            (ConnectAction::Connect(p), ConnectActionView::Connect(v)) => p@ == v,
            (ConnectAction::ReadGreeting, ConnectActionView::ReadGreeting) => true,
            (ConnectAction::Fail(e), ConnectActionView::Fail(v)) => e@ == v,
            _ => false,
        }
    }
}

/// A connection on its way, from the descriptor to the greeting. Nothing is
/// connected to before the descriptor and the directory have been found fine.
#[derive(Debug)]
pub struct Connecting {
    pub env: EndpointEnv,
    pub phase: ConnectPhase,
}

impl Connecting {
    /// A connection to the instance that `env` points at.
    pub fn new(env: EndpointEnv) -> (r: Self)
        ensures
            r == (Connecting { env, phase: ConnectPhase::New }),
    {
        Connecting { env, phase: ConnectPhase::New }
    }

    /// Begin.
    pub fn start(&mut self) -> (r: ConnectAction)
        requires
            old(self).phase == ConnectPhase::New,
        ensures
            *final(self) == (Connecting {
                phase: connect_started(old(self).env).phase,
                ..*old(self)
            }),
            r.is(connect_started(old(self).env).action),
    {
        self.phase = ConnectPhase::Descriptor;
        ConnectAction::ReadDescriptor(endpoint::descriptor_path(&self.env))
    }

    fn fail(&mut self, e: ConnectError) -> (r: ConnectAction)
        ensures
            *final(self) == (Connecting { phase: ConnectPhase::Over, ..*old(self) }),
            r == ConnectAction::Fail(e),
    {
        self.phase = ConnectPhase::Over;
        ConnectAction::Fail(e)
    }

    /// The descriptor was read, where there is one; `alive` says whether its
    /// process is.
    pub fn described(&mut self, descriptor: &Option<Descriptor>, alive: bool) -> (r: ConnectAction)
        requires
            old(self).phase == ConnectPhase::Descriptor,
        ensures
            ({
                let out = connect_described(old(self).env, *descriptor, alive);
                &&& *final(self) == (Connecting { phase: out.phase, ..*old(self) })
                &&& r.is(out.action)
            }),
    {
        let target = endpoint::transport_name(&self.env);
        match Session::check_descriptor(target.as_str(), descriptor, alive) {
            Err(e) => self.fail(e),
            Ok(_) => if self.env.windows {
                self.phase = ConnectPhase::Socket;
                ConnectAction::Connect(target)
            } else {
                self.phase = ConnectPhase::Directory;
                ConnectAction::LookAtDirectory(endpoint::socket_dir(&self.env))
            },
        }
    }

    /// The socket's directory was looked at.
    pub fn looked(&mut self, stat: Result<DirStat, IoFailure>) -> (r: ConnectAction)
        requires
            old(self).phase == ConnectPhase::Directory,
        ensures
            ({
                let out = connect_looked(old(self).env, stat);
                &&& *final(self) == (Connecting { phase: out.phase, ..*old(self) })
                &&& r.is(out.action)
            }),
    {
        let target = endpoint::transport_name(&self.env);
        let dir = endpoint::socket_dir(&self.env);
        match check_directory(target.as_str(), dir.as_str(), stat, self.env.user_id) {
            Err(e) => self.fail(e),
            Ok(_) => {
                self.phase = ConnectPhase::Socket;
                ConnectAction::Connect(target)
            },
        }
    }

    /// The socket was connected to, or could not be.
    pub fn reached(&mut self, result: Result<(), IoFailure>) -> (r: ConnectAction)
        requires
            old(self).phase == ConnectPhase::Socket,
        ensures
            ({
                let out = connect_reached(old(self).env, transport::attempted(result));
                &&& *final(self) == (Connecting { phase: out.phase, ..*old(self) })
                &&& r.is(out.action)
            }),
    {
        match result {
            Ok(_) => {
                self.phase = ConnectPhase::Greeting;
                ConnectAction::ReadGreeting
            },
            Err(io) => {
                let target = endpoint::transport_name(&self.env);
                let text = "connecting to ".to_owned().concat(target.as_str()).concat(": ").concat(
                    io.detail.as_str(),
                );
                let e = classify_connect_error(
                    target.as_str(),
                    ConnectFailure { text, io: Some(io) },
                );
                self.fail(e)
            },
        }
    }

    /// The server's first reply was read, or could not be; `reader` holds what
    /// else has arrived.
    pub fn greeted(
        &mut self,
        reader: StreamBuffer,
        reply: Result<Option<ServerFrame>, String>,
    ) -> (r: Result<Session, ConnectError>)
        requires
            old(self).phase == ConnectPhase::Greeting,
            reader.wf(),
        ensures
            *final(self) == (Connecting { phase: ConnectPhase::Over, ..*old(self) }),
            handshaken(reader, reply, r),
    {
        self.phase = ConnectPhase::Over;
        Session::connect(reader, reply)
    }
}

/// What came of a piece of the work of connecting.
pub enum ConnectEvent {
    Start,
    Described { descriptor: Option<Descriptor>, alive: bool },
    Looked(Result<DirStat, IoFailure>),
    Reached(Result<(), (IoKind, Seq<char>)>),
}

/// The step that follows a report; `None` where it is not waited for.
pub open spec fn connect_next(
    env: EndpointEnv,
    phase: ConnectPhase,
    event: ConnectEvent,
) -> Option<ConnectOut> {
    match (phase, event) {
        (ConnectPhase::New, ConnectEvent::Start) => Some(connect_started(env)),
        (ConnectPhase::Descriptor, ConnectEvent::Described { descriptor, alive }) => Some(
            connect_described(env, descriptor, alive),
        ),
        (ConnectPhase::Directory, ConnectEvent::Looked(stat)) => Some(connect_looked(env, stat)),
        (ConnectPhase::Socket, ConnectEvent::Reached(result)) => Some(
            connect_reached(env, result),
        ),
        _ => None,
    }
}

/// What connecting waits for after `events`; reports that it does not wait for
/// change nothing.
pub open spec fn connect_after(env: EndpointEnv, events: Seq<ConnectEvent>) -> ConnectPhase
    decreases events.len(),
{
    if events.len() == 0 {
        ConnectPhase::New
    } else {
        let phase = connect_after(env, events.drop_last());
        match connect_next(env, phase, events.last()) {
            Some(out) => out.phase,
            None => phase,
        }
    }
}

/// Whether a report shows a directory that belongs to `user` and that nobody else
/// can use.
pub open spec fn shows_private_directory(event: ConnectEvent, user: u32) -> bool {
    event matches ConnectEvent::Looked(Ok(s)) && s.is_dir && s.owner == user && s.mode % 0o100 == 0
}

/// Whether a report shows a descriptor that rules nothing out, or that there is
/// none.
pub open spec fn shows_usable_descriptor(env: EndpointEnv, event: ConnectEvent) -> bool {
    event matches ConnectEvent::Described { descriptor, alive } && descriptor_verdict(
        env.target(),
        descriptor,
        alive,
    ) is None
}

proof fn lemma_connect_history(env: EndpointEnv, events: Seq<ConnectEvent>)
    ensures
        ({
            let phase = connect_after(env, events);
            let linked = phase is Socket || phase is Greeting;
            &&& phase is Directory || linked ==> exists|i: int|
                0 <= i < events.len() && shows_usable_descriptor(env, #[trigger] events[i])
            &&& linked && !env.windows ==> exists|i: int|
                0 <= i < events.len() && shows_private_directory(#[trigger] events[i], env.user_id)
        }),
    decreases events.len(),
{
    if events.len() > 0 {
        let before = events.drop_last();
        lemma_connect_history(env, before);
        assert(events[events.len() - 1] == events.last());
        if exists|i: int|
            0 <= i < before.len() && shows_usable_descriptor(env, #[trigger] before[i]) {
            let i = choose|i: int|
                0 <= i < before.len() && shows_usable_descriptor(env, #[trigger] before[i]);
            assert(shows_usable_descriptor(env, events[i]));
        }
        if exists|i: int|
            0 <= i < before.len() && shows_private_directory(#[trigger] before[i], env.user_id) {
            let i = choose|i: int|
                0 <= i < before.len() && shows_private_directory(#[trigger] before[i], env.user_id);
            assert(shows_private_directory(events[i], env.user_id));
        }
    }
}

/// Nothing is connected to, let alone sent, before the descriptor was found usable
/// and, wherever the socket lies in a directory, that directory was found to be the
/// user's own and closed to everybody else.
pub proof fn law_no_connection_through_an_unsafe_directory(
    env: EndpointEnv,
    events: Seq<ConnectEvent>,
)
    requires
        connect_after(env, events) is Socket || connect_after(env, events) is Greeting,
    ensures
        exists|i: int|
            0 <= i < events.len() && shows_usable_descriptor(env, #[trigger] events[i]),
        !env.windows ==> exists|i: int|
            0 <= i < events.len() && shows_private_directory(#[trigger] events[i], env.user_id),
{
    lemma_connect_history(env, events);
}

/// A connection is asked for in exactly one state, so what leads to that state
/// leads to every connection: the socket is never reached on another way.
pub proof fn law_connecting_waits_for_its_checks(
    env: EndpointEnv,
    phase: ConnectPhase,
    event: ConnectEvent,
)
    ensures
        connect_next(env, phase, event) matches Some(out) ==> {
            &&& out.action is Connect <==> out.phase is Socket
            &&& out.action matches ConnectActionView::Connect(target) ==> target == env.target()
            &&& out.action is ReadGreeting ==> phase is Socket
            &&& out.action is Fail <==> out.phase is Over
        },
{
}

// ---------------------------------------------------------------------------
// Watchdog
// ---------------------------------------------------------------------------

/// How often the watchdog looks at the clock, in milliseconds.
pub const WATCHDOG_POLL_MS: u64 = 500;

/// What a watchdog knows; all times in nanoseconds.
pub struct WatchdogView {
    pub last_seen: u128,
    pub timeout: u128,
    pub stopped: bool,
    pub tripped: bool,
}

/// Whether a watchdog trips at `now`: the silence is longer than the timeout,
/// and it was neither stopped nor tripped before.
pub open spec fn trips(v: WatchdogView, now: u128) -> bool {
    !v.stopped && !v.tripped && now - v.last_seen > v.timeout
}

/// Trips if no frame arrives within a timeout. It must be `tick`ed on every
/// received frame.
#[derive(Debug)]
pub struct IdleWatchdog {
    pub last_seen: u128,
    pub timeout: u128,
    pub stop: bool,
    pub tripped: bool,
}

impl IdleWatchdog {
    /// What the watchdog knows.
    pub open spec fn view(&self) -> WatchdogView {
        WatchdogView {
            last_seen: self.last_seen,
            timeout: self.timeout,
            stopped: self.stop,
            tripped: self.tripped,
        }
    }

    /// A watchdog that starts counting at `now`.
    pub fn spawn(timeout: u128, now: u128) -> (r: Self)
        ensures
            r@ == (WatchdogView { last_seen: now, timeout, stopped: false, tripped: false }),
    {
        IdleWatchdog { last_seen: now, timeout, stop: false, tripped: false }
    }

    /// A frame arrived.
    pub fn tick(&mut self, now: u128)
        ensures
            final(self)@ == (WatchdogView { last_seen: now, ..old(self)@ }),
    {
        self.last_seen = now;
    }

    /// Look at the clock. Returns whether the watchdog trips now, which it does
    /// at most once.
    pub fn poll(&mut self, now: u128) -> (r: bool)
        ensures
            r == trips(old(self)@, now),
            final(self)@ == (WatchdogView { tripped: old(self)@.tripped || r, ..old(self)@ }),
    {
        if self.stop || self.tripped {
            return false;
        }
        if now > self.last_seen && now - self.last_seen > self.timeout {
            self.tripped = true;
            true
        } else {
            false
        }
    }

    /// The wait is over.
    pub fn stop(&mut self)
        ensures
            final(self)@ == (WatchdogView { stopped: true, ..old(self)@ }),
    {
        self.stop = true;
    }
}

/// The watchdog bounds silence, not total runtime: as long as the last frame is
/// no older than the timeout it never trips, however long the job takes.
pub proof fn law_the_watchdog_bounds_silence(v: WatchdogView, now: u128)
    requires
        now - v.last_seen <= v.timeout,
    ensures
        !trips(v, now),
{
}

/// A watchdog trips at most once, and never after it was stopped.
pub proof fn law_the_watchdog_trips_once(v: WatchdogView, now: u128, later: u128)
    ensures
        trips(v, now) ==> !trips(WatchdogView { tripped: true, ..v }, later),
        !trips(WatchdogView { stopped: true, ..v }, later),
{
}

// ---------------------------------------------------------------------------
// Interrupts
// ---------------------------------------------------------------------------

/// What an interrupt does.
#[derive(Debug, Clone, Copy, PartialEq, Eq, Structural)]
pub enum Interrupt {
    /// Cancel the running job.
    Cancel,
    /// End the process with this status.
    Exit(i32),
}

/// Turns interrupts into actions: the first cancels the running job, a further
/// one kills the process.
#[derive(Debug)]
pub struct InterruptWatcher {
    first: bool,
}

/// A watcher that has seen nothing. Even without one the server notices the
/// disconnect and stops — this makes the common case graceful.
pub fn spawn_interrupt_watcher() -> (r: InterruptWatcher)
    ensures
        r.fresh(),
{
    InterruptWatcher { first: true }
}

impl InterruptWatcher {
    /// Whether no interrupt came yet.
    pub closed spec fn fresh(&self) -> bool {
        self.first
    }

    /// An interrupt came.
    pub fn interrupted(&mut self) -> (r: Interrupt)
        ensures
            r == (if old(self).fresh() {
                Interrupt::Cancel
            } else {
                Interrupt::Exit(130)
            }),
            !final(self).fresh(),
    {
        if self.first {
            self.first = false;
            Interrupt::Cancel
        } else {
            Interrupt::Exit(130)
        }
    }
}

/// What is said of a failed connection carries its facts: where nothing listens and
/// why, which protocols do not match, and what is wrong with the directory.
pub proof fn law_an_error_tells_its_facts(e: ConnectError)
    ensures
        match e {
            ConnectError::NotRunning { endpoint, detail } => {
                &&& e@ is NotRunning
                &&& text::has_text(e@.text(), endpoint@)
                &&& text::has_text(e@.text(), detail@)
            },
            ConnectError::ProtocolMismatch {
                app_version,
                server_protocol,
                server_min,
                client_protocol,
            } => {
                &&& e@ is ProtocolMismatch
                &&& text::has_text(e@.text(), app_version@)
                &&& text::has_text(
                    e@.text(),
                    " speaks CLI protocol "@ + text::decimal_text(server_protocol as nat)
                        + " (accepts >= "@ + text::decimal_text(server_min as nat)
                        + "), this build speaks "@ + text::decimal_text(client_protocol as nat),
                )
            },
            ConnectError::Forbidden(detail) => e@ is Forbidden && text::has_text(
                e@.text(),
                detail@,
            ),
            ConnectError::Other(detail) => e@ is Other && e@.text() == detail@,
        },
{
    match e {
        ConnectError::NotRunning { endpoint, detail } => {
            let head = "no running Handy instance (nothing listening at "@;
            let tail = ")\n  start Handy, or pass --local to transcribe in this process"@;
            lemma_has_middle(head, endpoint@, ": "@ + detail@ + tail);
            assert(head + endpoint@ + (": "@ + detail@ + tail) =~= e@.text());
            lemma_has_middle(head + endpoint@ + ": "@, detail@, tail);
        },
        ConnectError::ProtocolMismatch {
            app_version,
            server_protocol,
            server_min,
            client_protocol,
        } => {
            reveal_strlit(") speaks CLI protocol ");
            reveal_strlit(" speaks CLI protocol ");
            reveal_strlit(")");
            let head = "the running Handy ("@;
            let middle = " speaks CLI protocol "@ + text::decimal_text(server_protocol as nat)
                + " (accepts >= "@ + text::decimal_text(server_min as nat)
                + "), this build speaks "@ + text::decimal_text(client_protocol as nat);
            let tail = "\n  restart Handy so both sides match"@;
            lemma_has_middle(head, app_version@, ")"@ + middle + tail);
            assert(head + app_version@ + (")"@ + middle + tail) =~= e@.text());
            lemma_has_middle(head + app_version@ + ")"@, middle, tail);
            assert(head + app_version@ + ")"@ + middle + tail =~= e@.text());
        },
        ConnectError::Forbidden(detail) => {
            lemma_has_middle(
                "refusing to use the control socket: "@,
                detail@,
                "\n  fix the directory's ownership and permissions, then retry"@,
            );
        },
        ConnectError::Other(_) => {},
    }
}

/// What a failed connection means: a directory that is not safely ours is always
/// said to be that; else a missing, refusing or unreachable socket means that
/// nothing is running there, whether the operating system says so or the message
/// does; everything else is told as it is.
pub proof fn law_what_a_failed_connection_means(
    endpoint: Seq<char>,
    chain: Seq<char>,
    kind: IoKind,
    detail: Seq<char>,
)
    ensures
        ({
            let unsafe_dir = text::has_text(chain, "owned by uid"@) || text::has_text(
                chain,
                "accessible to other users"@,
            );
            let absent = text::has_text(chain, "No such file"@) || text::has_text(
                chain,
                "Connection refused"@,
            );
            let with_os = classified(endpoint, chain, Some((kind, detail)));
            let without = classified(endpoint, chain, None);
            &&& with_os is Forbidden <==> unsafe_dir
            &&& without is Forbidden <==> unsafe_dir
            &&& unsafe_dir ==> with_os == ConnectErrorView::Forbidden(chain) && without
                == ConnectErrorView::Forbidden(chain)
            &&& !unsafe_dir && (kind == IoKind::NotFound || kind == IoKind::ConnectionRefused
                || kind == IoKind::AddrNotAvailable) ==> with_os == (ConnectErrorView::NotRunning {
                endpoint,
                detail,
            })
            &&& !unsafe_dir && (kind == IoKind::AddrInUse || kind == IoKind::Other) ==> with_os
                == without
            &&& !unsafe_dir && absent ==> without == (ConnectErrorView::NotRunning {
                endpoint,
                detail: chain,
            })
            &&& !unsafe_dir && !absent ==> without == ConnectErrorView::Other(chain)
        }),
{
}

/// A directory is connected through exactly where it is one, is the user's own, and
/// has no permission for anybody else; one that others own or can use is refused,
/// and never taken for a missing instance.
pub proof fn law_which_directories_are_refused(
    endpoint: Seq<char>,
    dir: Seq<char>,
    s: DirStat,
    user: u32,
)
    ensures
        directory_verdict(endpoint, dir, Ok(s), user) is None <==> s.is_dir && s.owner == user
            && s.mode % 64 == 0,
        s.is_dir && s.owner != user ==> (directory_verdict(
            endpoint,
            dir,
            Ok(s),
            user,
        ) matches Some(e) && e is Forbidden),
        s.is_dir && s.owner == user && s.mode % 64 != 0 ==> (directory_verdict(
            endpoint,
            dir,
            Ok(s),
            user,
        ) matches Some(e) && e is Forbidden),
        forall|e: IoFailure|
            directory_verdict(endpoint, dir, Err::<DirStat, IoFailure>(e), user) is Some,
{
}

/// What a descriptor says before anything is connected to: an instance whose process
/// is gone is not running, named by its process; one that asks for a newer protocol
/// does not match, with its own numbers; anything else may be connected to.
pub proof fn law_what_a_descriptor_says(endpoint: Seq<char>, d: Descriptor)
    ensures
        forall|alive: bool| descriptor_verdict(endpoint, None, alive) is None,
        descriptor_verdict(endpoint, Some(d), false) matches Some(e) && e is NotRunning && (
        e->endpoint == endpoint) && text::has_text(e->detail, text::decimal_text(d.pid as nat)),
        descriptor_verdict(endpoint, Some(d), true) is None <==> d.min_protocol <= 1,
        d.min_protocol > 1 ==> descriptor_verdict(endpoint, Some(d), true) == Some(
            ConnectErrorView::ProtocolMismatch {
                app_version: d.app_version@,
                server_protocol: d.protocol,
                server_min: d.min_protocol,
                client_protocol: 1,
            },
        ),
{
    lemma_has_middle(
        "Handy (pid "@,
        text::decimal_text(d.pid as nat),
        ") is no longer running"@,
    );
}

/// What a greeting says: the server's version and process are its own; only a server
/// that asks for more than this build speaks is refused, with its own numbers,
/// however new its protocol is.
pub proof fn law_what_a_greeting_says(
    protocol: u32,
    min_protocol: u32,
    app_version: String,
    pid: u32,
    other: ServerFrame,
    detail: Seq<char>,
)
    ensures
        ({
            let hello = ServerFrame::Hello { protocol, min_protocol, app_version, pid };
            let verdict = greeting_verdict(Ok(Some(hello)));
            &&& min_protocol <= 1 ==> verdict == Ok::<(Seq<char>, u32), ConnectErrorView>(
                (app_version@, pid),
            )
            &&& min_protocol > 1 ==> verdict == Err::<(Seq<char>, u32), ConnectErrorView>(
                ConnectErrorView::ProtocolMismatch {
                    app_version: app_version@,
                    server_protocol: protocol,
                    server_min: min_protocol,
                    client_protocol: 1,
                },
            )
        }),
        !(other is Hello) ==> (greeting_verdict(Ok(Some(other))) matches Err(e) && e is Other),
        other matches ServerFrame::Error { code, message, .. } ==> greeting_verdict(Ok(Some(other)))
            == Err::<(Seq<char>, u32), ConnectErrorView>(
            ConnectErrorView::Other(code.text() + ": "@ + message@),
        ),
        greeting_verdict(Ok(None)) matches Err(e) && e is Other,
        greeting_verdict(Err(detail)) == Err::<(Seq<char>, u32), ConnectErrorView>(
            ConnectErrorView::Other("reading a reply: "@ + detail),
        ),
{
}

/// A handshake gives a session exactly where the greeting is fine; the session knows
/// who greeted, has lost nothing that came behind the greeting, and has sent
/// nothing yet.
pub proof fn law_a_session_knows_who_greeted(
    reader: StreamBuffer,
    protocol: u32,
    min_protocol: u32,
    app_version: String,
    pid: u32,
    r: Result<Session, ConnectError>,
)
    requires
        handshaken(
            reader,
            Ok(Some(ServerFrame::Hello { protocol, min_protocol, app_version, pid })),
            r,
        ),
    ensures
        r is Ok <==> min_protocol <= 1,
        r matches Ok(s) ==> s.app_version@ == app_version@ && s.server_pid == pid && s.pending()
            == reader.pending() && s.ended() == reader.ended() && s.outbox().len() == 0,
        r matches Err(e) ==> e@ is ProtocolMismatch,
{
}

/// A result or an error ends the wait, and nothing else does.
pub proof fn law_what_ends_a_wait(frame: ServerFrame)
    ensures
        frame is Result || frame is Error ==> wait_step(Some(frame)) == Ok::<
            Option<ServerFrame>,
            Seq<char>,
        >(Some(frame)),
        !(frame is Result || frame is Error) ==> wait_step(Some(frame)) == Ok::<
            Option<ServerFrame>,
            Seq<char>,
        >(None),
{
}

/// What a reply step brings: the line that was read and no other, and the end of the
/// connection only where nothing is left.
pub proof fn law_what_a_reply_step_brings(pending: Seq<u8>, ended: bool, step: ReplyStep)
    requires
        reply_step(pending, ended, step),
    ensures
        match step {
            ReplyStep::Parse(line) => protocol::frame_read(pending, ended) == Ok::<
                Option<Seq<u8>>,
                ReadError,
            >(Some(line@)),
            ReplyStep::Closed => protocol::frame_read(pending, ended) == Ok::<
                Option<Seq<u8>>,
                ReadError,
            >(None),
            ReplyStep::NeedBytes => protocol::frame_read(pending, ended) == Err::<
                Option<Seq<u8>>,
                ReadError,
            >(ReadError::Incomplete),
            ReplyStep::Failed(message) => protocol::frame_read(pending, ended) matches Err(e)
                && message@ == "reading a reply: "@ + e.text(),
        },
{
}

/// How connecting goes on: the instance's own descriptor is read first; what it or
/// the directory rules out fails with that reason; a socket that cannot be
/// reached fails with what the operating system says of it; and everything that is
/// fine leads on.
pub proof fn law_how_connecting_goes(
    env: EndpointEnv,
    descriptor: Option<Descriptor>,
    alive: bool,
    stat: Result<DirStat, IoFailure>,
    kind: IoKind,
    detail: Seq<char>,
)
    ensures
        connect_started(env).action == ConnectActionView::ReadDescriptor(env.descriptor()),
        match descriptor_verdict(env.target(), descriptor, alive) {
            Some(e) => connect_described(env, descriptor, alive).action
                == ConnectActionView::Fail(e),
            None => {
                &&& env.windows ==> connect_described(env, descriptor, alive).action
                    == ConnectActionView::Connect(env.target())
                &&& !env.windows ==> connect_described(env, descriptor, alive).action
                    == ConnectActionView::LookAtDirectory(env.socket_dir())
            },
        },
        match directory_verdict(env.target(), env.socket_dir(), stat, env.user_id) {
            Some(e) => connect_looked(env, stat).action == ConnectActionView::Fail(e),
            None => connect_looked(env, stat).action == ConnectActionView::Connect(env.target()),
        },
        connect_reached(env, Ok(())).action is ReadGreeting,
        connect_reached(env, Ok(())).phase is Greeting,
        connect_reached(env, Err((kind, detail))).action == ConnectActionView::Fail(
            classified(
                env.target(),
                "connecting to "@ + env.target() + ": "@ + detail,
                Some((kind, detail)),
            ),
        ),
{
}

/// An action that stands for one of the model's carries the same values.
pub proof fn law_a_connect_action_carries_its_values(
    action: ConnectAction,
    view: ConnectActionView,
)
    requires
        action.is(view),
    ensures
        match action {
            ConnectAction::ReadDescriptor(p) => view == ConnectActionView::ReadDescriptor(p@),
            ConnectAction::LookAtDirectory(p) => view == ConnectActionView::LookAtDirectory(p@),
            ConnectAction::Connect(p) => view == ConnectActionView::Connect(p@),
            ConnectAction::ReadGreeting => view is ReadGreeting,
            ConnectAction::Fail(e) => view == ConnectActionView::Fail(e@),
        },
{
}

/// A watchdog that was neither stopped nor tripped trips as soon as the silence is
/// longer than its timeout, and every frame starts the silence anew.
pub proof fn law_the_watchdog_does_bite(v: WatchdogView, now: u128)
    requires
        !v.stopped,
        !v.tripped,
    ensures
        now > v.last_seen + v.timeout ==> trips(v, now),
        now <= v.last_seen + v.timeout ==> !trips(v, now),
        !trips((WatchdogView { last_seen: now, ..v }), now),
{
}

/// The operating system's part of a failure is taken as it is.
pub proof fn law_a_failure_keeps_its_cause(f: ConnectFailure)
    ensures
        match f.io {
            Some(io) => f.os() == Some((io.kind, io.detail@)),
            None => f.os() is None,
        },
{
}

} // verus!
