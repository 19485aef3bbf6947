//! Where the control socket lives, and how client and server agree on it.
//!
//! Both sides compute the path with the same functions, so they cannot drift.
//! The socket sits inside a `0700` directory owned by the current user: the
//! *directory* is the authorization boundary, which is why there is no token.

use crate::paths;
use crate::text;
use vstd::prelude::*;

verus! {

/// Override the endpoint directory suffix, so a dev build and an installed app
/// can coexist. Read identically by client and server.
pub const IPC_NAME_ENV: &'static str = "HANDY_IPC_NAME";

/// `sun_path` is 104 bytes on macOS and 108 on Linux. Stay well clear.
pub const MAX_SOCKET_PATH_BYTES: usize = 100;

/// Most characters of a suffix that are kept.
pub const MAX_SUFFIX_CHARS: usize = 32;

/// Version of the descriptor file's own shape.
pub const DESCRIPTOR_SCHEMA: u32 = 1;

/// Permission bits of a directory that only its owner can use.
pub const PRIVATE_DIR_MODE: u32 = 0o700;

/// Permission bits of a file that only its owner can use.
pub const PRIVATE_FILE_MODE: u32 = 0o600;

/// Written next to the socket so a client can report a useful error before
/// connecting, and can tell a crashed instance from a live one.
#[derive(Debug, Clone)]
pub struct Descriptor {
    /// Version of this file's own shape.
    pub schema: u32,
    /// Wire protocol the running app speaks.
    pub protocol: u32,
    /// Oldest protocol the running app accepts.
    pub min_protocol: u32,
    pub app_version: String,
    pub pid: u32,
    /// Socket path on Unix, pipe name on Windows.
    pub endpoint: String,
}

/// A directory that an environment variable names.
#[derive(Debug, Clone)]
pub struct DirCandidate {
    pub path: String,
    /// Whether it exists and is a directory.
    pub is_dir: bool,
}

/// What the endpoint depends on.
#[derive(Debug, Clone)]
pub struct EndpointEnv {
    /// What `XDG_RUNTIME_DIR` names.
    pub runtime_dir: Option<DirCandidate>,
    /// What `TMPDIR` names.
    pub temp_dir: Option<DirCandidate>,
    /// Who is asking.
    pub user_id: u32,
    /// What [`IPC_NAME_ENV`] holds.
    pub name: Option<String>,
    /// Whether named pipes take the place of sockets.
    pub windows: bool,
}

/// A file or directory, and the permission bits to give it.
#[derive(Debug)]
pub struct Permissions {
    pub path: String,
    pub mode: u32,
}

// ---------------------------------------------------------------------------
// Model
// ---------------------------------------------------------------------------

/// Whether a character may appear in a suffix.
pub open spec fn suffix_char(c: char) -> bool {
    text::ascii_alphanumeric(c) || c == '-' || c == '_'
}

/// The first `room` characters of `s` that may appear in a suffix.
pub open spec fn suffix_of(s: Seq<char>, room: nat) -> Seq<char>
    decreases s.len(),
{
    if s.len() == 0 || room == 0 {
        Seq::empty()
    } else if suffix_char(s[0]) {
        seq![s[0]] + suffix_of(s.drop_first(), (room - 1) as nat)
    } else {
        suffix_of(s.drop_first(), room)
    }
}

/// What is put behind a name for the suffix in the environment.
pub open spec fn suffix_text(name: Option<Seq<char>>) -> Seq<char> {
    match name {
        Some(s) => if s.len() == 0 {
            Seq::empty()
        } else {
            "-"@ + suffix_of(s, MAX_SUFFIX_CHARS as nat)
        },
        None => Seq::empty(),
    }
}

/// The name of a user's endpoint directory, without a suffix.
pub open spec fn user_dir_name(user: u32) -> Seq<char> {
    "handy-"@ + text::decimal_text(user as nat)
}

impl EndpointEnv {
    /// The directory under which the endpoint directory lies: the runtime
    /// directory, else the temporary directory, else `/tmp`.
    pub open spec fn base(self) -> Seq<char> {
        if self.runtime_dir is Some && self.runtime_dir->0.is_dir {
            self.runtime_dir->0.path@
        } else if self.temp_dir is Some && self.temp_dir->0.is_dir {
            self.temp_dir->0.path@
        } else {
            "/tmp"@
        }
    }

    /// The endpoint directory.
    pub open spec fn dir(self) -> Seq<char> {
        paths::joined(
            self.base(),
            user_dir_name(self.user_id) + suffix_text(text::opt_text(self.name)),
            self.windows,
        )
    }

    /// The endpoint directory that is used where the usual one is too long.
    pub open spec fn short_dir(self) -> Seq<char> {
        paths::joined("/tmp"@, user_dir_name(self.user_id), self.windows)
    }

    /// Whether the socket's usual path is too long to bind.
    pub open spec fn too_long(self) -> bool {
        text::utf8_length(paths::joined(self.dir(), "ipc.sock"@, self.windows))
            > MAX_SOCKET_PATH_BYTES
    }

    /// The directory that holds the socket and the descriptor.
    pub open spec fn socket_dir(self) -> Seq<char> {
        if self.too_long() {
            self.short_dir()
        } else {
            self.dir()
        }
    }

    /// The socket.
    pub open spec fn socket(self) -> Seq<char> {
        paths::joined(self.socket_dir(), "ipc.sock"@, self.windows)
    }

    /// The descriptor, next to the socket.
    pub open spec fn descriptor(self) -> Seq<char> {
        paths::joined(self.socket_dir(), "ipc.json"@, self.windows)
    }

    /// The named pipe that takes the socket's place on Windows.
    pub open spec fn pipe(self) -> Seq<char> {
        "\\\\.\\pipe\\handy-ipc-"@ + text::decimal_text(self.user_id as nat) + suffix_text(
            text::opt_text(self.name),
        )
    }

    /// What to bind or connect to.
    pub open spec fn target(self) -> Seq<char> {
        if self.windows {
            self.pipe()
        } else {
            self.socket()
        }
    }
}

// ---------------------------------------------------------------------------
// Paths
// ---------------------------------------------------------------------------

/// Keep an env-supplied suffix from escaping the directory or breaking a name.
pub fn sanitize(input: &str) -> (r: String)
    ensures
        r@ == suffix_of(input@, MAX_SUFFIX_CHARS as nat),
{
    let chars: Vec<char> = text::chars_of(input);
    let mut kept: Vec<char> = Vec::new();
    let mut i: usize = 0;
    assert(input@.skip(0) =~= input@);
    while i < chars.len() && kept.len() < MAX_SUFFIX_CHARS
        invariant
            i <= chars.len(),
            chars@ == input@,
            kept.len() <= MAX_SUFFIX_CHARS,
            suffix_of(input@, MAX_SUFFIX_CHARS as nat) == kept@ + suffix_of(
                input@.skip(i as int),
                (MAX_SUFFIX_CHARS - kept.len()) as nat,
            ),
        decreases chars.len() - i,
    {
        let c: char = chars[i];
        assert(input@.skip(i as int).drop_first() =~= input@.skip(i + 1));
        if ('a' <= c && c <= 'z') || ('A' <= c && c <= 'Z') || ('0' <= c && c <= '9') || c == '-'
            || c == '_' {
            kept.push(c);
        }
        i = i + 1;
    }
    text::text_of(&kept)
}

fn suffix(name: &Option<String>) -> (r: String)
    ensures
        r@ == suffix_text(text::opt_text(*name)),
{
    match name {
        Some(s) => if s.as_str().is_empty() {
            String::new()
        } else {
            "-".to_owned().concat(sanitize(s.as_str()).as_str())
        },
        None => String::new(),
    }
}

fn user_dir(user: u32) -> (r: String)
    ensures
        r@ == user_dir_name(user),
{
    "handy-".to_owned().concat(text::decimal(user as u64).as_str())
}

/// The directory under which the endpoint directory lies.
pub fn base_dir(env: &EndpointEnv) -> (r: String)
    ensures
        r@ == env.base(),
{
    // A runtime directory is already 0700, on tmpfs, and cleaned at logout.
    if let Some(dir) = &env.runtime_dir {
        if dir.is_dir {
            return dir.path.clone();
        }
    }
    // macOS gives each user a private per-boot temporary directory.
    if let Some(dir) = &env.temp_dir {
        if dir.is_dir {
            return dir.path.clone();
        }
    }
    "/tmp".to_owned()
}

/// Directory of the endpoint, created `0700` on demand.
pub fn endpoint_dir(env: &EndpointEnv) -> (r: String)
    ensures
        r@ == env.dir(),
{
    let name = user_dir(env.user_id).concat(suffix(&env.name).as_str());
    paths::join(base_dir(env).as_str(), name.as_str(), env.windows)
}

/// The directory of the control socket.
pub fn socket_dir(env: &EndpointEnv) -> (r: String)
    ensures
        r@ == env.socket_dir(),
{
    let dir = endpoint_dir(env);
    // A deeply nested temporary directory would otherwise produce a path that
    // binding silently truncates.
    let usual = paths::join(dir.as_str(), "ipc.sock", env.windows);
    if text::byte_length(usual.as_str()) > MAX_SOCKET_PATH_BYTES {
        paths::join("/tmp", user_dir(env.user_id).as_str(), env.windows)
    } else {
        dir
    }
}

/// Path of the control socket (or, on Windows, of the descriptor's directory).
pub fn socket_path(env: &EndpointEnv) -> (r: String)
    ensures
        r@ == env.socket(),
{
    paths::join(socket_dir(env).as_str(), "ipc.sock", env.windows)
}

/// Path of the descriptor.
pub fn descriptor_path(env: &EndpointEnv) -> (r: String)
    ensures
        r@ == env.descriptor(),
{
    paths::join(socket_dir(env).as_str(), "ipc.json", env.windows)
}

/// Name the transport should bind/connect to.
///
/// Unix uses the filesystem path; Windows uses a named pipe, which has no
/// directory to protect, so the name carries the user id instead.
pub fn transport_name(env: &EndpointEnv) -> (r: String)
    ensures
        r@ == env.target(),
{
    if env.windows {
        "\\\\.\\pipe\\handy-ipc-".to_owned().concat(
            text::decimal(env.user_id as u64).as_str(),
        ).concat(suffix(&env.name).as_str())
    } else {
        socket_path(env)
    }
}

// ---------------------------------------------------------------------------
// Permissions
// ---------------------------------------------------------------------------

/// What to do to have the endpoint directory with owner-only permissions.
#[derive(Debug)]
pub enum PrivateDir {
    /// Create it, and whatever directories it lies in.
    Create(Permissions),
    /// Tighten what is there rather than trusting it.
    Tighten(Permissions),
}

/// How to have the endpoint directory with owner-only permissions.
pub fn ensure_private_dir(env: &EndpointEnv, exists: bool) -> (r: PrivateDir)
    ensures
        match r {
            PrivateDir::Create(p) => !exists && p.path@ == env.socket_dir() && p.mode
                == PRIVATE_DIR_MODE,
            PrivateDir::Tighten(p) => exists && p.path@ == env.socket_dir() && p.mode
                == PRIVATE_DIR_MODE,
        },
        match r {
            PrivateDir::Create(p) => p.mode == 0o700,
            PrivateDir::Tighten(p) => p.mode == 0o700,
        },
{
    let wanted = Permissions { path: socket_dir(env), mode: PRIVATE_DIR_MODE };
    if exists {
        PrivateDir::Tighten(wanted)
    } else {
        PrivateDir::Create(wanted)
    }
}

/// What is known of a directory.
#[derive(Debug)]
pub struct DirStat {
    pub is_dir: bool,
    pub owner: u32,
    pub mode: u32,
}

/// Why a directory is not safely ours.
#[derive(Debug)]
pub enum DirError {
    Unreadable { dir: String, detail: String },
    NotADirectory { dir: String },
    OtherOwner { dir: String, owner: u32, user: u32 },
    Accessible { dir: String, mode: u32 },
}

/// What is said of a directory that belongs to somebody else.
pub open spec fn other_owner_text(dir: Seq<char>, owner: u32, user: u32) -> Seq<char> {
    dir + " is owned by uid "@ + text::decimal_text(owner as nat) + ", not by you (uid "@
        + text::decimal_text(user as nat) + ")"@
}

/// What is said of a directory that others can use.
pub open spec fn accessible_text(dir: Seq<char>, mode: u32) -> Seq<char> {
    dir + " is accessible to other users (mode "@ + text::octal_text(mode as nat) + ")"@
}

impl DirError {
    /// What the error says.
    pub open spec fn text(self) -> Seq<char> {
        match self {
            DirError::Unreadable { dir, detail } => "stat "@ + dir@ + ": "@ + detail@,
            DirError::NotADirectory { dir } => dir@ + " is not a directory"@,
            DirError::OtherOwner { dir, owner, user } => other_owner_text(dir@, owner, user),
            DirError::Accessible { dir, mode } => accessible_text(dir@, mode),
        }
    }

    /// What the error says.
    pub fn message(&self) -> (r: String)
        ensures
            r@ == self.text(),
    {
        match self {
            DirError::Unreadable { dir, detail } => "stat ".to_owned().concat(
                dir.as_str(),
            ).concat(": ").concat(detail.as_str()),
            DirError::NotADirectory { dir } => dir.clone().concat(" is not a directory"),
            DirError::OtherOwner { dir, owner, user } => dir.clone().concat(
                " is owned by uid ",
            ).concat(text::decimal(*owner as u64).as_str()).concat(", not by you (uid ").concat(
                text::decimal(*user as u64).as_str(),
            ).concat(")"),
            DirError::Accessible { dir, mode } => dir.clone().concat(
                " is accessible to other users (mode ",
            ).concat(text::octal(*mode as u64).as_str()).concat(")"),
        }
    }
}

/// Refuse to talk through a directory somebody else can write to.
///
/// Cheap defense against a hijacked temporary directory: without it, another
/// local user who can create the directory first could stand up a socket that
/// answers our requests, and would see the audio we send.
pub fn verify_dir_ownership(dir: &str, stat: Result<DirStat, String>, user: u32) -> (r: Result<
    (),
    DirError,
>)
    ensures
        match stat {
            Err(e) => r matches Err(DirError::Unreadable { dir: d, detail }) && d@ == dir@
                && detail@ == e@,
            Ok(s) => if !s.is_dir {
                r matches Err(DirError::NotADirectory { dir: d }) && d@ == dir@
            } else if s.owner != user {
                r matches Err(DirError::OtherOwner { dir: d, owner, user: u }) && d@ == dir@
                    && owner == s.owner && u == user
            } else if s.mode % 0o100 != 0 {
                r matches Err(DirError::Accessible { dir: d, mode }) && d@ == dir@ && mode == s.mode
                    % 0o1000
            } else {
                r is Ok
            },
        },
{
    match stat {
        Err(detail) => Err(DirError::Unreadable { dir: dir.to_owned(), detail }),
        Ok(s) => {
            if !s.is_dir {
                return Err(DirError::NotADirectory { dir: dir.to_owned() });
            }
            if s.owner != user {
                return Err(DirError::OtherOwner { dir: dir.to_owned(), owner: s.owner, user });
            }
            let mode: u32 = s.mode;
            assert(mode & 0o077 == mode % 0o100) by (bit_vector);
            assert(mode & 0o777 == mode % 0o1000) by (bit_vector);
            if mode & 0o077 != 0 {
                return Err(DirError::Accessible { dir: dir.to_owned(), mode: mode & 0o777 });
            }
            Ok(())
        },
    }
}

/// Restrict the socket file itself. Belt and braces — the directory is the real
/// gate, and some platforms ignore socket mode bits entirely.
pub fn restrict_socket_file(path: &str) -> (r: Permissions)
    ensures
        r.path@ == path@,
        r.mode == PRIVATE_FILE_MODE,
        r.mode == 0o600,
{
    Permissions { path: path.to_owned(), mode: PRIVATE_FILE_MODE }
}

// ---------------------------------------------------------------------------
// Descriptor
// ---------------------------------------------------------------------------

/// Where to write the descriptor, and how to protect it.
pub fn write_descriptor(env: &EndpointEnv) -> (r: Permissions)
    ensures
        r.path@ == env.descriptor(),
        r.mode == PRIVATE_FILE_MODE,
        r.mode == 0o600,
{
    Permissions { path: descriptor_path(env), mode: PRIVATE_FILE_MODE }
}

/// What came of reading the descriptor file.
#[derive(Debug)]
pub enum DescriptorFile {
    /// It is there; its descriptor, where it parses.
    Read(Option<Descriptor>),
    NotFound,
    Failed(String),
}

/// The descriptor of the running instance. A missing or unreadable one is none;
/// only a file that exists and cannot be read is an error.
pub fn read_descriptor(env: &EndpointEnv, file: DescriptorFile) -> (r: Result<
    Option<Descriptor>,
    String,
>)
    ensures
        match file {
            DescriptorFile::Read(descriptor) => r == Ok::<Option<Descriptor>, String>(descriptor),
            DescriptorFile::NotFound => r == Ok::<Option<Descriptor>, String>(None),
            DescriptorFile::Failed(e) => r matches Err(m) && m@ == "reading "@ + env.descriptor()
                + ": "@ + e@,
        },
{
    match file {
        DescriptorFile::Read(descriptor) => Ok(descriptor),
        DescriptorFile::NotFound => Ok(None),
        DescriptorFile::Failed(e) => Err(
            "reading ".to_owned().concat(descriptor_path(env).as_str()).concat(": ").concat(
                e.as_str(),
            ),
        ),
    }
}

/// The files to remove on shutdown: the socket and the descriptor.
pub fn cleanup(env: &EndpointEnv) -> (r: Vec<String>)
    ensures
        text::texts(r@) == seq![env.socket(), env.descriptor()],
{
    let mut out: Vec<String> = Vec::new();
    out.push(socket_path(env));
    out.push(descriptor_path(env));
    assert(text::texts(out@) =~= seq![env.socket(), env.descriptor()]);
    out
}

/// Whether a process still exists, from what came of sending it signal 0: that
/// performs error checking without delivering anything. A process that we may
/// not signal exists but belongs to someone else, which still counts as alive.
pub fn process_is_alive(delivered: bool, not_permitted: bool) -> (r: bool)
    ensures
        r == (delivered || not_permitted),
{
    delivered || not_permitted
}

// ---------------------------------------------------------------------------
// Laws
// ---------------------------------------------------------------------------

proof fn lemma_suffix_chars(s: Seq<char>, room: nat)
    ensures
        suffix_of(s, room).len() <= room,
        forall|i: int|
            0 <= i < suffix_of(s, room).len() ==> suffix_char(#[trigger] suffix_of(s, room)[i]),
    decreases s.len(),
{
    if s.len() > 0 && room > 0 {
        if suffix_char(s[0]) {
            lemma_suffix_chars(s.drop_first(), (room - 1) as nat);
        } else {
            lemma_suffix_chars(s.drop_first(), room);
        }
    }
}

/// The suffix cannot escape the base directory: the endpoint directory is one
/// name inside the base, and that name holds no separator and no dot.
pub proof fn law_the_suffix_stays_inside(env: EndpointEnv)
    ensures
        ({
            let name = user_dir_name(env.user_id) + suffix_text(text::opt_text(env.name));
            &&& env.dir() == paths::joined(env.base(), name, env.windows)
            &&& env.base().is_prefix_of(env.dir())
            &&& forall|i: int| 0 <= i < name.len() ==> suffix_char(#[trigger] name[i])
            &&& !name.contains('/') && !name.contains('\\')
            &&& !name.contains('.')
        }),
{
    reveal_strlit("handy-");
    reveal_strlit("-");
    text::lemma_decimal_digits(env.user_id as nat);
    if env.name is Some {
        lemma_suffix_chars(env.name->0@, MAX_SUFFIX_CHARS as nat);
    }
    let name = user_dir_name(env.user_id) + suffix_text(text::opt_text(env.name));
    let head = user_dir_name(env.user_id);
    assert forall|i: int| 0 <= i < name.len() implies suffix_char(#[trigger] name[i]) by {
        if i < 6 {
            assert(name[i] == "handy-"@[i]);
        } else if i < head.len() {
            assert(name[i] == text::decimal_text(env.user_id as nat)[i - 6]);
        } else {
            let tail = suffix_text(text::opt_text(env.name));
            assert(name[i] == tail[i - head.len()]);
            if i - head.len() > 0 {
                assert(tail[i - head.len()] == suffix_of(
                    env.name->0@,
                    MAX_SUFFIX_CHARS as nat,
                )[i - head.len() - 1]);
            }
        }
    }
    assert(name.len() > 0);
    assert forall|i: int| 0 <= i < name.len() implies !paths::separator(
        #[trigger] name[i],
        env.windows,
    ) && name[i] != ':' by {
        assert(suffix_char(name[i]));
    }
    paths::law_a_plain_name_stays_inside(env.base(), name, env.windows);
}

/// The socket's path always fits what binding takes, however deeply the base
/// directory is nested.
pub proof fn law_the_socket_path_fits(env: EndpointEnv)
    ensures
        text::utf8_length(env.socket()) <= MAX_SOCKET_PATH_BYTES,
{
    if env.too_long() {
        reveal_strlit("handy-");
        reveal_strlit("/tmp");
        reveal_strlit("/");
        reveal_strlit("\\");
        reveal_strlit("ipc.sock");
        let digits = text::decimal_text(env.user_id as nat);
        text::lemma_decimal_digits(env.user_id as nat);
        assert(vstd::arithmetic::power::pow(10, 10) == 10_000_000_000) by {
            reveal_with_fuel(vstd::arithmetic::power::pow, 11);
        }
        text::lemma_decimal_length(env.user_id as nat, 10);
        let path = env.socket();
        let mark = if env.windows {
            "\\"@
        } else {
            "/"@
        };
        let name = user_dir_name(env.user_id);
        assert forall|i: int| 0 <= i < name.len() implies !paths::separator(
            #[trigger] name[i],
            env.windows,
        ) && name[i] != ':' by {
            if i >= 6 {
                assert(name[i] == digits[i - 6]);
            }
        }
        paths::law_a_plain_name_stays_inside("/tmp"@, name, env.windows);
        paths::law_a_plain_name_stays_inside(env.short_dir(), "ipc.sock"@, env.windows);
        assert(env.short_dir() =~= "/tmp"@ + mark + ("handy-"@ + digits));
        assert(env.short_dir().last() == digits.last());
        assert(path =~= "/tmp"@ + mark + "handy-"@ + digits + mark + "ipc.sock"@);
        assert forall|i: int| 0 <= i < path.len() implies '\0' <= #[trigger] path[i]
            <= '\u{7f}' by {
            if 11 <= i < 11 + digits.len() {
                assert(path[i] == digits[i - 11]);
            } else if i >= 11 + digits.len() {
                assert(path[i] == (mark + "ipc.sock"@)[i - 11 - digits.len()]);
            } else {
                assert(path[i] == ("/tmp"@ + mark + "handy-"@)[i]);
            }
        }
        vstd::utf8::is_ascii_chars_encode_utf8(path);
    }
}

/// The descriptor lies next to the socket.
pub proof fn law_the_descriptor_is_next_to_the_socket(env: EndpointEnv)
    ensures
        env.socket() == paths::joined(env.socket_dir(), "ipc.sock"@, env.windows),
        env.descriptor() == paths::joined(env.socket_dir(), "ipc.json"@, env.windows),
{
}

/// An empty suffix is no suffix.
pub proof fn law_an_empty_name_is_ignored(env: EndpointEnv, other: EndpointEnv)
    requires
        env.name is None,
        other.name is Some && other.name->0@.len() == 0,
        other.runtime_dir == env.runtime_dir,
        other.temp_dir == env.temp_dir,
        other.user_id == env.user_id,
        other.windows == env.windows,
    ensures
        other.dir() == env.dir(),
        other.target() == env.target(),
        other.descriptor() == env.descriptor(),
{
}

/// The endpoint lies under the runtime directory where there is one, else under the
/// temporary directory where there is one, else under `/tmp`.
pub proof fn law_where_the_endpoint_lies(env: EndpointEnv)
    ensures
        env.runtime_dir matches Some(d) ==> (d.is_dir ==> env.base() == d.path@),
        (env.runtime_dir matches Some(d) ==> !d.is_dir) ==> (env.temp_dir matches Some(t) ==> (
        t.is_dir ==> env.base() == t.path@)),
        (env.runtime_dir matches Some(d) ==> !d.is_dir) && (env.temp_dir matches Some(t)
            ==> !t.is_dir) ==> env.base() == "/tmp"@,
{
}

proof fn lemma_suffix_of_plain(s: Seq<char>, room: nat)
    requires
        forall|i: int| 0 <= i < s.len() ==> suffix_char(#[trigger] s[i]),
    ensures
        s.len() <= room ==> suffix_of(s, room) == s,
        s.len() > room ==> suffix_of(s, room) == s.take(room as int),
    decreases s.len(),
{
    if s.len() > 0 && room > 0 {
        let rest = s.drop_first();
        assert forall|i: int| 0 <= i < rest.len() implies suffix_char(#[trigger] rest[i]) by {
            assert(rest[i] == s[i + 1]);
        }
        lemma_suffix_of_plain(rest, (room - 1) as nat);
        assert(suffix_char(s[0]));
        if s.len() <= room {
            assert(seq![s[0]] + rest =~= s);
        } else {
            assert(seq![s[0]] + rest.take(room - 1) =~= s.take(room as int));
        }
    } else if room == 0 {
        assert(suffix_of(s, room) =~= s.take(0));
        if s.len() == 0 {
            assert(suffix_of(s, room) =~= s);
        }
    } else {
        assert(suffix_of(s, room) =~= s);
    }
}

/// A suffix of plain characters is kept, up to 32 of them; letters and digits are
/// plain, and a dash and an underscore.
pub proof fn law_a_plain_suffix_is_kept(s: Seq<char>)
    requires
        s.len() > 0,
        forall|i: int|
            0 <= i < s.len() ==> ('a' <= #[trigger] s[i] <= 'z' || 'A' <= s[i] <= 'Z' || '0' <= s[i]
                <= '9' || s[i] == '-' || s[i] == '_'),
    ensures
        s.len() <= 32 ==> suffix_text(Some(s)) == "-"@ + s,
        s.len() > 32 ==> suffix_text(Some(s)) == "-"@ + s.take(32),
        suffix_text(None) == Seq::<char>::empty(),
{
    lemma_suffix_of_plain(s, 32);
}

/// Any other character is dropped, wherever it stands, and changes nothing else.
pub proof fn law_other_characters_are_dropped(a: Seq<char>, c: char, b: Seq<char>, room: nat)
    requires
        !('a' <= c <= 'z' || 'A' <= c <= 'Z' || '0' <= c <= '9' || c == '-' || c == '_'),
    ensures
        suffix_of(a + seq![c] + b, room) == suffix_of(a + b, room),
    decreases a.len(),
{
    let with = a + seq![c] + b;
    let without = a + b;
    if room > 0 {
        if a.len() == 0 {
            assert(with[0] == c);
            assert(with.drop_first() =~= without);
        } else {
            let rest = a.drop_first();
            assert(with.drop_first() =~= rest + seq![c] + b);
            assert(without.drop_first() =~= rest + b);
            assert(with[0] == a[0] && without[0] == a[0]);
            law_other_characters_are_dropped(rest, c, b, (room - 1) as nat);
            law_other_characters_are_dropped(rest, c, b, room);
        }
    }
}

/// The short directory is used exactly where the usual path would be longer than a
/// hundred bytes; both are named after the user.
pub proof fn law_when_the_short_directory_is_used(env: EndpointEnv)
    ensures
        text::utf8_length(paths::joined(env.dir(), "ipc.sock"@, env.windows)) > 100
            ==> env.socket_dir() == paths::joined(
            "/tmp"@,
            "handy-"@ + text::decimal_text(env.user_id as nat),
            env.windows,
        ),
        text::utf8_length(paths::joined(env.dir(), "ipc.sock"@, env.windows)) <= 100
            ==> env.socket_dir() == env.dir(),
        env.dir() == paths::joined(
            env.base(),
            "handy-"@ + text::decimal_text(env.user_id as nat) + suffix_text(
                text::opt_text(env.name),
            ),
            env.windows,
        ),
{
}

/// Different users have different directories.
pub proof fn law_users_do_not_share_a_directory(a: u32, b: u32)
    requires
        user_dir_name(a) == user_dir_name(b),
    ensures
        a == b,
{
    reveal_strlit("handy-");
    assert(user_dir_name(a).skip(6) =~= text::decimal_text(a as nat));
    assert(user_dir_name(b).skip(6) =~= text::decimal_text(b as nat));
    text::lemma_decimal_injective(a as nat, b as nat);
}

/// What is connected to: the socket, or on Windows a pipe that is named after the
/// user and the suffix.
pub proof fn law_what_is_connected_to(env: EndpointEnv)
    ensures
        !env.windows ==> env.target() == paths::joined(env.socket_dir(), "ipc.sock"@, false),
        env.windows ==> env.target() == "\\\\.\\pipe\\handy-ipc-"@ + text::decimal_text(
            env.user_id as nat,
        ) + suffix_text(text::opt_text(env.name)),
{
}

/// What is wrong with a directory is told with its name.
pub proof fn law_a_directory_error_names_the_directory(e: DirError)
    ensures
        match e {
            DirError::Unreadable { dir, detail } => e.text() == "stat "@ + dir@ + ": "@ + detail@,
            DirError::NotADirectory { dir } => e.text() == dir@ + " is not a directory"@,
            DirError::OtherOwner { dir, owner, user } => e.text() == dir@ + " is owned by uid "@
                + text::decimal_text(owner as nat) + ", not by you (uid "@ + text::decimal_text(
                user as nat,
            ) + ")"@,
            DirError::Accessible { dir, mode } => e.text() == dir@
                + " is accessible to other users (mode "@ + text::octal_text(mode as nat) + ")"@,
        },
{
}

} // verus!
