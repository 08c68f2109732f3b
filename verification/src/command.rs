//! Commands: the validated form of a request frame.
//!
//! A request is an array whose first element names the command, ignoring
//! ASCII case, and whose other elements are the arguments. Parsing checks
//! the shape, the name, the number of arguments and their types, in that
//! order, and answers a request it refuses with the error frame to reply.

use crate::frame::{frames_view, lemma_array_view, Frame, FrameView};
use vstd::prelude::*;
use vstd::slice::slice_to_vec;
use vstd::string::StringExecFns;
use vstd::utf8::{is_ascii_chars, is_ascii_chars_encode_utf8};

verus! {

/// The commands the server knows: `PING`, `SET`, `GET`, `DEL`, `EXISTS` and
/// `MGET`.
#[derive(Debug, Clone, Copy, PartialEq, Eq, Structural)]
pub enum CommandKind {
    Ping,
    SetKey,
    GetKey,
    DelKeys,
    ExistsKey,
    MgetKeys,
}

/// A request that passed validation, with its arguments.
#[derive(Debug, Clone, PartialEq, Eq)]
pub enum Command {
    /// Liveness probe; takes no part in storage.
    Ping,
    /// Store `value` under `key`.
    SetKey { key: Vec<u8>, value: Vec<u8> },
    /// Look `key` up.
    GetKey { key: Vec<u8> },
    /// Remove each of `keys`.
    DelKeys { keys: Vec<Vec<u8>> },
    /// Tell whether `key` is stored.
    ExistsKey { key: Vec<u8> },
    /// Look each of `keys` up, in order.
    MgetKeys { keys: Vec<Vec<u8>> },
}

/// The mathematical value of a [`Command`].
pub enum CommandView {
    Ping,
    SetKey { key: Seq<u8>, value: Seq<u8> },
    GetKey { key: Seq<u8> },
    DelKeys { keys: Seq<Seq<u8>> },
    ExistsKey { key: Seq<u8> },
    MgetKeys { keys: Seq<Seq<u8>> },
}

impl CommandView {
    /// Which command this is.
    pub open spec fn kind(self) -> CommandKind {
        match self {
            CommandView::Ping => CommandKind::Ping,
            CommandView::SetKey { .. } => CommandKind::SetKey,
            CommandView::GetKey { .. } => CommandKind::GetKey,
            CommandView::DelKeys { .. } => CommandKind::DelKeys,
            CommandView::ExistsKey { .. } => CommandKind::ExistsKey,
            CommandView::MgetKeys { .. } => CommandKind::MgetKeys,
        }
    }
}

/// The contents of a vector of byte strings, in order.
pub open spec fn keys_view(keys: Seq<Vec<u8>>) -> Seq<Seq<u8>> {
    Seq::new(keys.len(), |i: int| keys[i]@)
}

impl View for Command {
    type V = CommandView;

    open spec fn view(&self) -> CommandView {
        match self {
            Command::Ping => CommandView::Ping,
            Command::SetKey { key, value } => CommandView::SetKey { key: key@, value: value@ },
            Command::GetKey { key } => CommandView::GetKey { key: key@ },
            Command::DelKeys { keys } => CommandView::DelKeys { keys: keys_view(keys@) },
            Command::ExistsKey { key } => CommandView::ExistsKey { key: key@ },
            Command::MgetKeys { keys } => CommandView::MgetKeys { keys: keys_view(keys@) },
        }
    }
}

impl CommandKind {
    /// The command's name as it is written in error messages.
    pub open spec fn name(self) -> Seq<char> {
        match self {
            CommandKind::Ping => "PING"@,
            CommandKind::SetKey => "SET"@,
            CommandKind::GetKey => "GET"@,
            CommandKind::DelKeys => "DEL"@,
            CommandKind::ExistsKey => "EXISTS"@,
            CommandKind::MgetKeys => "MGET"@,
        }
    }

    /// Whether `count` arguments are an acceptable number for the command:
    /// exactly two for `SET`, exactly one for `GET` and `EXISTS`, at least
    /// one for `DEL` and `MGET`, any number for `PING`.
    pub open spec fn accepts_arity(self, count: nat) -> bool {
        match self {
            CommandKind::Ping => true,
            CommandKind::SetKey => count == 2,
            CommandKind::GetKey => count == 1,
            CommandKind::DelKeys => count >= 1,
            CommandKind::ExistsKey => count == 1,
            CommandKind::MgetKeys => count >= 1,
        }
    }

    /// Returns the command's name as it is written in error messages.
    pub fn name_text(self) -> (name: &'static str)
        ensures
            name@ == self.name(),
    {
        match self {
            CommandKind::Ping => "PING",
            CommandKind::SetKey => "SET",
            CommandKind::GetKey => "GET",
            CommandKind::DelKeys => "DEL",
            CommandKind::ExistsKey => "EXISTS",
            CommandKind::MgetKeys => "MGET",
        }
    }

    /// Tells whether `count` arguments are an acceptable number.
    pub fn arity_ok(self, count: usize) -> (ok: bool)
        ensures
            ok == self.accepts_arity(count as nat),
    {
        match self {
            CommandKind::Ping => true,
            CommandKind::SetKey => count == 2,
            CommandKind::GetKey => count == 1,
            CommandKind::DelKeys => count >= 1,
            CommandKind::ExistsKey => count == 1,
            CommandKind::MgetKeys => count >= 1,
        }
    }
}

/// A byte with an ASCII lower-case letter turned into its upper-case form.
pub open spec fn ascii_upper(b: u8) -> u8 {
    if 0x61 <= b <= 0x7a {
        (b - 0x20) as u8
    } else {
        b
    }
}

/// A byte string with its ASCII lower-case letters turned to upper case.
pub open spec fn upper_bytes(bytes: Seq<u8>) -> Seq<u8> {
    Seq::new(bytes.len(), |i: int| ascii_upper(bytes[i]))
}

/// The bytes of a text of ASCII characters.
pub open spec fn ascii_bytes(word: Seq<char>) -> Seq<u8> {
    Seq::new(word.len(), |i: int| word[i] as u8)
}

/// `name` spells `word` when the two are equal after turning the ASCII
/// lower-case letters of `name` to upper case.
pub open spec fn spells(name: Seq<u8>, word: Seq<char>) -> bool {
    upper_bytes(name) == ascii_bytes(word)
}

/// The command a name stands for, if any. Names are matched ignoring ASCII
/// case.
pub open spec fn command_kind(name: Seq<u8>) -> Option<CommandKind> {
    if spells(name, CommandKind::Ping.name()) {
        Some(CommandKind::Ping)
    } else if spells(name, CommandKind::SetKey.name()) {
        Some(CommandKind::SetKey)
    } else if spells(name, CommandKind::GetKey.name()) {
        Some(CommandKind::GetKey)
    } else if spells(name, CommandKind::DelKeys.name()) {
        Some(CommandKind::DelKeys)
    } else if spells(name, CommandKind::ExistsKey.name()) {
        Some(CommandKind::ExistsKey)
    } else if spells(name, CommandKind::MgetKeys.name()) {
        Some(CommandKind::MgetKeys)
    } else {
        None
    }
}

/// The text that `String::from_utf8_lossy` makes of `bytes`: the bytes read
/// as UTF-8, each invalid sequence replaced by U+FFFD.
pub uninterp spec fn utf8_lossy(bytes: Seq<u8>) -> Seq<char>;

/// Reads `bytes` as UTF-8 text, replacing what is not valid.
///
/// Calls `String::from_utf8_lossy`. The result is named by [`utf8_lossy`].
#[verifier::external_body]
fn lossy_text(bytes: &[u8]) -> (text: String)
    ensures
        text@ == utf8_lossy(bytes@),
{
    String::from_utf8_lossy(bytes).into_owned()
}

/// The error frame with the given text.
pub open spec fn error_frame(text: Seq<char>) -> FrameView {
    FrameView::Error(text)
}

/// The reply to a request that is not an array, or whose first element is
/// neither a bulk string nor a simple string.
pub open spec fn invalid_command_type() -> FrameView {
    error_frame("ERR invalid command type"@)
}

/// The reply to an empty array.
pub open spec fn empty_command() -> FrameView {
    error_frame("ERR Empty command"@)
}

/// The reply to a name that stands for no command, given the name as text:
/// `"ERR unknown command '<name>'"`.
pub open spec fn unknown_command_named(shown: Seq<char>) -> FrameView {
    error_frame("ERR unknown command '"@ + shown + "'"@)
}

/// The reply to a name that stands for no command. The name is shown as
/// received, read as UTF-8.
pub open spec fn unknown_command(name: Seq<u8>) -> FrameView {
    unknown_command_named(utf8_lossy(name))
}

/// The reply to a command with a wrong number of arguments.
pub open spec fn wrong_arity(kind: CommandKind) -> FrameView {
    error_frame("ERR Wrong number of arguments for "@ + kind.name())
}

/// The reply to a key argument that is not a bulk string.
pub open spec fn invalid_key_type() -> FrameView {
    error_frame("ERR Invalid key type"@)
}

/// The reply to a value argument that is not a bulk string.
pub open spec fn invalid_value_type() -> FrameView {
    error_frame("ERR Invalid value type"@)
}

/// The bytes of a frame that may name a command: a bulk string or a simple
/// string.
pub open spec fn name_bytes(frame: FrameView) -> Option<Seq<u8>> {
    match frame {
        FrameView::BulkString(bytes) => Some(bytes),
        FrameView::SimpleString(bytes) => Some(bytes),
        _ => None,
    }
}

/// Whether every frame of `args` is a bulk string.
pub open spec fn all_bulk(args: Seq<FrameView>) -> bool {
    forall|i: int| 0 <= i < args.len() ==> #[trigger] args[i] is BulkString
}

/// The contents of the bulk strings `args`, in order.
pub open spec fn bulk_payloads(args: Seq<FrameView>) -> Seq<Seq<u8>> {
    Seq::new(args.len(), |i: int| args[i]->BulkString_0)
}

/// Validates the arguments of a command: first their number, then their
/// types, the key before the value.
pub open spec fn parse_arguments(kind: CommandKind, args: Seq<FrameView>) -> Result<
    CommandView,
    FrameView,
> {
    if !kind.accepts_arity(args.len()) {
        Err(wrong_arity(kind))
    } else {
        match kind {
            CommandKind::Ping => Ok(CommandView::Ping),
            CommandKind::SetKey => if !(args[0] is BulkString) {
                Err(invalid_key_type())
            } else if !(args[1] is BulkString) {
                Err(invalid_value_type())
            } else {
                Ok(CommandView::SetKey { key: args[0]->BulkString_0, value: args[1]->BulkString_0 })
            },
            CommandKind::GetKey => if !(args[0] is BulkString) {
                Err(invalid_key_type())
            } else {
                Ok(CommandView::GetKey { key: args[0]->BulkString_0 })
            },
            CommandKind::DelKeys => if !all_bulk(args) {
                Err(invalid_key_type())
            } else {
                Ok(CommandView::DelKeys { keys: bulk_payloads(args) })
            },
            CommandKind::ExistsKey => if !(args[0] is BulkString) {
                Err(invalid_key_type())
            } else {
                Ok(CommandView::ExistsKey { key: args[0]->BulkString_0 })
            },
            CommandKind::MgetKeys => if !all_bulk(args) {
                Err(invalid_key_type())
            } else {
                Ok(CommandView::MgetKeys { keys: bulk_payloads(args) })
            },
        }
    }
}

/// Validates a request: the command it asks for, or the error frame that
/// answers it.
pub open spec fn parse_request(frame: FrameView) -> Result<CommandView, FrameView> {
    match frame {
        FrameView::Array(items) => if items.len() == 0 {
            Err(empty_command())
        } else {
            match name_bytes(items[0]) {
                None => Err(invalid_command_type()),
                Some(name) => match command_kind(name) {
                    None => Err(unknown_command(name)),
                    Some(kind) => parse_arguments(kind, items.skip(1)),
                },
            }
        },
        _ => Err(invalid_command_type()),
    }
}

/// The value of the result of parsing.
pub open spec fn parsed_view(result: Result<Command, Frame>) -> Result<CommandView, FrameView> {
    match result {
        Ok(command) => Ok(command@),
        Err(reply) => Err(reply@),
    }
}

/// Turns an ASCII lower-case letter into its upper-case form.
pub fn to_ascii_upper(b: u8) -> (upper: u8)
    ensures
        upper == ascii_upper(b),
{
    if 0x61 <= b && b <= 0x7a {
        b - 0x20
    } else {
        b
    }
}

/// Tells whether `name` spells the ASCII word `word`, ignoring the case of
/// `name`.
fn name_spells(name: &[u8], word: &str) -> (yes: bool)
    requires
        is_ascii_chars(word@),
    ensures
        yes == spells(name@, word@),
{
    let letters = word.as_bytes();
    proof {
        is_ascii_chars_encode_utf8(word@);
    }
    if name.len() != letters.len() {
        assert(upper_bytes(name@).len() != ascii_bytes(word@).len());
        return false;
    }
    let mut i: usize = 0;
    while i < name.len()
        invariant
            i <= name.len(),
            name.len() == letters.len(),
            letters@.len() == word@.len(),
            forall|j: int| 0 <= j < word@.len() ==> word@[j] as u8 == #[trigger] letters@[j],
            forall|j: int| 0 <= j < i ==> ascii_upper(#[trigger] name@[j]) == letters@[j],
        decreases name.len() - i,
    {
        if to_ascii_upper(name[i]) != letters[i] {
            assert(upper_bytes(name@)[i as int] != ascii_bytes(word@)[i as int]);
            return false;
        }
        i += 1;
    }
    assert(upper_bytes(name@) =~= ascii_bytes(word@));
    true
}

/// Finds the command that `name` stands for, ignoring ASCII case.
pub fn lookup_command(name: &[u8]) -> (kind: Option<CommandKind>)
    ensures
        kind == command_kind(name@),
{
    proof {
        reveal_strlit("PING");
        reveal_strlit("SET");
        reveal_strlit("GET");
        reveal_strlit("DEL");
        reveal_strlit("EXISTS");
        reveal_strlit("MGET");
    }
    if name_spells(name, "PING") {
        Some(CommandKind::Ping)
    } else if name_spells(name, "SET") {
        Some(CommandKind::SetKey)
    } else if name_spells(name, "GET") {
        Some(CommandKind::GetKey)
    } else if name_spells(name, "DEL") {
        Some(CommandKind::DelKeys)
    } else if name_spells(name, "EXISTS") {
        Some(CommandKind::ExistsKey)
    } else if name_spells(name, "MGET") {
        Some(CommandKind::MgetKeys)
    } else {
        None
    }
}

/// Each command's own name stands for that command.
pub proof fn lemma_names_are_commands()
    ensures
        forall|kind: CommandKind| #[trigger] command_kind(ascii_bytes(kind.name())) == Some(kind),
{
    reveal_strlit("PING");
    reveal_strlit("SET");
    reveal_strlit("GET");
    reveal_strlit("DEL");
    reveal_strlit("EXISTS");
    reveal_strlit("MGET");
    assert forall|kind: CommandKind| #[trigger]
        command_kind(ascii_bytes(kind.name())) == Some(kind) by {
        let name = ascii_bytes(kind.name());
        assert(upper_bytes(name) =~= name);
        match kind {
            CommandKind::Ping => {},
            CommandKind::SetKey => {},
            CommandKind::GetKey => {
                assert(name[0] != ascii_bytes("SET"@)[0]);
            },
            CommandKind::DelKeys => {
                assert(name[0] != ascii_bytes("SET"@)[0]);
                assert(name[0] != ascii_bytes("GET"@)[0]);
            },
            CommandKind::ExistsKey => {},
            CommandKind::MgetKeys => {
                assert(name[0] != ascii_bytes("PING"@)[0]);
            },
        }
    }
}

/// Builds the error frame with the given text.
pub fn error_reply(text: &str) -> (reply: Frame)
    ensures
        reply@ == error_frame(text@),
{
    Frame::Error(String::from_str(text))
}

/// Builds the reply to a name that stands for no command, given the name
/// as text.
pub fn unknown_command_reply(shown: &str) -> (reply: Frame)
    ensures
        reply@ == unknown_command_named(shown@),
{
    Frame::Error(String::from_str("ERR unknown command '").concat(shown).concat("'"))
}

/// Builds the reply to a command with a wrong number of arguments.
fn wrong_arity_reply(kind: CommandKind) -> (reply: Frame)
    ensures
        reply@ == wrong_arity(kind),
{
    Frame::Error(String::from_str("ERR Wrong number of arguments for ").concat(kind.name_text()))
}

/// Copies the contents of a bulk string, if `frame` is one.
fn bulk_payload(frame: &Frame) -> (payload: Option<Vec<u8>>)
    ensures
        payload is Some <==> frame@ is BulkString,
        payload matches Some(bytes) ==> bytes@ == frame@->BulkString_0,
{
    match frame {
        Frame::BulkString(bytes) => Some(slice_to_vec(bytes.as_slice())),
        _ => None,
    }
}

/// Copies the contents of the arguments of a request, which are the
/// elements of `items` after the first, if all of them are bulk strings.
fn bulk_arguments(items: &Vec<Frame>) -> (payloads: Option<Vec<Vec<u8>>>)
    requires
        items@.len() >= 1,
    ensures
        payloads is Some <==> all_bulk(frames_view(items@).skip(1)),
        payloads matches Some(keys) ==> keys_view(keys@) == bulk_payloads(
            frames_view(items@).skip(1),
        ),
{
    let ghost args = frames_view(items@).skip(1);
    let mut keys: Vec<Vec<u8>> = Vec::new();
    let mut i: usize = 1;
    while i < items.len()
        invariant
            1 <= i <= items.len(),
            args == frames_view(items@).skip(1),
            keys@.len() == i - 1,
            forall|j: int| 0 <= j < i - 1 ==> #[trigger] args[j] is BulkString,
            forall|j: int| 0 <= j < i - 1 ==> (#[trigger] keys@[j])@ == args[j]->BulkString_0,
        decreases items.len() - i,
    {
        assert(args[i - 1] == items@[i as int]@);
        match bulk_payload(&items[i]) {
            Some(bytes) => keys.push(bytes),
            None => {
                return None;
            },
        }
        i += 1;
    }
    assert(keys_view(keys@) =~= bulk_payloads(args));
    Some(keys)
}

/// Validates the arguments of a command. `items` is the whole request: the
/// arguments are its elements after the first.
fn parse_command_arguments(kind: CommandKind, items: &Vec<Frame>) -> (result: Result<
    Command,
    Frame,
>)
    requires
        items@.len() >= 1,
    ensures
        parsed_view(result) == parse_arguments(kind, frames_view(items@).skip(1)),
{
    let ghost args = frames_view(items@).skip(1);
    if !kind.arity_ok(items.len() - 1) {
        return Err(wrong_arity_reply(kind));
    }
    match kind {
        CommandKind::Ping => Ok(Command::Ping),
        CommandKind::SetKey => {
            assert(args[0] == items@[1]@ && args[1] == items@[2]@);
            match bulk_payload(&items[1]) {
                None => Err(error_reply("ERR Invalid key type")),
                Some(key) => match bulk_payload(&items[2]) {
                    None => Err(error_reply("ERR Invalid value type")),
                    Some(value) => Ok(Command::SetKey { key, value }),
                },
            }
        },
        CommandKind::GetKey => {
            assert(args[0] == items@[1]@);
            match bulk_payload(&items[1]) {
                None => Err(error_reply("ERR Invalid key type")),
                Some(key) => Ok(Command::GetKey { key }),
            }
        },
        CommandKind::DelKeys => match bulk_arguments(items) {
            None => Err(error_reply("ERR Invalid key type")),
            Some(keys) => Ok(Command::DelKeys { keys }),
        },
        CommandKind::ExistsKey => {
            assert(args[0] == items@[1]@);
            match bulk_payload(&items[1]) {
                None => Err(error_reply("ERR Invalid key type")),
                Some(key) => Ok(Command::ExistsKey { key }),
            }
        },
        CommandKind::MgetKeys => match bulk_arguments(items) {
            None => Err(error_reply("ERR Invalid key type")),
            Some(keys) => Ok(Command::MgetKeys { keys }),
        },
    }
}

/// Validates a request frame.
///
/// Returns the command it asks for, or the error frame with which the
/// request is to be answered: `"ERR invalid command type"` for a frame that
/// is not an array or whose first element is no string, `"ERR Empty
/// command"` for an empty array, `"ERR unknown command '<name>'"` for an
/// unknown name, `"ERR Wrong number of arguments for <NAME>"` for a wrong
/// argument count, and `"ERR Invalid key type"` or `"ERR Invalid value
/// type"` for an argument that is not a bulk string.
pub fn parse_command(frame: &Frame) -> (result: Result<Command, Frame>)
    ensures
        parsed_view(result) == parse_request(frame@),
{
    match frame {
        Frame::Array(items) => {
            proof {
                lemma_array_view(*items);
            }
            if items.len() == 0 {
                return Err(error_reply("ERR Empty command"));
            }
            assert(frames_view(items@)[0] == items@[0]@);
            let name: &Vec<u8> = match &items[0] {
                Frame::BulkString(bytes) => bytes,
                Frame::SimpleString(bytes) => bytes,
                _ => {
                    return Err(error_reply("ERR invalid command type"));
                },
            };
            match lookup_command(name.as_slice()) {
                None => {
                    let shown = lossy_text(name.as_slice());
                    Err(unknown_command_reply(shown.as_str()))
                },
                Some(kind) => parse_command_arguments(kind, items),
            }
        },
        _ => Err(error_reply("ERR invalid command type")),
    }
}

} // verus!
