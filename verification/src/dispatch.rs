//! The command dispatcher: from a request frame and a storage partition to
//! the reply frame.
//!
//! Each request is answered by exactly one frame. A request that fails
//! validation is answered by an error frame without touching storage; a
//! storage failure becomes an error frame that names the command.
//!
//! The replies are computed from what the storage calls returned by the
//! functions `set_reply`, `get_reply`, `exists_reply`, `del_reply` and
//! `mget_reply`, whose contracts are exact. The functions that make the
//! storage calls promise what holds whatever the storage returned.

use crate::command::{
    error_frame, keys_view, parse_command, parse_request, Command, CommandKind, CommandView,
};
use crate::datastore::{read_refusal, remove_refusal, write_refusal, DataStorePartition};
use crate::error::DataStoreError;
use crate::frame::{frames_view, lemma_array_view, Frame, FrameView};
use vstd::prelude::*;
use vstd::string::StringExecFns;

verus! {

/// What a storage call returned, with a failure reduced to its detail text.
pub open spec fn outcome_view<T>(outcome: Result<T, DataStoreError>) -> Result<T, Seq<char>> {
    match outcome {
        Ok(value) => Ok(value),
        Err(e) => Err(e.detail()),
    }
}

/// What a lookup returned, as mathematical values.
pub open spec fn found_view(found: Result<Option<Vec<u8>>, DataStoreError>) -> Result<
    Option<Seq<u8>>,
    Seq<char>,
> {
    match found {
        Ok(Some(value)) => Ok(Some(value@)),
        Ok(None) => Ok(None),
        Err(e) => Err(e.detail()),
    }
}

/// The contents of a vector of looked-up values, in order.
pub open spec fn values_view(values: Seq<Option<Vec<u8>>>) -> Seq<Option<Seq<u8>>> {
    Seq::new(
        values.len(),
        |i: int|
            match values[i] {
                Some(value) => Some(value@),
                None => None,
            },
    )
}

/// What a lookup of several keys returned, as mathematical values.
pub open spec fn found_all_view(found: Result<Vec<Option<Vec<u8>>>, DataStoreError>) -> Result<
    Seq<Option<Seq<u8>>>,
    Seq<char>,
> {
    match found {
        Ok(values) => Ok(values_view(values@)),
        Err(e) => Err(e.detail()),
    }
}

/// The bytes of `PONG`.
pub open spec fn pong_bytes() -> Seq<u8> {
    seq![0x50u8, 0x4fu8, 0x4eu8, 0x47u8]
}

/// The bytes of `OK`.
pub open spec fn ok_bytes() -> Seq<u8> {
    seq![0x4fu8, 0x4bu8]
}

/// The reply to `PING`: the simple string `PONG`.
pub open spec fn pong() -> FrameView {
    FrameView::SimpleString(pong_bytes())
}

/// The reply to a command whose storage call failed:
/// `"ERR <NAME> error: <detail>"`.
pub open spec fn storage_failure(kind: CommandKind, detail: Seq<char>) -> FrameView {
    error_frame("ERR "@ + kind.name() + " error: "@ + detail)
}

/// The reply to `SET`: the simple string `OK`, or the storage failure.
pub open spec fn set_reply_view(stored: Result<(), Seq<char>>) -> FrameView {
    match stored {
        Ok(_) => FrameView::SimpleString(ok_bytes()),
        Err(detail) => storage_failure(CommandKind::SetKey, detail),
    }
}

/// The frame that shows a looked-up value: the bulk string of a value that
/// was found, `Null` for one that was not.
pub open spec fn value_frame(value: Option<Seq<u8>>) -> FrameView {
    match value {
        Some(bytes) => FrameView::BulkString(bytes),
        None => FrameView::Null,
    }
}

/// The reply to `GET`: the value's frame, or the storage failure.
pub open spec fn get_reply_view(found: Result<Option<Seq<u8>>, Seq<char>>) -> FrameView {
    match found {
        Ok(value) => value_frame(value),
        Err(detail) => storage_failure(CommandKind::GetKey, detail),
    }
}

/// The reply to `EXISTS`: the integer 1 for a key that was found, 0 for
/// one that was not, or the storage failure.
pub open spec fn exists_reply_view(found: Result<Option<Seq<u8>>, Seq<char>>) -> FrameView {
    match found {
        Ok(Some(_)) => FrameView::Integer(1),
        Ok(None) => FrameView::Integer(0),
        Err(detail) => storage_failure(CommandKind::ExistsKey, detail),
    }
}

/// How many of `confirmed` are true.
pub open spec fn count_confirmed(confirmed: Seq<bool>) -> nat
    decreases confirmed.len(),
{
    if confirmed.len() == 0 {
        0
    } else {
        count_confirmed(confirmed.drop_last()) + if confirmed.last() {
            1nat
        } else {
            0nat
        }
    }
}

/// A count as a 64-bit signed integer; a count beyond `i64::MAX` is shown
/// as `i64::MAX`.
pub open spec fn count_as_i64(count: nat) -> i64 {
    if count <= i64::MAX {
        count as i64
    } else {
        i64::MAX
    }
}

/// The reply to `DEL`: the number of keys whose removal was confirmed.
pub open spec fn del_reply_view(confirmed: Seq<bool>) -> FrameView {
    FrameView::Integer(count_as_i64(count_confirmed(confirmed)))
}

/// The reply to `MGET`: the array of the values' frames in the order of the
/// keys, or the storage failure.
pub open spec fn mget_reply_view(found: Result<Seq<Option<Seq<u8>>>, Seq<char>>) -> FrameView {
    match found {
        Ok(values) => FrameView::Array(Seq::new(values.len(), |i: int| value_frame(values[i]))),
        Err(detail) => storage_failure(CommandKind::MgetKeys, detail),
    }
}

/// Builds the reply to `PING`.
pub fn pong_reply() -> (reply: Frame)
    ensures
        reply@ == pong(),
{
    let mut bytes: Vec<u8> = Vec::new();
    bytes.push(0x50u8);
    bytes.push(0x4fu8);
    bytes.push(0x4eu8);
    bytes.push(0x47u8);
    assert(bytes@ =~= pong_bytes());
    Frame::SimpleString(bytes)
}

/// Builds the reply to a command whose storage call failed.
pub fn storage_failure_reply(kind: CommandKind, error: &DataStoreError) -> (reply: Frame)
    ensures
        reply@ == storage_failure(kind, error.detail()),
{
    let text = String::from_str("ERR ").concat(kind.name_text()).concat(" error: ").concat(
        error.detail_text().as_str(),
    );
    Frame::Error(text)
}

/// Builds the reply to `SET` from what storing returned.
pub fn set_reply(stored: Result<(), DataStoreError>) -> (reply: Frame)
    ensures
        reply@ == set_reply_view(outcome_view(stored)),
{
    match stored {
        Ok(_) => {
            let mut bytes: Vec<u8> = Vec::new();
            bytes.push(0x4fu8);
            bytes.push(0x4bu8);
            assert(bytes@ =~= ok_bytes());
            Frame::SimpleString(bytes)
        },
        Err(e) => storage_failure_reply(CommandKind::SetKey, &e),
    }
}

/// Builds the frame that shows a looked-up value.
pub fn value_reply(value: Option<Vec<u8>>) -> (reply: Frame)
    ensures
        reply@ == value_frame(
            match value {
                Some(bytes) => Some(bytes@),
                None => None,
            },
        ),
{
    match value {
        Some(bytes) => Frame::BulkString(bytes),
        None => Frame::Null,
    }
}

/// Builds the reply to `GET` from what the lookup returned.
pub fn get_reply(found: Result<Option<Vec<u8>>, DataStoreError>) -> (reply: Frame)
    ensures
        reply@ == get_reply_view(found_view(found)),
{
    match found {
        Ok(value) => value_reply(value),
        Err(e) => storage_failure_reply(CommandKind::GetKey, &e),
    }
}

/// Builds the reply to `EXISTS` from what the lookup returned.
pub fn exists_reply(found: Result<Option<Vec<u8>>, DataStoreError>) -> (reply: Frame)
    ensures
        reply@ == exists_reply_view(found_view(found)),
{
    match found {
        Ok(Some(_)) => Frame::Integer(1),
        Ok(None) => Frame::Integer(0),
        Err(e) => storage_failure_reply(CommandKind::ExistsKey, &e),
    }
}

/// Builds the reply to `DEL` from the confirmations of the removals, one
/// per key.
pub fn del_reply(confirmed: &Vec<bool>) -> (reply: Frame)
    ensures
        reply@ == del_reply_view(confirmed@),
{
    let mut count: i64 = 0;
    let mut i: usize = 0;
    while i < confirmed.len()
        invariant
            i <= confirmed.len(),
            count == count_as_i64(count_confirmed(confirmed@.take(i as int))),
        decreases confirmed.len() - i,
    {
        assert(confirmed@.take(i + 1).drop_last() =~= confirmed@.take(i as int));
        if confirmed[i] && count < i64::MAX {
            count += 1;
        }
        i += 1;
    }
    assert(confirmed@.take(i as int) =~= confirmed@);
    Frame::Integer(count)
}

/// Builds the reply to `MGET` from what the lookups returned.
pub fn mget_reply(found: Result<Vec<Option<Vec<u8>>>, DataStoreError>) -> (reply: Frame)
    ensures
        reply@ == mget_reply_view(found_all_view(found)),
{
    match found {
        Ok(values) => {
            let ghost wanted = Seq::new(
                values@.len(),
                |i: int| value_frame(values_view(values@)[i]),
            );
            let mut values = values;
            let mut frames: Vec<Frame> = Vec::new();
            let mut i: usize = 0;
            let n = values.len();
            while i < n
                invariant
                    i <= n,
                    n == values@.len(),
                    wanted.len() == n,
                    frames@.len() == i,
                    forall|j: int| 0 <= j < i ==> (#[trigger] frames@[j])@ == wanted[j],
                    forall|j: int|
                        i <= j < n ==> value_frame(#[trigger] values_view(values@)[j])
                            == wanted[j],
                decreases n - i,
            {
                let ghost before = values@;
                let mut taken: Option<Vec<u8>> = None;
                std::mem::swap(&mut taken, &mut values[i]);
                assert(values_view(before)[i as int] == match taken {
                    Some(bytes) => Some(bytes@),
                    None => None,
                });
                assert forall|j: int| i < j < n implies value_frame(
                    #[trigger] values_view(values@)[j],
                ) == wanted[j] by {
                    assert(values@[j] == before[j]);
                    assert(values_view(before)[j] == values_view(values@)[j]);
                }
                frames.push(value_reply(taken));
                i += 1;
            }
            proof {
                lemma_array_view(frames);
                assert(frames_view(frames@) =~= wanted);
            }
            Frame::Array(frames)
        },
        Err(e) => storage_failure_reply(CommandKind::MgetKeys, &e),
    }
}

/// An outcome agrees with this layer's refusal when, the arguments being
/// refused, it is the failure with the refusal's text.
pub open spec fn fits_refusal<T>(refusal: Option<Seq<char>>, outcome: Result<T, Seq<char>>) -> bool {
    refusal matches Some(reason) ==> outcome == Err::<T, Seq<char>>(reason)
}

/// Confirmations agree with the keys when there is one per key and none
/// for a key that this layer refuses to remove.
pub open spec fn confirmations_fit(keys: Seq<Seq<u8>>, confirmed: Seq<bool>) -> bool {
    &&& confirmed.len() == keys.len()
    &&& forall|i: int|
        0 <= i < keys.len() && remove_refusal(#[trigger] keys[i]) is Some ==> !confirmed[i]
}

/// The lookup of `keys[at]` is where a run of lookups stopped with a failure
/// of the given detail: no key before it is refused by this layer, and if
/// this layer refuses the key itself, the detail is the refusal's text.
pub open spec fn lookup_failed_at(keys: Seq<Seq<u8>>, at: int, detail: Seq<char>) -> bool {
    &&& 0 <= at < keys.len()
    &&& forall|j: int| 0 <= j < at ==> read_refusal(#[trigger] keys[j]) is None
    &&& read_refusal(keys[at]) matches Some(reason) ==> detail == reason
}

/// A run of lookups of `keys` stopped with a failure of the given detail:
/// the failure is that of the lookup of one of the keys.
pub open spec fn lookups_stopped(keys: Seq<Seq<u8>>, detail: Seq<char>) -> bool {
    exists|at: int| #[trigger] lookup_failed_at(keys, at, detail)
}

/// Lookups agree with the keys when, if they succeeded, there is one value
/// per key and this layer refuses none of the keys, and if they failed, the
/// failure is that of the lookup of one of the keys, at which they stopped.
/// So lookups of no keys at all succeed.
pub open spec fn lookups_fit(
    keys: Seq<Seq<u8>>,
    found: Result<Seq<Option<Seq<u8>>>, Seq<char>>,
) -> bool {
    match found {
        Ok(values) => {
            &&& values.len() == keys.len()
            &&& forall|i: int| 0 <= i < keys.len() ==> read_refusal(#[trigger] keys[i]) is None
        },
        Err(detail) => lookups_stopped(keys, detail),
    }
}

/// The replies that a command may get: for each, the reply that the exact
/// reply function of the command gives for some outcome of the storage
/// calls that agrees with this layer's refusals.
pub open spec fn possible_reply(command: CommandView, reply: FrameView) -> bool {
    match command {
        CommandView::Ping => reply == pong(),
        CommandView::SetKey { key, value } => exists|stored: Result<(), Seq<char>>|
            fits_refusal(write_refusal(key, value), stored) && reply == #[trigger] set_reply_view(
                stored,
            ),
        CommandView::GetKey { key } => exists|found: Result<Option<Seq<u8>>, Seq<char>>|
            fits_refusal(read_refusal(key), found) && reply == #[trigger] get_reply_view(found),
        CommandView::DelKeys { keys } => exists|confirmed: Seq<bool>|
            confirmations_fit(keys, confirmed) && reply == #[trigger] del_reply_view(confirmed),
        CommandView::ExistsKey { key } => exists|found: Result<Option<Seq<u8>>, Seq<char>>|
            fits_refusal(read_refusal(key), found) && reply == #[trigger] exists_reply_view(
                found,
            ),
        CommandView::MgetKeys { keys } => exists|found: Result<Seq<Option<Seq<u8>>>, Seq<char>>|
            lookups_fit(keys, found) && reply == #[trigger] mget_reply_view(found),
    }
}

/// The reply that answers a request: the refusal of a request that fails
/// validation, or else one of the replies its command may get.
pub open spec fn answers(request: FrameView, reply: FrameView) -> bool {
    match parse_request(request) {
        Err(refusal) => reply == refusal,
        Ok(command) => possible_reply(command, reply),
    }
}

/// Whether `reply` reports a storage failure of the command `kind`.
pub open spec fn is_storage_failure(kind: CommandKind, reply: FrameView) -> bool {
    exists|detail: Seq<char>| reply == #[trigger] storage_failure(kind, detail)
}

/// The documented replies of each command: `PONG` for `PING`; `OK` for
/// `SET`; a bulk string or `Null` for `GET`; for `DEL` an integer between 0
/// and the number of keys; 0 or 1 for `EXISTS`; for `MGET` an array with one
/// bulk string or `Null` per key; and for every command but `PING` and
/// `DEL`, the error frame that reports a storage failure.
pub open spec fn documented_reply(command: CommandView, reply: FrameView) -> bool {
    match command {
        CommandView::Ping => reply == pong(),
        CommandView::SetKey { .. } => {
            ||| reply == FrameView::SimpleString(ok_bytes())
            ||| is_storage_failure(CommandKind::SetKey, reply)
        },
        CommandView::GetKey { .. } => {
            ||| reply is BulkString
            ||| reply is Null
            ||| is_storage_failure(CommandKind::GetKey, reply)
        },
        CommandView::DelKeys { keys } => {
            &&& reply is Integer
            &&& 0 <= reply->Integer_0 <= keys.len()
        },
        CommandView::ExistsKey { .. } => {
            ||| reply == FrameView::Integer(0)
            ||| reply == FrameView::Integer(1)
            ||| is_storage_failure(CommandKind::ExistsKey, reply)
        },
        CommandView::MgetKeys { keys } => {
            ||| {
                &&& reply is Array
                &&& reply->Array_0.len() == keys.len()
                &&& forall|i: int|
                    0 <= i < keys.len() ==> {
                        let item = #[trigger] reply->Array_0[i];
                        item is BulkString || item is Null
                    }
            }
            ||| is_storage_failure(CommandKind::MgetKeys, reply)
        },
    }
}

/// No more removals are confirmed than there are keys.
pub proof fn lemma_count_confirmed_bound(confirmed: Seq<bool>)
    ensures
        count_confirmed(confirmed) <= confirmed.len(),
    decreases confirmed.len(),
{
    if confirmed.len() > 0 {
        lemma_count_confirmed_bound(confirmed.drop_last());
    }
}

/// Every reply that a command may get has the command's documented shape.
pub proof fn lemma_reply_is_documented(command: CommandView, reply: FrameView)
    requires
        possible_reply(command, reply),
    ensures
        documented_reply(command, reply),
{
    match command {
        CommandView::Ping => {},
        CommandView::SetKey { key, value } => {
            let stored = choose|stored: Result<(), Seq<char>>|
                fits_refusal(write_refusal(key, value), stored) && reply
                    == #[trigger] set_reply_view(stored);
            if let Err(detail) = stored {
                assert(reply == storage_failure(CommandKind::SetKey, detail));
            }
        },
        CommandView::GetKey { key } => {
            let found = choose|found: Result<Option<Seq<u8>>, Seq<char>>|
                fits_refusal(read_refusal(key), found) && reply == #[trigger] get_reply_view(
                    found,
                );
            if let Err(detail) = found {
                assert(reply == storage_failure(CommandKind::GetKey, detail));
            }
        },
        CommandView::DelKeys { keys } => {
            let confirmed = choose|confirmed: Seq<bool>|
                confirmations_fit(keys, confirmed) && reply == #[trigger] del_reply_view(
                    confirmed,
                );
            lemma_count_confirmed_bound(confirmed);
        },
        CommandView::ExistsKey { key } => {
            let found = choose|found: Result<Option<Seq<u8>>, Seq<char>>|
                fits_refusal(read_refusal(key), found) && reply == #[trigger] exists_reply_view(
                    found,
                );
            if let Err(detail) = found {
                assert(reply == storage_failure(CommandKind::ExistsKey, detail));
            }
        },
        CommandView::MgetKeys { keys } => {
            let found = choose|found: Result<Seq<Option<Seq<u8>>>, Seq<char>>|
                lookups_fit(keys, found) && reply == #[trigger] mget_reply_view(found);
            if let Err(detail) = found {
                assert(reply == storage_failure(CommandKind::MgetKeys, detail));
            }
        },
    }
}

/// Whether the removal of a key is confirmed, given what looking the key up
/// returned and what removing it returned; `removed` is `None` where no
/// removal was attempted. It is confirmed when the key was found and
/// removing it succeeded.
pub open spec fn confirms_removal(
    present: Result<bool, DataStoreError>,
    removed: Option<Result<(), DataStoreError>>,
) -> bool {
    present matches Ok(true) && removed matches Some(Ok(_))
}

/// Tells whether the removal of a key is confirmed, from what looking the
/// key up returned and what removing it returned; `removed` is `None` where
/// no removal was attempted.
pub fn removal_confirmed(
    present: &Result<bool, DataStoreError>,
    removed: &Option<Result<(), DataStoreError>>,
) -> (confirmed: bool)
    ensures
        confirmed == confirms_removal(*present, *removed),
{
    match present {
        Ok(true) => match removed {
            Some(Ok(_)) => true,
            _ => false,
        },
        _ => false,
    }
}

/// Removes `key` if it is stored, and tells whether the removal is
/// confirmed: the key was found and removing it succeeded.
///
/// The key is looked up first, and removed only if the lookup found it.
/// What the two storage calls return decides the result, as
/// [`removal_confirmed`] says; a key that this layer refuses to remove is
/// never confirmed.
pub fn remove_if_present(partition: &DataStorePartition, key: &[u8]) -> (confirmed: bool)
    ensures
        remove_refusal(key@) is Some ==> !confirmed,
{
    let present = partition.contains_key(key);
    let removed = match &present {
        Ok(true) => Some(partition.delete(key)),
        _ => None,
    };
    removal_confirmed(&present, &removed)
}

/// Removes each of `keys` that is stored, one after the other; a failure on
/// one key does not stop the others. Returns the confirmations, one per
/// key.
pub fn remove_all(partition: &DataStorePartition, keys: &Vec<Vec<u8>>) -> (confirmed: Vec<bool>)
    ensures
        confirmations_fit(keys_view(keys@), confirmed@),
{
    let mut confirmed: Vec<bool> = Vec::new();
    let mut i: usize = 0;
    while i < keys.len()
        invariant
            i <= keys.len(),
            confirmed@.len() == i,
            forall|j: int|
                0 <= j < i && remove_refusal(#[trigger] keys_view(keys@)[j]) is Some
                    ==> !confirmed@[j],
        decreases keys.len() - i,
    {
        assert(keys_view(keys@)[i as int] == keys@[i as int]@);
        let done = remove_if_present(partition, keys[i].as_slice());
        confirmed.push(done);
        i += 1;
    }
    confirmed
}

/// Looks each of `keys` up, in order, and stops at the first failure.
/// Returns the values found, one per key, or that failure.
///
/// With no keys there is nothing to look up and the result is the empty
/// vector. A failure is always that of one lookup, before which every
/// lookup succeeded; where this layer refuses the key of that lookup, the
/// failure carries the refusal's text.
pub fn fetch_all(partition: &DataStorePartition, keys: &Vec<Vec<u8>>) -> (found: Result<
    Vec<Option<Vec<u8>>>,
    DataStoreError,
>)
    ensures
        lookups_fit(keys_view(keys@), found_all_view(found)),
        found matches Err(e) ==> e is DataError,
        keys@.len() == 0 ==> found is Ok,
{
    let mut values: Vec<Option<Vec<u8>>> = Vec::new();
    let mut i: usize = 0;
    while i < keys.len()
        invariant
            i <= keys.len(),
            values@.len() == i,
            forall|j: int| 0 <= j < i ==> read_refusal(#[trigger] keys_view(keys@)[j]) is None,
        decreases keys.len() - i,
    {
        assert(keys_view(keys@)[i as int] == keys@[i as int]@);
        match partition.get(keys[i].as_slice()) {
            Ok(value) => values.push(value),
            Err(e) => {
                proof {
                    let detail = e.detail();
                    assert(lookup_failed_at(keys_view(keys@), i as int, detail));
                    assert(lookups_stopped(keys_view(keys@), detail));
                }
                return Err(e);
            },
        }
        i += 1;
    }
    Ok(values)
}

impl Command {
    /// Tells whether executing the command calls the storage partition.
    /// Only `PING` does not.
    pub fn touches_storage(&self) -> (touches: bool)
        ensures
            touches == !(self@ is Ping),
    {
        match self {
            Command::Ping => false,
            _ => true,
        }
    }
}

/// Executes a validated command against the partition and builds its reply.
///
/// `PING` is answered without a storage call. `SET`, `GET` and `EXISTS` make
/// one call. `DEL` removes each key that is stored and counts the removals
/// that were confirmed. `MGET` looks the keys up in order and answers with
/// the error of the first lookup that fails.
pub fn execute(command: &Command, partition: &DataStorePartition) -> (reply: Frame)
    ensures
        possible_reply(command@, reply@),
        documented_reply(command@, reply@),
{
    let reply = match command {
        Command::Ping => pong_reply(),
        Command::SetKey { key, value } => {
            let stored = partition.set(key.as_slice(), value.as_slice());
            assert(fits_refusal(write_refusal(key@, value@), outcome_view(stored)));
            set_reply(stored)
        },
        Command::GetKey { key } => {
            let found = partition.get(key.as_slice());
            assert(fits_refusal(read_refusal(key@), found_view(found)));
            get_reply(found)
        },
        Command::DelKeys { keys } => {
            let confirmed = remove_all(partition, keys);
            del_reply(&confirmed)
        },
        Command::ExistsKey { key } => {
            let found = partition.get(key.as_slice());
            assert(fits_refusal(read_refusal(key@), found_view(found)));
            exists_reply(found)
        },
        Command::MgetKeys { keys } => {
            let found = fetch_all(partition, keys);
            mget_reply(found)
        },
    };
    proof {
        lemma_reply_is_documented(command@, reply@);
    }
    reply
}

/// Answers one request.
///
/// A request that fails validation is answered with the error frame that
/// says why, and the partition is not touched; any other request is
/// executed and answered with the reply of its command. Every request gets
/// exactly one reply frame, whatever the storage does.
pub fn handle_command(frame: Frame, partition: &DataStorePartition) -> (reply: Frame)
    ensures
        answers(frame@, reply@),
        parse_request(frame@) matches Ok(command) ==> documented_reply(command, reply@),
{
    match parse_command(&frame) {
        Err(refusal) => refusal,
        Ok(command) => execute(&command, partition),
    }
}

} // verus!
