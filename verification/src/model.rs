//! A reference model of the server over an ideal store, and the laws that
//! the dispatcher obeys over it.
//!
//! The ideal store is a finite map from keys to values that keeps what it
//! is given and fails only where this layer refuses the arguments. The model
//! says what the server replies, and what the store holds afterwards, when
//! the storage partition behaves like that map. Its replies are among those
//! that [`execute`](crate::dispatch::execute) may give.

use crate::command::{
    command_kind, parse_arguments, parse_request, spells, CommandKind, CommandView,
};
use crate::datastore::{
    key_readable, key_writable, read_refusal, remove_refusal, value_writable, write_refusal,
};
use crate::dispatch::{
    answers, confirmations_fit, count_confirmed, del_reply_view, exists_reply_view,
    fits_refusal, get_reply_view, lookup_failed_at, lookups_fit, mget_reply_view, ok_bytes, pong,
    possible_reply, set_reply_view, value_frame,
};
use crate::frame::FrameView;
use vstd::prelude::*;

verus! {

/// The contents of an ideal store.
pub type StoreModel = Map<Seq<u8>, Seq<u8>>;

/// The value stored under `key`, if any.
pub open spec fn lookup(store: StoreModel, key: Seq<u8>) -> Option<Seq<u8>> {
    if store.contains_key(key) {
        Some(store[key])
    } else {
        None
    }
}

/// Storing a pair: the store afterwards and what the call returns.
pub open spec fn model_set(store: StoreModel, key: Seq<u8>, value: Seq<u8>) -> (
    StoreModel,
    Result<(), Seq<char>>,
) {
    match write_refusal(key, value) {
        Some(reason) => (store, Err(reason)),
        None => (store.insert(key, value), Ok(())),
    }
}

/// Looking a key up: what the call returns.
pub open spec fn model_get(store: StoreModel, key: Seq<u8>) -> Result<Option<Seq<u8>>, Seq<char>> {
    match read_refusal(key) {
        Some(reason) => Err(reason),
        None => Ok(lookup(store, key)),
    }
}

/// Removing one key if it is stored: the store afterwards and whether the
/// removal is confirmed.
pub open spec fn model_remove(store: StoreModel, key: Seq<u8>) -> (StoreModel, bool) {
    if remove_refusal(key) is None && store.contains_key(key) {
        (store.remove(key), true)
    } else {
        (store, false)
    }
}

/// Removing several keys one after the other: the store afterwards and the
/// confirmations, one per key.
pub open spec fn model_remove_all(store: StoreModel, keys: Seq<Seq<u8>>) -> (StoreModel, Seq<bool>)
    decreases keys.len(),
{
    if keys.len() == 0 {
        (store, Seq::empty())
    } else {
        let (before, confirmed) = model_remove_all(store, keys.drop_last());
        let (after, last) = model_remove(before, keys.last());
        (after, confirmed.push(last))
    }
}

/// Whether every key can be looked up.
pub open spec fn all_readable(keys: Seq<Seq<u8>>) -> bool {
    forall|i: int| 0 <= i < keys.len() ==> key_readable(#[trigger] keys[i])
}

/// Looking several keys up: the values in the order of the keys, or the
/// refusal if one of the keys is refused.
pub open spec fn model_fetch_all(store: StoreModel, keys: Seq<Seq<u8>>) -> Result<
    Seq<Option<Seq<u8>>>,
    Seq<char>,
> {
    if all_readable(keys) {
        Ok(Seq::new(keys.len(), |i: int| lookup(store, keys[i])))
    } else {
        Err("keys can be 65535 bytes in length"@)
    }
}

/// Executing a command on the ideal store: the store afterwards and the
/// reply.
pub open spec fn model_execute(store: StoreModel, command: CommandView) -> (StoreModel, FrameView) {
    match command {
        CommandView::Ping => (store, pong()),
        CommandView::SetKey { key, value } => {
            let (after, stored) = model_set(store, key, value);
            (after, set_reply_view(stored))
        },
        CommandView::GetKey { key } => (store, get_reply_view(model_get(store, key))),
        CommandView::DelKeys { keys } => {
            let (after, confirmed) = model_remove_all(store, keys);
            (after, del_reply_view(confirmed))
        },
        CommandView::ExistsKey { key } => (store, exists_reply_view(model_get(store, key))),
        CommandView::MgetKeys { keys } => (store, mget_reply_view(model_fetch_all(store, keys))),
    }
}

/// Serving a request on the ideal store: the store afterwards and the
/// reply. A request that fails validation leaves the store as it is.
pub open spec fn model_serve(store: StoreModel, request: FrameView) -> (StoreModel, FrameView) {
    match parse_request(request) {
        Err(refusal) => (store, refusal),
        Ok(command) => model_execute(store, command),
    }
}

/// The request frame that a client sends for a command: the array of the
/// name and the arguments, each as a bulk string.
pub open spec fn request(name: Seq<u8>, args: Seq<Seq<u8>>) -> FrameView {
    FrameView::Array(
        Seq::new(
            args.len() + 1,
            |i: int|
                if i == 0 {
                    FrameView::BulkString(name)
                } else {
                    FrameView::BulkString(args[i - 1])
                },
        ),
    )
}

/// The command that a well-formed request asks for.
pub open spec fn command_of(kind: CommandKind, args: Seq<Seq<u8>>) -> CommandView {
    match kind {
        CommandKind::Ping => CommandView::Ping,
        CommandKind::SetKey => CommandView::SetKey { key: args[0], value: args[1] },
        CommandKind::GetKey => CommandView::GetKey { key: args[0] },
        CommandKind::DelKeys => CommandView::DelKeys { keys: args },
        CommandKind::ExistsKey => CommandView::ExistsKey { key: args[0] },
        CommandKind::MgetKeys => CommandView::MgetKeys { keys: args },
    }
}

/// A request with a known name, an acceptable number of arguments and bulk
/// strings for arguments passes validation, and asks for the command of
/// that name with those arguments.
pub proof fn lemma_request_parses(kind: CommandKind, name: Seq<u8>, args: Seq<Seq<u8>>)
    requires
        command_kind(name) == Some(kind),
        kind.accepts_arity(args.len()),
    ensures
        parse_request(request(name, args)) == Ok::<CommandView, FrameView>(command_of(kind, args)),
{
    let items = request(name, args)->Array_0;
    let frames = items.skip(1);
    assert(frames.len() == args.len());
    assert forall|i: int| 0 <= i < frames.len() implies #[trigger] frames[i]
        == FrameView::BulkString(args[i]) by {
        assert(frames[i] == items[i + 1]);
    }
    assert(crate::command::all_bulk(frames));
    assert(crate::command::bulk_payloads(frames) =~= args);
    if args.len() >= 1 {
        assert(frames[0] == FrameView::BulkString(args[0]));
    }
    if args.len() >= 2 {
        assert(frames[1] == FrameView::BulkString(args[1]));
    }
    assert(parse_arguments(kind, frames) == Ok::<CommandView, FrameView>(command_of(kind, args)));
}

/// The confirmations of the ideal store agree with the keys.
pub proof fn lemma_model_confirmations_fit(store: StoreModel, keys: Seq<Seq<u8>>)
    ensures
        confirmations_fit(keys, model_remove_all(store, keys).1),
    decreases keys.len(),
{
    if keys.len() > 0 {
        lemma_model_confirmations_fit(store, keys.drop_last());
        let (before, confirmed) = model_remove_all(store, keys.drop_last());
        let all = model_remove_all(store, keys).1;
        assert forall|i: int|
            0 <= i < keys.len() && remove_refusal(#[trigger] keys[i]) is Some implies !all[i] by {
            if i < keys.len() - 1 {
                assert(keys.drop_last()[i] == keys[i]);
            }
        }
    }
}

/// Among keys that cannot all be looked up there is a first that is
/// refused: every key before it can be looked up.
pub proof fn lemma_first_refused_key(keys: Seq<Seq<u8>>) -> (at: int)
    requires
        !all_readable(keys),
    ensures
        0 <= at < keys.len(),
        !key_readable(keys[at]),
        forall|j: int| 0 <= j < at ==> key_readable(#[trigger] keys[j]),
    decreases keys.len(),
{
    let front = keys.drop_last();
    if all_readable(front) {
        assert forall|j: int| 0 <= j < keys.len() - 1 implies key_readable(
            #[trigger] keys[j],
        ) by {
            assert(front[j] == keys[j]);
        }
        keys.len() - 1
    } else {
        let at = lemma_first_refused_key(front);
        assert(front[at] == keys[at]);
        assert forall|j: int| 0 <= j < at implies key_readable(#[trigger] keys[j]) by {
            assert(front[j] == keys[j]);
        }
        at
    }
}

/// The model's reply to a command is one of the replies that executing the
/// command may give.
pub proof fn lemma_model_reply_possible(store: StoreModel, command: CommandView)
    ensures
        possible_reply(command, model_execute(store, command).1),
{
    match command {
        CommandView::Ping => {},
        CommandView::SetKey { key, value } => {
            let stored = model_set(store, key, value).1;
            assert(fits_refusal(write_refusal(key, value), stored));
            assert(model_execute(store, command).1 == set_reply_view(stored));
        },
        CommandView::GetKey { key } => {
            let found = model_get(store, key);
            assert(fits_refusal(read_refusal(key), found));
            assert(model_execute(store, command).1 == get_reply_view(found));
        },
        CommandView::DelKeys { keys } => {
            lemma_model_confirmations_fit(store, keys);
            let confirmed = model_remove_all(store, keys).1;
            assert(model_execute(store, command).1 == del_reply_view(confirmed));
        },
        CommandView::ExistsKey { key } => {
            let found = model_get(store, key);
            assert(fits_refusal(read_refusal(key), found));
            assert(model_execute(store, command).1 == exists_reply_view(found));
        },
        CommandView::MgetKeys { keys } => {
            let found = model_fetch_all(store, keys);
            if let Err(detail) = found {
                let at = lemma_first_refused_key(keys);
                assert(lookup_failed_at(keys, at, detail));
            }
            assert(lookups_fit(keys, found));
            assert(model_execute(store, command).1 == mget_reply_view(found));
        },
    }
}

/// The model's reply to a request is a reply that answers the request.
pub proof fn lemma_model_answers(store: StoreModel, request: FrameView)
    ensures
        answers(request, model_serve(store, request).1),
{
    if let Ok(command) = parse_request(request) {
        lemma_model_reply_possible(store, command);
    }
}

/// `PING` is answered with `PONG` whatever the store holds, whatever the
/// case of the name and whatever the arguments, and leaves the store as it
/// is.
pub proof fn lemma_ping_always_pong(store: StoreModel, name: Seq<u8>, args: Seq<Seq<u8>>)
    requires
        spells(name, "PING"@),
    ensures
        parse_request(request(name, args)) == Ok::<CommandView, FrameView>(CommandView::Ping),
        model_serve(store, request(name, args)) == (store, pong()),
        forall|reply: FrameView| answers(request(name, args), reply) ==> reply == pong(),
{
    lemma_request_parses(CommandKind::Ping, name, args);
}

/// Round trip: after `SET key value`, `GET key` replies with `value`
/// unchanged, for every key and value that the store takes.
pub proof fn lemma_set_then_get(
    store: StoreModel,
    set_name: Seq<u8>,
    get_name: Seq<u8>,
    key: Seq<u8>,
    value: Seq<u8>,
)
    requires
        command_kind(set_name) == Some(CommandKind::SetKey),
        command_kind(get_name) == Some(CommandKind::GetKey),
        key_writable(key),
        value_writable(value),
    ensures
        ({
            let (after, set_reply) = model_serve(store, request(set_name, seq![key, value]));
            let (last, get_reply) = model_serve(after, request(get_name, seq![key]));
            &&& set_reply == FrameView::SimpleString(ok_bytes())
            &&& get_reply == FrameView::BulkString(value)
            &&& last == after
        }),
{
    lemma_request_parses(CommandKind::SetKey, set_name, seq![key, value]);
    lemma_request_parses(CommandKind::GetKey, get_name, seq![key]);
}

/// `DEL key` on a key that was set removes it: it replies 1, and afterwards
/// `EXISTS key` replies 0 and `GET key` replies `Null`.
pub proof fn lemma_del_then_absent(
    store: StoreModel,
    set_name: Seq<u8>,
    del_name: Seq<u8>,
    exists_name: Seq<u8>,
    get_name: Seq<u8>,
    key: Seq<u8>,
    value: Seq<u8>,
)
    requires
        command_kind(set_name) == Some(CommandKind::SetKey),
        command_kind(del_name) == Some(CommandKind::DelKeys),
        command_kind(exists_name) == Some(CommandKind::ExistsKey),
        command_kind(get_name) == Some(CommandKind::GetKey),
        key_writable(key),
        value_writable(value),
    ensures
        ({
            let stored = model_serve(store, request(set_name, seq![key, value])).0;
            let (after, del_reply) = model_serve(stored, request(del_name, seq![key]));
            &&& del_reply == FrameView::Integer(1)
            &&& model_serve(after, request(exists_name, seq![key])).1 == FrameView::Integer(0)
            &&& model_serve(after, request(get_name, seq![key])).1 == FrameView::Null
        }),
{
    lemma_request_parses(CommandKind::SetKey, set_name, seq![key, value]);
    lemma_request_parses(CommandKind::DelKeys, del_name, seq![key]);
    lemma_request_parses(CommandKind::ExistsKey, exists_name, seq![key]);
    lemma_request_parses(CommandKind::GetKey, get_name, seq![key]);
    let stored = store.insert(key, value);
    let keys = seq![key];
    assert(keys.drop_last() =~= Seq::<Seq<u8>>::empty());
    reveal_with_fuel(model_remove_all, 2);
    reveal_with_fuel(count_confirmed, 2);
    let confirmed = model_remove_all(stored, keys).1;
    assert(confirmed =~= seq![true]);
    assert(confirmed.drop_last() =~= Seq::<bool>::empty());
}

/// `MGET` replies with one element per key, in the order of the keys: the
/// bulk string of the value for a key that is stored, `Null` for one that
/// is not.
pub proof fn lemma_mget_preserves_order(store: StoreModel, mget_name: Seq<u8>, keys: Seq<Seq<u8>>)
    requires
        command_kind(mget_name) == Some(CommandKind::MgetKeys),
        keys.len() >= 1,
        all_readable(keys),
    ensures
        model_serve(store, request(mget_name, keys)) == (
            store,
            FrameView::Array(Seq::new(keys.len(), |i: int| value_frame(lookup(store, keys[i])))),
        ),
{
    lemma_request_parses(CommandKind::MgetKeys, mget_name, keys);
    let values = Seq::new(keys.len(), |i: int| lookup(store, keys[i]));
    assert(Seq::new(values.len(), |i: int| value_frame(values[i])) =~= Seq::new(
        keys.len(),
        |i: int| value_frame(lookup(store, keys[i])),
    ));
}

/// What removing several keys does to the ideal store: afterwards a key is
/// absent if it is one of the keys and can be removed, and is otherwise as
/// it was.
pub proof fn lemma_remove_all_effect(store: StoreModel, keys: Seq<Seq<u8>>, key: Seq<u8>)
    ensures
        lookup(model_remove_all(store, keys).0, key) == if keys.contains(key) && key_writable(
            key,
        ) {
            None
        } else {
            lookup(store, key)
        },
    decreases keys.len(),
{
    if keys.len() > 0 {
        let front = keys.drop_last();
        lemma_remove_all_effect(store, front, key);
        assert(keys =~= front.push(keys.last()));
        if front.contains(key) {
            let i = choose|i: int| 0 <= i < front.len() && front[i] == key;
            assert(keys[i] == key);
        }
        if keys.contains(key) && !front.contains(key) {
            let i = choose|i: int| 0 <= i < keys.len() && keys[i] == key;
            if i < front.len() {
                assert(front[i] == key);
            }
            assert(keys.last() == key);
        }
        if keys.last() == key {
            assert(keys[keys.len() - 1] == key);
        }
    }
}

/// Which removals the ideal store confirms: among keys that are pairwise
/// different, exactly those that can be removed and were stored. So `DEL`
/// counts the keys that existed.
pub proof fn lemma_del_counts_stored_keys(store: StoreModel, keys: Seq<Seq<u8>>)
    requires
        keys.no_duplicates(),
    ensures
        ({
            let confirmed = model_remove_all(store, keys).1;
            &&& confirmed.len() == keys.len()
            &&& forall|i: int|
                0 <= i < keys.len() ==> #[trigger] confirmed[i] == (key_writable(keys[i])
                    && store.contains_key(keys[i]))
        }),
    decreases keys.len(),
{
    if keys.len() > 0 {
        let front = keys.drop_last();
        let last = keys.last();
        lemma_del_counts_stored_keys(store, front);
        lemma_remove_all_effect(store, front, last);
        if front.contains(last) {
            let i = choose|i: int| 0 <= i < front.len() && front[i] == last;
            assert(keys[i] == keys[keys.len() - 1]);
        }
        let confirmed = model_remove_all(store, keys).1;
        assert forall|i: int| 0 <= i < keys.len() implies #[trigger] confirmed[i] == (key_writable(
            keys[i],
        ) && store.contains_key(keys[i])) by {
            if i < keys.len() - 1 {
                assert(front[i] == keys[i]);
            }
        }
    }
}

/// Whether a command writes or removes `key`.
pub open spec fn writes_key(command: CommandView, key: Seq<u8>) -> bool {
    match command {
        CommandView::SetKey { key: written, .. } => written == key,
        CommandView::DelKeys { keys } => keys.contains(key),
        _ => false,
    }
}

/// No interference between different keys: a command that does not write or
/// remove `key` leaves what is stored under `key` as it was, so a client
/// that works on keys of its own reads back its own writes whatever
/// commands on other keys are served in between.
pub proof fn lemma_other_keys_untouched(store: StoreModel, command: CommandView, key: Seq<u8>)
    requires
        !writes_key(command, key),
    ensures
        lookup(model_execute(store, command).0, key) == lookup(store, key),
{
    if let CommandView::DelKeys { keys } = command {
        lemma_remove_all_effect(store, keys, key);
    }
}

} // verus!
