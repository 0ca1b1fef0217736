use vstd::prelude::*;

use crate::error::ConfigurationError;
use crate::loader::LoadOutcome;
use crate::loader::deserialized;
use crate::loader::is_load_outcome;
use crate::loader::is_load_result;
use crate::loader::is_written_default;

verus! {

/// A deserializer matches a serializer when it maps every serialized form of
/// a value back to exactly that value.
pub open spec fn inverts<T, E, S: FnOnce(&T) -> String, D: FnOnce(&str) -> Result<T, E>>(
    deserializer: D,
    serializer: S,
) -> bool {
    forall|v: &T, c: String, s: &str, dr: Result<T, E>|
        #[trigger] call_ensures(serializer, (v,), c) && s@ == c@ && #[trigger] call_ensures(
            deserializer,
            (s,),
            dr,
        ) ==> dr == Ok::<T, E>(*v)
}

/// Round trip: when `load_or_write_default` on an absent path decided to
/// write `content` for the value `value`, the path then holds exactly
/// `content`, and a later `load_from_path` reads it back with a deserializer
/// that matches the serializer, that load returns `Ok(value)`.
pub proof fn lemma_round_trip<T, E, S, F, D>(
    serializer: S,
    default: F,
    deserializer: D,
    content: String,
    value: T,
    read_back: String,
    r: Result<T, ConfigurationError<E>>,
) where S: FnOnce(&T) -> String, F: FnOnce() -> T, D: FnOnce(&str) -> Result<T, E>
    requires
        is_written_default(
            serializer,
            default,
            (LoadOutcome::<T, E>::WriteDefault { content, value }),
        ),
        read_back@ == content@,
        inverts(deserializer, serializer),
        is_load_result(deserializer, Ok::<String, std::io::Error>(read_back), r),
    ensures
        r == Ok::<T, ConfigurationError<E>>(value),
{
    let outcome = LoadOutcome::<T, E>::WriteDefault { content, value };
    let (v, c) = choose|v: &T, c: String|
        #[trigger] call_ensures(default, (), *v) && #[trigger] call_ensures(serializer, (v,), c)
            && outcome == (LoadOutcome::<T, E>::WriteDefault { content: c, value: *v });
    let (s, dr) = choose|s: &str, dr: Result<T, E>|
        s@ == read_back@ && #[trigger] call_ensures(deserializer, (s,), dr) && r == deserialized(
            dr,
        );
    assert(call_ensures(serializer, (v,), c) && s@ == c@ && call_ensures(deserializer, (s,), dr));
    assert(dr == Ok::<T, E>(*v));
}

/// Idempotent existence: when a first `load_or_write_default` on an absent
/// path decided to write `content` for `value` (so a successful write makes
/// the first call return `Ok(value)`, see `finish_write_default`), the path
/// then holds exactly `content`, and a second `load_or_write_default` finds
/// it there with a deserializer that matches the first serializer, the second
/// call yields the same value — and asks for no second write, so the file is
/// written exactly once.
pub proof fn lemma_idempotent<T, E, S, F, D2, S2, F2>(
    serializer: S,
    default: F,
    deserializer2: D2,
    serializer2: S2,
    default2: F2,
    content: String,
    value: T,
    read_back: String,
    outcome2: LoadOutcome<T, E>,
) where
    S: FnOnce(&T) -> String,
    F: FnOnce() -> T,
    D2: FnOnce(&str) -> Result<T, E>,
    S2: FnOnce(&T) -> String,
    F2: FnOnce() -> T,

    requires
        is_written_default(
            serializer,
            default,
            (LoadOutcome::<T, E>::WriteDefault { content, value }),
        ),
        read_back@ == content@,
        inverts(deserializer2, serializer),
        is_load_outcome(
            deserializer2,
            serializer2,
            default2,
            Some(Ok::<String, std::io::Error>(read_back)),
            outcome2,
        ),
    ensures
        outcome2 == LoadOutcome::<T, E>::Loaded(Ok::<T, ConfigurationError<E>>(value)),
{
    let r2 = choose|r: Result<T, ConfigurationError<E>>|
        outcome2 == LoadOutcome::Loaded(r) && #[trigger] is_load_result(
            deserializer2,
            Ok::<String, std::io::Error>(read_back),
            r,
        );
    lemma_round_trip(serializer, default, deserializer2, content, value, read_back, r2);
}

/// No write on an existing file: whatever `load_or_write_default` decided for
/// a path that exists is a `Loaded` outcome carrying exactly the load result
/// of the file's content — never a `WriteDefault`, so the file's bytes are
/// left untouched.
pub proof fn lemma_no_write_on_existing_file<T, E, D, S, F>(
    deserializer: D,
    serializer: S,
    default: F,
    read_result: Result<String, std::io::Error>,
    outcome: LoadOutcome<T, E>,
) where D: FnOnce(&str) -> Result<T, E>, S: FnOnce(&T) -> String, F: FnOnce() -> T
    requires
        is_load_outcome(deserializer, serializer, default, Some(read_result), outcome),
    ensures
        outcome matches LoadOutcome::Loaded(r) && is_load_result(deserializer, read_result, r),
        !(outcome is WriteDefault),
{
    let r = choose|r: Result<T, ConfigurationError<E>>|
        outcome == LoadOutcome::Loaded(r) && #[trigger] is_load_result(
            deserializer,
            read_result,
            r,
        );
}

/// Error propagation: when the read of the file failed — in particular when
/// the path does not exist — the load returns exactly `Io` carrying the
/// read's error; no other outcome is possible, and a verified load never
/// panics.
pub proof fn lemma_io_error_propagation<T, E, D>(
    deserializer: D,
    e: std::io::Error,
    r: Result<T, ConfigurationError<E>>,
) where D: FnOnce(&str) -> Result<T, E>
    requires
        is_load_result(deserializer, Err::<String, std::io::Error>(e), r),
    ensures
        r == Err::<T, ConfigurationError<E>>(ConfigurationError::Io(e)),
{
}

/// Malformed content: when every answer the deserializer can give on the
/// file's content is the error `e0`, loading that content returns exactly
/// `Deserialize(e0)`, the deserializer's own error carried unchanged.
pub proof fn lemma_malformed_content<T, E, D>(
    deserializer: D,
    content: String,
    e0: E,
    r: Result<T, ConfigurationError<E>>,
) where D: FnOnce(&str) -> Result<T, E>
    requires
        forall|s: &str, dr: Result<T, E>|
            s@ == content@ && #[trigger] call_ensures(deserializer, (s,), dr) ==> dr == Err::<
                T,
                E,
            >(e0),
        is_load_result(deserializer, Ok::<String, std::io::Error>(content), r),
    ensures
        r == Err::<T, ConfigurationError<E>>(ConfigurationError::Deserialize(e0)),
{
    let (s, dr) = choose|s: &str, dr: Result<T, E>|
        s@ == content@ && #[trigger] call_ensures(deserializer, (s,), dr) && r == deserialized(
            dr,
        );
}

} // verus!
