use vstd::prelude::*;

use crate::error::ConfigurationError;

verus! {

/// The configuration that a deserializer's answer yields: a success is handed
/// through, a rejection is wrapped as `ConfigurationError::Deserialize` with
/// the deserializer's own error carried unchanged.
pub open spec fn deserialized<T, E>(dr: Result<T, E>) -> Result<T, ConfigurationError<E>> {
    match dr {
        Ok(t) => Ok(t),
        Err(e) => Err(ConfigurationError::Deserialize(e)),
    }
}

/// Relates a whole-file read outcome and a load result `r`, for a given
/// deserializer: a failed read yields exactly `Io` with the read's error, and
/// a successful read yields exactly the deserializer's answer on the content,
/// wrapped by `deserialized`.
pub open spec fn is_load_result<T, E, D: FnOnce(&str) -> Result<T, E>>(
    deserializer: D,
    read_result: Result<String, std::io::Error>,
    r: Result<T, ConfigurationError<E>>,
) -> bool {
    match read_result {
        Err(e) => r == Err::<T, ConfigurationError<E>>(ConfigurationError::Io(e)),
        Ok(content) => exists|s: &str, dr: Result<T, E>|
            s@ == content@ && #[trigger] call_ensures(deserializer, (s,), dr) && r
                == deserialized(dr),
    }
}

/// Load a configuration from the outcome of reading the file at a path.
///
/// The embedding application reads the whole file to a string and passes the
/// outcome; on a successful read the supplied deserializer is invoked on the
/// content. The read's error, or the deserializer's, is carried unchanged in
/// the result, so a caller can still match on it.
pub fn load_from_path<T, E, D>(read_result: Result<String, std::io::Error>, deserializer: D) -> (r:
    Result<T, ConfigurationError<E>>) where D: FnOnce(&str) -> Result<T, E>
    requires
        forall|s: &str| call_requires(deserializer, (s,)),
    ensures
        is_load_result(deserializer, read_result, r),
{
    match read_result {
        Err(e) => Err(ConfigurationError::Io(e)),
        Ok(content) => {
            let s = content.as_str();
            match deserializer(s) {
                Ok(t) => Ok(t),
                Err(e) => Err(ConfigurationError::Deserialize(e)),
            }
        },
    }
}

/// What `load_or_write_default` decided: either the file was found and loaded
/// (so nothing is owed to the filesystem), or it was absent and the default
/// configuration is to be persisted.
pub enum LoadOutcome<T, E> {
    /// The path existed: the result of loading it. No write is to happen, so
    /// an existing file is never touched.
    Loaded(Result<T, ConfigurationError<E>>),
    /// The path did not exist: the application is to write `content` to it
    /// and then hand `value` to its caller via `finish_write_default`.
    WriteDefault { content: String, value: T },
}

/// Relates a default producer and a result `r`: `r` is exactly `Ok` of a
/// value the producer yields.
pub open spec fn is_default_result<T, E, F: FnOnce() -> T>(
    default: F,
    r: Result<T, ConfigurationError<E>>,
) -> bool {
    exists|t: T| #[trigger] call_ensures(default, (), t) && r == Ok::<T, ConfigurationError<E>>(t)
}

/// Relates a serializer, a default producer and an outcome: the outcome asks
/// for a write of exactly the serialized form of a produced default value,
/// and returns that same value.
pub open spec fn is_written_default<T, E, S: FnOnce(&T) -> String, F: FnOnce() -> T>(
    serializer: S,
    default: F,
    outcome: LoadOutcome<T, E>,
) -> bool {
    exists|v: &T, c: String|
        #[trigger] call_ensures(default, (), *v) && #[trigger] call_ensures(serializer, (v,), c)
            && outcome == (LoadOutcome::<T, E>::WriteDefault { content: c, value: *v })
}

/// Relates an existence probe and an outcome of `load_or_write_default`: when
/// the path existed the outcome is `Loaded` with exactly the load result —
/// never a write — and when it was absent the outcome is the serialized
/// default, to be written.
pub open spec fn is_load_outcome<
    T,
    E,
    D: FnOnce(&str) -> Result<T, E>,
    S: FnOnce(&T) -> String,
    F: FnOnce() -> T,
>(
    deserializer: D,
    serializer: S,
    default: F,
    probe: Option<Result<String, std::io::Error>>,
    outcome: LoadOutcome<T, E>,
) -> bool {
    match probe {
        Some(read_result) => exists|r: Result<T, ConfigurationError<E>>|
            outcome == LoadOutcome::Loaded(r) && #[trigger] is_load_result(
                deserializer,
                read_result,
                r,
            ),
        None => is_written_default(serializer, default, outcome),
    }
}

/// Load a configuration from a file, or fall back to a default value when the
/// file does not exist.
///
/// The embedding application probes the path: `None` means the path does not
/// exist, `Some` carries the outcome of reading it. On `None` the supplied
/// default producer's value is returned and nothing else happens — in
/// particular no file is created. On `Some` the behaviour and the errors are
/// exactly those of `load_from_path`.
pub fn load_or_default<T, E, D, F>(
    probe: Option<Result<String, std::io::Error>>,
    deserializer: D,
    default: F,
) -> (r: Result<T, ConfigurationError<E>>) where
    D: FnOnce(&str) -> Result<T, E>,
    F: FnOnce() -> T,

    requires
        forall|s: &str| call_requires(deserializer, (s,)),
        call_requires(default, ()),
    ensures
        probe matches Some(read_result) ==> is_load_result(deserializer, read_result, r),
        probe is None ==> is_default_result(default, r),
{
    match probe {
        Some(read_result) => load_from_path(read_result, deserializer),
        None => Ok(default()),
    }
}

/// Load a configuration from a file; when the file does not exist, produce
/// the default value and decide the write that persists it.
///
/// The embedding application probes the path as for `load_or_default`. When
/// the path exists, the outcome is `Loaded` with exactly the result of
/// `load_from_path` — an existing file is never written to. When it is
/// absent, the default value is produced, serialized with the supplied
/// serializer, and handed back as a `WriteDefault` outcome; the application
/// performs the write and finishes with `finish_write_default`.
pub fn load_or_write_default<T, E, D, S, F>(
    probe: Option<Result<String, std::io::Error>>,
    deserializer: D,
    serializer: S,
    default: F,
) -> (outcome: LoadOutcome<T, E>) where
    D: FnOnce(&str) -> Result<T, E>,
    S: FnOnce(&T) -> String,
    F: FnOnce() -> T,

    requires
        forall|s: &str| call_requires(deserializer, (s,)),
        forall|v: &T| call_requires(serializer, (v,)),
        call_requires(default, ()),
    ensures
        is_load_outcome(deserializer, serializer, default, probe, outcome),
{
    match probe {
        Some(read_result) => LoadOutcome::Loaded(load_from_path(read_result, deserializer)),
        None => {
            let value = default();
            let content = serializer(&value);
            LoadOutcome::WriteDefault { content, value }
        },
    }
}

/// Turn the outcome of writing a default configuration into the final result:
/// a successful write returns the value that was persisted, a failed write
/// discards it and carries the write's error as `Io`, unchanged.
pub fn finish_write_default<T, E>(value: T, write_result: Result<(), std::io::Error>) -> (r: Result<
    T,
    ConfigurationError<E>,
>)
    ensures
        write_result is Ok ==> r == Ok::<T, ConfigurationError<E>>(value),
        write_result matches Err(e) ==> r == Err::<T, ConfigurationError<E>>(
            ConfigurationError::Io(e),
        ),
{
    match write_result {
        Ok(()) => Ok(value),
        Err(e) => Err(ConfigurationError::Io(e)),
    }
}

} // verus!
