use graze::ConfigurationError;
use graze::LoadOutcome;

#[derive(Debug, PartialEq, Clone)]
struct Greeting {
    message: String,
    amount: u64,
}

fn default_greeting() -> Greeting {
    Greeting { message: String::from("Hello, world!"), amount: 3 }
}

fn serialize_greeting(c: &Greeting) -> String {
    format!("message = \"{}\"\namount = {}\n", c.message, c.amount)
}

fn deserialize_greeting(s: &str) -> Result<Greeting, String> {
    let mut message: Option<String> = None;
    let mut amount: Option<u64> = None;
    for line in s.lines() {
        if let Some(rest) = line.strip_prefix("message = ") {
            let trimmed = rest.trim();
            if trimmed.len() < 2 || !trimmed.starts_with('"') || !trimmed.ends_with('"') {
                return Err(format!("message is not a string: {rest}"));
            }
            message = Some(String::from(&trimmed[1..trimmed.len() - 1]));
        } else if let Some(rest) = line.strip_prefix("amount = ") {
            match rest.trim().parse::<u64>() {
                Ok(n) => amount = Some(n),
                Err(_) => return Err(format!("amount is not a number: {rest}")),
            }
        } else if !line.trim().is_empty() {
            return Err(format!("unexpected line: {line}"));
        }
    }
    match (message, amount) {
        (Some(message), Some(amount)) => Ok(Greeting { message, amount }),
        _ => Err(String::from("missing field")),
    }
}

#[test]
fn fresh_path_writes_the_default_and_loads_back_equal() {
    // The path does not exist, so the probe is None.
    let outcome = graze::load_or_write_default(
        None,
        |s: &str| deserialize_greeting(s),
        |c: &Greeting| serialize_greeting(c),
        default_greeting,
    );
    let (content, value) = match outcome {
        LoadOutcome::WriteDefault { content, value } => (content, value),
        LoadOutcome::Loaded(_) => panic!("an absent path must ask for a write"),
    };
    assert_eq!(content, "message = \"Hello, world!\"\namount = 3\n");

    // The application writes `content` to the path; the write succeeds.
    let first: Result<Greeting, ConfigurationError<String>> =
        graze::finish_write_default(value, Ok(()));
    let first = first.ok().unwrap();
    assert_eq!(first, default_greeting());

    // The file now holds `content`; a later load reads it back.
    let second: Result<Greeting, ConfigurationError<String>> =
        graze::load_from_path(Ok(content), |s: &str| deserialize_greeting(s));
    assert_eq!(second.ok().unwrap(), first);
}

#[test]
fn round_trip_preserves_any_value() {
    let values = vec![
        Greeting { message: String::from(""), amount: 0 },
        Greeting { message: String::from("with spaces and = signs"), amount: u64::MAX },
        Greeting { message: String::from("Hello, world!"), amount: 3 },
    ];
    for v in values {
        let produce = v.clone();
        let outcome = graze::load_or_write_default(
            None,
            |s: &str| deserialize_greeting(s),
            |c: &Greeting| serialize_greeting(c),
            move || produce,
        );
        match outcome {
            LoadOutcome::WriteDefault { content, value } => {
                assert_eq!(value, v);
                let back: Result<Greeting, ConfigurationError<String>> =
                    graze::load_from_path(Ok(content), |s: &str| deserialize_greeting(s));
                assert_eq!(back.ok().unwrap(), v);
            },
            LoadOutcome::Loaded(_) => panic!("an absent path must ask for a write"),
        }
    }
}
