use vstd::prelude::*;
use vstd::string::*;

verus! {

/// Severity of an item, from least to most severe.
#[derive(Debug, Clone, Copy, PartialEq, Eq, Structural, PartialOrd, Ord, Hash)]
pub enum Level {
    Debug,
    Info,
    Warning,
    Error,
    Critical,
}

/// Severity as the C interface numbers it.
#[derive(Debug, Clone, Copy, PartialEq, Eq, Structural)]
pub enum LevelCompat {
    Debug,
    Info,
    Warning,
    Error,
    Critical,
}

/// The level that a name stands for: the five lowercase names, and `Error`
/// for any other text.
pub open spec fn level_named(name: Seq<char>) -> Level {
    if name == "debug"@ {
        Level::Debug
    } else if name == "info"@ {
        Level::Info
    } else if name == "warning"@ {
        Level::Warning
    } else if name == "critical"@ {
        Level::Critical
    } else {
        Level::Error
    }
}

impl Level {
    /// The lowercase name under which the level is sent.
    pub open spec fn spec_name(self) -> Seq<char> {
        match self {
            Level::Debug => "debug"@,
            Level::Info => "info"@,
            Level::Warning => "warning"@,
            Level::Error => "error"@,
            Level::Critical => "critical"@,
        }
    }

    pub fn name(&self) -> (r: String)
        ensures
            r@ == self.spec_name(),
    {
        match self {
            Level::Debug => String::from_str("debug"),
            Level::Info => String::from_str("info"),
            Level::Warning => String::from_str("warning"),
            Level::Error => String::from_str("error"),
            Level::Critical => String::from_str("critical"),
        }
    }

    /// Reads a level name; unknown names read as `Error`.
    pub fn from_name(name: &String) -> (r: Level)
        ensures
            r == level_named(name@),
    {
        if *name == String::from_str("debug") {
            Level::Debug
        } else if *name == String::from_str("info") {
            Level::Info
        } else if *name == String::from_str("warning") {
            Level::Warning
        } else if *name == String::from_str("critical") {
            Level::Critical
        } else {
            Level::Error
        }
    }
}

impl LevelCompat {
    pub open spec fn spec_level(self) -> Level {
        match self {
            LevelCompat::Debug => Level::Debug,
            LevelCompat::Info => Level::Info,
            LevelCompat::Warning => Level::Warning,
            LevelCompat::Error => Level::Error,
            LevelCompat::Critical => Level::Critical,
        }
    }
}

impl From<LevelCompat> for Level {
    fn from(level: LevelCompat) -> (r: Level) {
        match level {
            LevelCompat::Debug => Level::Debug,
            LevelCompat::Info => Level::Info,
            LevelCompat::Warning => Level::Warning,
            LevelCompat::Error => Level::Error,
            LevelCompat::Critical => Level::Critical,
        }
    }
}

impl vstd::std_specs::convert::FromSpecImpl<LevelCompat> for Level {
    open spec fn obeys_from_spec() -> bool {
        true
    }

    open spec fn from_spec(level: LevelCompat) -> Level {
        level.spec_level()
    }
}

/// One event to report.
#[derive(Debug, Clone)]
pub struct Item {
    pub data: Data,
}

#[derive(Debug, Clone)]
pub struct Data {
    pub body: Body,
    pub level: Level,
    pub language: Option<String>,
    pub context: Option<String>,
}

#[derive(Debug, Clone)]
pub enum Body {
    Message(Message),
    Trace(Trace),
}

/// A text message. Each extra entry is a key and the JSON text of its value;
/// the entries are sent beside the text, in order.
#[derive(Debug, Clone)]
pub struct Message {
    pub body: String,
    pub extra: Vec<(String, String)>,
}

#[derive(Debug, Clone)]
pub struct Trace {
    pub frames: Vec<Frame>,
    pub exception: Exception,
}

#[derive(Debug, Clone)]
pub struct Frame {
    pub filename: String,
    pub lineno: Option<u32>,
    pub colno: Option<u32>,
}

#[derive(Debug, Clone)]
pub struct Exception {
    pub class: String,
}

/// The exception class reported for a panic whose payload is not text.
pub open spec fn unknown_panic_class() -> Seq<char> {
    "panic!(...)"@
}

impl Item {
    /// A message item at the given level, with no language or context.
    pub fn message(level: Level, body: String, extra: Vec<(String, String)>) -> (r: Item)
        ensures
            r.data.level == level,
            r.data.body == Body::Message(Message { body, extra }),
            r.data.language.is_none(),
            r.data.context.is_none(),
    {
        Item {
            data: Data { body: Body::Message(Message { body, extra }), level, language: None, context: None },
        }
    }

    /// The item reported for a panic: a critical trace in the language
    /// `rust`, whose one frame is the panic's location where it is known,
    /// and whose exception class is the panic's text where it has one.
    pub fn panic(payload: Option<String>, location: Option<Frame>) -> (r: Item)
        ensures
            r.data.level == Level::Critical,
            r.data.language matches Some(l) && l@ == "rust"@,
            r.data.context.is_none(),
            r.data.body matches Body::Trace(t) && {
                &&& t.exception.class@ == (match payload {
                    Some(p) => p@,
                    None => unknown_panic_class(),
                })
                &&& t.frames@ == (match location {
                    Some(f) => seq![f],
                    None => Seq::<Frame>::empty(),
                })
            },
    {
        let class = match payload {
            Some(p) => p,
            None => String::from_str("panic!(...)"),
        };
        let mut frames: Vec<Frame> = Vec::new();
        match location {
            Some(f) => frames.push(f),
            None => {},
        }
        proof {
            assert(frames@ =~= match location {
                Some(f) => seq![f],
                None => Seq::<Frame>::empty(),
            });
        }
        Item {
            data: Data {
                body: Body::Trace(Trace { frames, exception: Exception { class } }),
                level: Level::Critical,
                language: Some(String::from_str("rust")),
                context: None,
            },
        }
    }
}

} // verus!
