//! Configuration read from a JSON object: a flat list of named values.

use vstd::prelude::*;

verus! {

/// A value of the configuration, as far as this library reads it.
#[derive(Debug, PartialEq, Eq)]
pub enum ConfigValue {
    /// A JSON string.
    Text(String),
    /// A JSON number that is a whole number from 0 to `u64::MAX`.
    U64(u64),
    /// Anything else: null, a boolean, another number, an array, an object.
    Other,
}

/// A configuration value in contracts.
pub enum ConfigValueView {
    Text(Seq<char>),
    U64(u64),
    Other,
}

impl View for ConfigValue {
    type V = ConfigValueView;

    open spec fn view(&self) -> ConfigValueView {
        match self {
            ConfigValue::Text(text) => ConfigValueView::Text(text@),
            ConfigValue::U64(n) => ConfigValueView::U64(*n),
            ConfigValue::Other => ConfigValueView::Other,
        }
    }
}

impl ConfigValue {
    /// A copy of the value.
    pub fn duplicate(&self) -> (copy: ConfigValue)
        ensures
            copy@ == self@,
    {
        match self {
            ConfigValue::Text(text) => ConfigValue::Text(text.clone()),
            ConfigValue::U64(n) => ConfigValue::U64(*n),
            ConfigValue::Other => ConfigValue::Other,
        }
    }
}

/// Why the configuration does not answer.
#[derive(Clone, Copy, Debug, PartialEq, Eq, Structural)]
pub enum ConfigError {
    /// No text has been parsed, or the text was no JSON object.
    NotParsed,
    /// The object has no member of that name.
    NotFound,
    /// The member is no string.
    NotAString,
    /// The member is no whole number from 0 to `u64::MAX`.
    NotANumber,
    /// The save interval is not below the send interval.
    SaveNotBelowSend,
}

impl ConfigError {
    /// What is wrong, in words.
    pub open spec fn message_text(self) -> Seq<char> {
        match self {
            ConfigError::NotParsed => "Data not parsed"@,
            ConfigError::NotFound => "Value not found"@,
            ConfigError::NotAString => "Expected a String Value"@,
            ConfigError::NotANumber => "Expected a u64"@,
            ConfigError::SaveNotBelowSend => "Fatal error.  Sending interval < Saving Interval"@,
        }
    }

    /// Says in words what is wrong.
    pub fn message(&self) -> (text: &'static str)
        ensures
            text@ == self.message_text(),
    {
        match self {
            ConfigError::NotParsed => "Data not parsed",
            ConfigError::NotFound => "Value not found",
            ConfigError::NotAString => "Expected a String Value",
            ConfigError::NotANumber => "Expected a u64",
            ConfigError::SaveNotBelowSend => "Fatal error.  Sending interval < Saving Interval",
        }
    }
}

/// The members of the JSON object that a text holds, each with its name, in
/// the order in which `serde_json` hands them out; `None` where the text is
/// no JSON object.
pub uninterp spec fn json_object_members(text: Seq<char>) -> Option<
    Seq<(Seq<char>, ConfigValueView)>,
>;

/// A list of members in contracts.
pub open spec fn members_view(members: Seq<(String, ConfigValue)>) -> Seq<
    (Seq<char>, ConfigValueView),
> {
    Seq::new(members.len(), |i: int| (members[i].0@, members[i].1@))
}

/// `serde_json::from_str` into a `serde_json::Map<String, Value>`, and the
/// members of that map handed out in its own order. A string member keeps its
/// text, a number for which `Number::as_u64` answers keeps that number, and
/// every other member is marked as `Other`. `None` where `from_str` fails:
/// the text is no JSON, or no object.
#[verifier::external_body]
fn parse_members(text: &str) -> (members: Option<Vec<(String, ConfigValue)>>)
    ensures
        match members {
            Some(found) => json_object_members(text@) == Some(members_view(found@)),
            None => json_object_members(text@) is None,
        },
{
    let object: serde_json::Map<String, serde_json::Value> = serde_json::from_str(text).ok()?;
    Some(object.into_iter().map(|(name, value)| (name, match value {
        serde_json::Value::Null => ConfigValue::Other,
        serde_json::Value::Bool(_) => ConfigValue::Other,
        serde_json::Value::Number(n) => n.as_u64().map_or(ConfigValue::Other, ConfigValue::U64),
        serde_json::Value::String(text) => ConfigValue::Text(text),
        serde_json::Value::Array(_) => ConfigValue::Other,
        serde_json::Value::Object(_) => ConfigValue::Other,
    })).collect())
}

/// No name occurs twice in a list of members.
pub open spec fn names_differ(members: Seq<(Seq<char>, ConfigValueView)>) -> bool {
    forall|i: int, j: int| 0 <= i < j < members.len() ==> members[i].0 != members[j].0
}

/// The configuration that a text holds: the members of its JSON object,
/// where it is one and names no member twice.
pub open spec fn config_of(text: Seq<char>) -> Option<Seq<(Seq<char>, ConfigValueView)>> {
    match json_object_members(text) {
        Some(members) => if names_differ(members) {
            Some(members)
        } else {
            None
        },
        None => None,
    }
}

/// Whether no name occurs twice in a list of members.
fn no_name_twice(members: &Vec<(String, ConfigValue)>) -> (ok: bool)
    ensures
        ok == names_differ(members_view(members@)),
{
    let mut j: usize = 0;
    while j < members.len()
        invariant
            j <= members@.len(),
            forall|a: int, b: int|
                0 <= a < b < j ==> members_view(members@)[a].0 != members_view(members@)[b].0,
        decreases members@.len() - j,
    {
        let mut i: usize = 0;
        while i < j
            invariant
                i <= j < members@.len(),
                forall|a: int|
                    0 <= a < i ==> members_view(members@)[a].0 != members_view(members@)[j as int].0,
            decreases j - i,
        {
            if members[i].0 == members[j].0 {
                assert(members_view(members@)[i as int].0 == members_view(members@)[j as int].0);
                return false;
            }
            i += 1;
        }
        j += 1;
    }
    true
}

/// The value of the first member called `key`, if there is one.
pub open spec fn lookup(members: Seq<(Seq<char>, ConfigValueView)>, key: Seq<char>) -> Option<
    ConfigValueView,
>
    decreases members.len(),
{
    if members.len() == 0 {
        None
    } else if members[0].0 == key {
        Some(members[0].1)
    } else {
        lookup(members.skip(1), key)
    }
}

/// The text of the member called `key`.
pub open spec fn text_of(members: Option<Seq<(Seq<char>, ConfigValueView)>>, key: Seq<char>)
    -> Result<Seq<char>, ConfigError> {
    match members {
        None => Err(ConfigError::NotParsed),
        Some(found) => match lookup(found, key) {
            None => Err(ConfigError::NotFound),
            Some(ConfigValueView::Text(text)) => Ok(text),
            Some(_) => Err(ConfigError::NotAString),
        },
    }
}

/// The number of the member called `key`.
pub open spec fn number_of(members: Option<Seq<(Seq<char>, ConfigValueView)>>, key: Seq<char>)
    -> Result<u64, ConfigError> {
    match members {
        None => Err(ConfigError::NotParsed),
        Some(found) => match lookup(found, key) {
            None => Err(ConfigError::NotFound),
            Some(ConfigValueView::U64(n)) => Ok(n),
            Some(_) => Err(ConfigError::NotANumber),
        },
    }
}

/// The configuration: nothing until a text has been parsed, then the members
/// of its JSON object, none of which has the name of another.
pub struct Config {
    parsed_json: Option<Vec<(String, ConfigValue)>>,
}

impl View for Config {
    type V = Option<Seq<(Seq<char>, ConfigValueView)>>;

    closed spec fn view(&self) -> Option<Seq<(Seq<char>, ConfigValueView)>> {
        match self.parsed_json {
            Some(members) => Some(members_view(members@)),
            None => None,
        }
    }
}

impl Config {
    #[verifier::type_invariant]
    spec fn names_kept_apart(&self) -> bool {
        match self.parsed_json {
            Some(members) => names_differ(members_view(members@)),
            None => true,
        }
    }

    /// A configuration that holds nothing yet.
    pub fn new() -> (config: Config)
        ensures
            config@ is None,
    {
        Config { parsed_json: None }
    }

    /// Reads the members of the JSON object in `json_string`. Where the text
    /// is no JSON object, or names a member twice, the configuration holds
    /// nothing afterwards, and the answer is `false`.
    pub fn parse_json(&mut self, json_string: &str) -> (ok: bool)
        ensures
            final(self)@ == config_of(json_string@),
            ok == final(self)@ is Some,
    {
        match parse_members(json_string) {
            Some(members) => {
                if no_name_twice(&members) {
                    self.parsed_json = Some(members);
                    true
                } else {
                    self.parsed_json = None;
                    false
                }
            },
            None => {
                self.parsed_json = None;
                false
            },
        }
    }

    /// The value of the member called `key`, or an error that says why there
    /// is none.
    pub fn find(&self, key: &str) -> (found: Result<ConfigValue, ConfigError>)
        ensures
            self@ matches Some(members) ==> names_differ(members),
            match found {
                Ok(value) => self@ matches Some(members) && lookup(members, key@) == Some(value@),
                Err(e) => match self@ {
                    Some(members) => e == ConfigError::NotFound && lookup(members, key@) is None,
                    None => e == ConfigError::NotParsed,
                },
            },
    {
        proof {
            use_type_invariant(self);
        }
        match &self.parsed_json {
            None => Err(ConfigError::NotParsed),
            Some(members) => {
                let wanted = key.to_owned();
                let mut i: usize = 0;
                assert(members_view(members@).skip(0) =~= members_view(members@));
                while i < members.len()
                    invariant
                        i <= members@.len(),
                        wanted@ == key@,
                        self@ == Some(members_view(members@)),
                        names_differ(members_view(members@)),
                        lookup(members_view(members@), key@) == lookup(
                            members_view(members@).skip(i as int),
                            key@,
                        ),
                    decreases members@.len() - i,
                {
                    let ghost rest = members_view(members@).skip(i as int);
                    assert(rest[0] == members_view(members@)[i as int]);
                    assert(rest.skip(1) =~= members_view(members@).skip(i + 1));
                    if members[i].0 == wanted {
                        assert(lookup(rest, key@) == Some(rest[0].1));
                        return Ok(members[i].1.duplicate());
                    }
                    assert(lookup(rest, key@) == lookup(rest.skip(1), key@));
                    i += 1;
                }
                Err(ConfigError::NotFound)
            },
        }
    }

    /// The value of the member called `key`, if there is one.
    pub fn get(&mut self, key: &str) -> (value: Option<ConfigValue>)
        requires
            old(self)@ is Some,
        ensures
            *final(self) == *old(self),
            match value {
                Some(found) => lookup(old(self)@->0, key@) == Some(found@),
                None => lookup(old(self)@->0, key@) is None,
            },
    {
        match self.find(key) {
            Ok(value) => Some(value),
            Err(_) => None,
        }
    }

    /// The text of the member called `key`, or the reason why there is none.
    pub fn read_string(&self, key: &str) -> (text: Result<String, ConfigError>)
        ensures
            match text {
                Ok(found) => text_of(self@, key@) == Ok::<Seq<char>, ConfigError>(found@),
                Err(e) => text_of(self@, key@) == Err::<Seq<char>, ConfigError>(e),
            },
    {
        match self.find(key) {
            Ok(ConfigValue::Text(text)) => Ok(text),
            Ok(_) => Err(ConfigError::NotAString),
            Err(e) => Err(e),
        }
    }

    /// The number of the member called `key`, or the reason why there is
    /// none.
    pub fn read_u64(&self, key: &str) -> (number: Result<u64, ConfigError>)
        ensures
            number == number_of(self@, key@),
    {
        match self.find(key) {
            Ok(ConfigValue::U64(n)) => Ok(n),
            Ok(_) => Err(ConfigError::NotANumber),
            Err(e) => Err(e),
        }
    }

    /// The text of the member called `key`, which must be there and be a
    /// string.
    pub fn get_string(&mut self, key: &str) -> (text: String)
        requires
            text_of(old(self)@, key@) is Ok,
        ensures
            *final(self) == *old(self),
            text_of(old(self)@, key@) == Ok::<Seq<char>, ConfigError>(text@),
    {
        match self.read_string(key) {
            Ok(text) => text,
            Err(_) => String::new(),
        }
    }

    /// The number of the member called `key`, which must be there and be a
    /// whole number from 0 to `u64::MAX`.
    pub fn get_u64(&mut self, key: &str) -> (number: u64)
        requires
            number_of(old(self)@, key@) is Ok,
        ensures
            *final(self) == *old(self),
            number_of(old(self)@, key@) == Ok::<u64, ConfigError>(number),
    {
        match self.read_u64(key) {
            Ok(number) => number,
            Err(_) => 0,
        }
    }
}

} // verus!
