use vstd::prelude::*;
use vstd::string::*;

verus! {

/// Positional arguments: an ordered list of values.
pub type Array = Vec<ConfigValue>;

/// Named arguments: key/value pairs. Lookups return the first pair whose key
/// matches, so the order of distinct keys carries no meaning.
pub type Hash = Vec<(String, ConfigValue)>;

/// A format-independent value read from a configuration file.
#[derive(Debug)]
pub enum ConfigValue {
    /// A floating-point number, kept as the decimal text it was written as.
    Float(String),
    Integer(i32),
    String(String),
    Boolean(bool),
    Array(Array),
    Hash(Hash),
    Null,
    /// Produced by lookups that found nothing; distinct from `Null`.
    Invalid,
}

/// The value stored under `key`: that of the first pair whose key is `key`.
pub open spec fn lookup(entries: Seq<(String, ConfigValue)>, key: Seq<char>) -> Option<ConfigValue>
    decreases entries.len(),
{
    if entries.len() == 0 {
        None
    } else if entries[0].0@ == key {
        Some(entries[0].1)
    } else {
        lookup(entries.drop_first(), key)
    }
}

/// The value behind an optional reference.
pub open spec fn opt_value(r: Option<&ConfigValue>) -> Option<ConfigValue> {
    match r {
        Some(v) => Some(*v),
        None => None,
    }
}

/// Whether two strings hold the same characters.
pub fn str_equal(a: &str, b: &str) -> (r: bool)
    ensures
        r == (a@ == b@),
{
    let n = a.unicode_len();
    if n != b.unicode_len() {
        return false;
    }
    let mut i: usize = 0;
    while i < n
        invariant
            n == a@.len(),
            n == b@.len(),
            i <= n,
            forall|j: int| 0 <= j < i ==> a@[j] == b@[j],
        decreases n - i,
    {
        if a.get_char(i) != b.get_char(i) {
            return false;
        }
        i += 1;
    }
    assert(a@ =~= b@);
    true
}

impl ConfigValue {
    pub open spec fn spec_is_null(&self) -> bool {
        self is Null
    }

    pub open spec fn spec_is_invalid(&self) -> bool {
        self is Invalid
    }

    pub open spec fn spec_is_array(&self) -> bool {
        self is Array
    }

    pub open spec fn spec_is_hash(&self) -> bool {
        self is Hash
    }

    #[verifier::when_used_as_spec(spec_is_null)]
    pub fn is_null(&self) -> (r: bool)
        ensures
            r == self.spec_is_null(),
    {
        match self {
            ConfigValue::Null => true,
            _ => false,
        }
    }

    #[verifier::when_used_as_spec(spec_is_invalid)]
    pub fn is_invalid(&self) -> (r: bool)
        ensures
            r == self.spec_is_invalid(),
    {
        match self {
            ConfigValue::Invalid => true,
            _ => false,
        }
    }

    #[verifier::when_used_as_spec(spec_is_array)]
    pub fn is_array(&self) -> (r: bool)
        ensures
            r == self.spec_is_array(),
    {
        match self {
            ConfigValue::Array(_) => true,
            _ => false,
        }
    }

    #[verifier::when_used_as_spec(spec_is_hash)]
    pub fn is_hash(&self) -> (r: bool)
        ensures
            r == self.spec_is_hash(),
    {
        match self {
            ConfigValue::Hash(_) => true,
            _ => false,
        }
    }

    /// The boolean held, if this is a boolean.
    pub fn as_bool(&self) -> (r: Option<bool>)
        ensures
            r == (match *self {
                ConfigValue::Boolean(b) => Some(b),
                _ => None,
            }),
    {
        match self {
            ConfigValue::Boolean(b) => Some(*b),
            _ => None,
        }
    }

    /// The text held, if this is a string.
    pub fn as_str(&self) -> (r: Option<&str>)
        ensures
            match *self {
                ConfigValue::String(s) => r is Some && r->0@ == s@,
                _ => r is None,
            },
    {
        match self {
            ConfigValue::String(s) => Some(s.as_str()),
            _ => None,
        }
    }

    /// The value under `key`, if this is a map that has one.
    pub fn get(&self, key: &str) -> (r: Option<&ConfigValue>)
        ensures
            match *self {
                ConfigValue::Hash(entries) => opt_value(r) == lookup(entries@, key@),
                _ => r is None,
            },
    {
        match self {
            ConfigValue::Hash(entries) => {
                let mut i: usize = 0;
                assert(entries@.subrange(0, entries@.len() as int) =~= entries@);
                while i < entries.len()
                    invariant
                        *self == ConfigValue::Hash(*entries),
                        i <= entries@.len(),
                        lookup(entries@, key@) == lookup(entries@.subrange(i as int, entries@.len() as int), key@),
                    decreases entries.len() - i,
                {
                    proof {
                        let rest = entries@.subrange(i as int, entries@.len() as int);
                        assert(rest.drop_first() =~= entries@.subrange(i + 1, entries@.len() as int));
                        assert(rest[0] == entries@[i as int]);
                    }
                    if str_equal(entries[i].0.as_str(), key) {
                        proof {
                            let rest = entries@.subrange(i as int, entries@.len() as int);
                            assert(lookup(rest, key@) == Some(rest[0].1));
                        }
                        let found = &entries[i].1;
                        return Some(found);
                    }
                    i += 1;
                }
                None
            },
            _ => None,
        }
    }
}

} // verus!
