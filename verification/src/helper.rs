//! The environment file: `key=value` lines for toolchain paths, parsed
//! into a key-value map, with blank lines and `#` comments skipped and
//! later lines overriding earlier ones.

use vstd::prelude::*;
use vstd::string::StrSliceExecFns;
use vstd::string::StringExecFns;
use crate::error::PistonError;
use crate::metadata::ProjectMetadata;
use crate::strutil::dashes_to_underscores;
use crate::strutil::underscore_char;
use crate::strutil::find_char;
use crate::strutil::find_index;
use crate::strutil::lemma_find_index_none;
use crate::strutil::lemma_find_index_some;
use crate::strutil::str_eq;
use crate::strutil::trim;
use crate::strutil::trim_spec;

verus! {

/// The key/value pair one line of the environment file contributes:
/// nothing for a blank line, a comment, a line without `=` or a line
/// whose key is empty; otherwise the trimmed text on either side of the
/// first `=`.
pub open spec fn env_line_entry(line: Seq<char>) -> Option<(Seq<char>, Seq<char>)> {
    let t = trim_spec(line);
    if t.len() == 0 || t[0] == '#' {
        None
    } else {
        match find_index(t, '=') {
            None => None,
            Some(i) => {
                let key = trim_spec(t.subrange(0, i));
                let value = trim_spec(t.subrange(i + 1, t.len() as int));
                if key.len() == 0 {
                    None
                } else {
                    Some((key, value))
                }
            },
        }
    }
}

/// The map a sequence of entries denotes, later entries overriding
/// earlier ones.
pub open spec fn map_of(entries: Seq<(String, String)>) -> Map<Seq<char>, Seq<char>>
    decreases entries.len(),
{
    if entries.len() == 0 {
        Map::empty()
    } else {
        map_of(entries.drop_last()).insert(entries.last().0@, entries.last().1@)
    }
}

/// The map an environment file's lines denote.
pub open spec fn env_map_of(lines: Seq<Seq<char>>) -> Map<Seq<char>, Seq<char>>
    decreases lines.len(),
{
    if lines.len() == 0 {
        Map::empty()
    } else {
        let m = env_map_of(lines.drop_last());
        match env_line_entry(lines.last()) {
            Some(kv) => m.insert(kv.0, kv.1),
            None => m,
        }
    }
}

/// The parsed environment file: a map from key to value.
pub struct EnvMap {
    pub entries: Vec<(String, String)>,
}

impl View for EnvMap {
    type V = Map<Seq<char>, Seq<char>>;

    open spec fn view(&self) -> Map<Seq<char>, Seq<char>> {
        map_of(self.entries@)
    }
}

proof fn lemma_map_of_get(entries: Seq<(String, String)>, i: int)
    requires
        0 <= i < entries.len(),
        forall|j: int| i < j < entries.len() ==> entries[j].0@ != entries[i].0@,
    ensures
        map_of(entries).contains_key(entries[i].0@),
        map_of(entries)[entries[i].0@] == entries[i].1@,
    decreases entries.len(),
{
    if i + 1 < entries.len() {
        lemma_map_of_get(entries.drop_last(), i);
    }
}

proof fn lemma_map_of_absent(entries: Seq<(String, String)>, k: Seq<char>)
    requires
        forall|j: int| 0 <= j < entries.len() ==> entries[j].0@ != k,
    ensures
        !map_of(entries).contains_key(k),
    decreases entries.len(),
{
    if entries.len() > 0 {
        lemma_map_of_absent(entries.drop_last(), k);
    }
}

impl EnvMap {
    /// An empty map.
    pub fn new() -> (r: EnvMap)
        ensures
            r@ == Map::<Seq<char>, Seq<char>>::empty(),
    {
        EnvMap { entries: Vec::new() }
    }

    /// Binds `key` to `value`, overriding any earlier binding.
    pub fn insert(&mut self, key: String, value: String)
        ensures
            final(self)@ == old(self)@.insert(key@, value@),
    {
        let ghost k = key@;
        let ghost v = value@;
        self.entries.push((key, value));
        proof {
            assert(self.entries@.drop_last() =~= old(self).entries@);
            assert(self.entries@.last().0@ == k);
            assert(self.entries@.last().1@ == v);
        }
    }

    /// The value bound to `key`, if any.
    pub fn get(&self, key: &str) -> (r: Option<&String>)
        ensures
            match r {
                Some(v) => self@.contains_key(key@) && v@ == self@[key@],
                None => !self@.contains_key(key@),
            },
    {
        let mut i: usize = self.entries.len();
        while i > 0
            invariant
                i <= self.entries@.len(),
                forall|j: int| i <= j < self.entries@.len() ==> self.entries@[j].0@ != key@,
            decreases i,
        {
            i -= 1;
            if str_eq(self.entries[i].0.as_str(), key) {
                proof {
                    lemma_map_of_get(self.entries@, i as int);
                }
                return Some(&self.entries[i].1);
            }
        }
        proof {
            lemma_map_of_absent(self.entries@, key@);
        }
        None
    }
}

fn parse_env_line(line: &str) -> (r: Option<(String, String)>)
    ensures
        match r {
            Some(kv) => env_line_entry(line@) == Some((kv.0@, kv.1@)),
            None => env_line_entry(line@) is None,
        },
{
    let t = trim(line);
    let n = t.unicode_len();
    if n == 0 {
        return None;
    }
    if t.get_char(0) == '#' {
        return None;
    }
    match find_char(t, '=') {
        None => {
            proof {
                lemma_find_index_none(t@, '=');
            }
            None
        },
        Some(i) => {
            proof {
                lemma_find_index_some(t@, '=', i as int);
            }
            let key_raw = t.substring_char(0, i);
            let value_raw = t.substring_char(i + 1, n);
            let key = trim(key_raw);
            let value = trim(value_raw);
            if key.unicode_len() == 0 {
                None
            } else {
                Some((String::from_str(key), String::from_str(value)))
            }
        },
    }
}

/// Helper routines shared by the per-platform builders.
pub struct Helper {}

impl Helper {
    /// Parses the lines of an environment file into a map: blank lines
    /// and `#` comments are skipped, every other line binds the trimmed
    /// text before the first `=` to the trimmed text after it, and later
    /// lines override earlier ones.
    pub fn parse_env_lines(lines: &Vec<String>) -> (r: EnvMap)
        ensures
            r@ == env_map_of(lines.deep_view()),
    {
        let mut em = EnvMap::new();
        let mut i: usize = 0;
        while i < lines.len()
            invariant
                0 <= i <= lines@.len(),
                em@ == env_map_of(lines.deep_view().subrange(0, i as int)),
            decreases lines@.len() - i,
        {
            proof {
                assert(lines.deep_view().subrange(0, i + 1).drop_last() =~= lines.deep_view(
                ).subrange(0, i as int));
                assert(lines.deep_view().subrange(0, i + 1).last() == lines@[i as int]@);
            }
            match parse_env_line(lines[i].as_str()) {
                Some(kv) => {
                    let (k, v) = kv;
                    em.insert(k, v);
                },
                None => (),
            }
            i += 1;
        }
        proof {
            assert(lines.deep_view().subrange(0, lines@.len() as int) =~= lines.deep_view());
        }
        em
    }

    /// The root package's name, or a descriptor-parse error when the
    /// metadata has no root package.
    pub fn get_app_name(metadata: &ProjectMetadata) -> (r: Result<String, PistonError>)
        ensures
            r is Ok <==> metadata.root is Some,
            r matches Ok(v) ==> v@ == metadata.root->0.name@,
            r matches Err(e) ==> e matches PistonError::CargoParseError(m) && m@
                == "Could not parse app name from cargo.toml"@,
    {
        match &metadata.root {
            Some(pkg) => Ok(pkg.name.clone()),
            None => Err(
                PistonError::CargoParseError(
                    String::from_str("Could not parse app name from cargo.toml"),
                ),
            ),
        }
    }

    /// The root package's version, or a descriptor-parse error when the
    /// metadata has no root package.
    pub fn get_app_version(metadata: &ProjectMetadata) -> (r: Result<String, PistonError>)
        ensures
            r is Ok <==> metadata.root is Some,
            r matches Ok(v) ==> v@ == metadata.root->0.version@,
            r matches Err(e) ==> e matches PistonError::CargoParseError(m) && m@
                == "Could not parse app version from cargo.toml"@,
    {
        match &metadata.root {
            Some(pkg) => Ok(pkg.version.clone()),
            None => Err(
                PistonError::CargoParseError(
                    String::from_str("Could not parse app version from cargo.toml"),
                ),
            ),
        }
    }

    /// The `icon_path` metadata key of the root package, when both exist.
    pub fn get_icon_path(metadata: &ProjectMetadata) -> (r: Option<String>)
        ensures
            match r {
                Some(p) => metadata.root matches Some(pkg) && pkg.icon_path matches Some(q) && p@
                    == q@,
                None => metadata.root is None || metadata.root->0.icon_path is None,
            },
    {
        match &metadata.root {
            Some(pkg) => match &pkg.icon_path {
                Some(p) => Some(p.clone()),
                None => None,
            },
            None => None,
        }
    }

    /// The file name cargo gives the library built from the root package:
    /// its name with dashes as underscores. Fails when the metadata has no
    /// root package.
    pub fn get_lib_name(metadata: &ProjectMetadata) -> (r: Result<String, PistonError>)
        ensures
            r is Ok <==> metadata.root is Some,
            r matches Ok(v) ==> v@ == metadata.root->0.name@.map_values(
                |c: char| underscore_char(c),
            ),
            r matches Err(e) ==> e matches PistonError::CargoParseError(m) && m@
                == "Could not parse lib name from cargo.toml"@,
    {
        match &metadata.root {
            Some(pkg) => Ok(dashes_to_underscores(pkg.name.as_str())),
            None => Err(
                PistonError::CargoParseError(
                    String::from_str("Could not parse lib name from cargo.toml"),
                ),
            ),
        }
    }

    /// The value bound to `key`, or the error naming the missing key.
    pub fn get_or_err<'a>(env: &'a EnvMap, key: &str) -> (r: Result<&'a String, PistonError>)
        ensures
            r is Ok <==> env@.contains_key(key@),
            r matches Ok(v) ==> v@ == env@[key@],
            r matches Err(e) ==> e matches PistonError::MissingEnvKeyError(k) && k@ == key@,
    {
        match env.get(key) {
            Some(v) => Ok(v),
            None => Err(PistonError::MissingEnvKeyError(String::from_str(key))),
        }
    }
}

} // verus!
