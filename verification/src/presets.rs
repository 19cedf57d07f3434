//! Voice presets: their header, the store that keeps them as TOML files, and
//! the rules for naming those files and stepping through them.

use vstd::prelude::*;
use std::path::PathBuf;
use crate::text::{is_text, is_white_space, lemma_blank_trims_to_empty, trim_text, trimmed_text};

verus! {

#[verifier::external_type_specification]
#[verifier::external_body]
pub struct ExPathBuf(PathBuf);

/// Cloning a `PathBuf` gives the same path.
pub assume_specification[ <PathBuf as Clone>::clone ](p: &PathBuf) -> (r: PathBuf)
    ensures
        r == *p,
;

/// `String::push` appends one character.
pub assume_specification[ String::push ](s: &mut String, ch: char)
    ensures
        final(s)@ == old(s)@.push(ch),
;

/// The header of a voice preset.
#[derive(Debug, Clone)]
pub struct Meta {
    pub name: String,
    pub description: String,
    pub author: String,
    pub version: u32,
}

/// The format version a preset has when its header gives none.
pub fn default_version() -> (r: u32)
    ensures
        r == 1,
{
    1
}

impl Default for Meta {
    fn default() -> (r: Self)
        ensures
            r.name@ == "Untitled Voice"@,
            r.description@ == Seq::<char>::empty(),
            r.author@ == "OpenWire"@,
            r.version == 1,
    {
        Meta {
            name: String::from_str("Untitled Voice"),
            description: String::new(),
            author: String::from_str("OpenWire"),
            version: default_version(),
        }
    }
}

/// Why a preset name was refused.
#[derive(Debug, Clone, Copy, PartialEq, Eq, Structural)]
pub enum PresetError {
    /// The name is empty, blank, `.` or `..`.
    InvalidName,
}

/// A character of a preset name as it goes into a file name: path
/// separators and NUL become `_`.
pub open spec fn file_char(c: char) -> char {
    if c == '/' || c == '\\' || c == '\0' {
        '_'
    } else {
        c
    }
}

/// A preset name with every character made safe for a file name.
pub open spec fn sanitized(name: Seq<char>) -> Seq<char> {
    name.map_values(|c: char| file_char(c))
}

/// The file name that stores the preset `name`: the sanitized name without a
/// trailing `.toml`, then `.toml`; `None` when the sanitized name is blank,
/// `.` or `..`.
pub open spec fn preset_file(name: Seq<char>) -> Option<Seq<char>> {
    let clean = sanitized(name);
    if trimmed_text(clean).len() == 0 || clean == "."@ || clean == ".."@ {
        None
    } else {
        let stem = if clean.len() >= 5 && clean.subrange(clean.len() - 5, clean.len() as int) == ".toml"@ {
            clean.subrange(0, clean.len() - 5)
        } else {
            clean
        };
        Some(stem + ".toml"@)
    }
}

/// The file name that stores the preset called `name`.
pub fn preset_file_name(name: &str) -> (r: Result<String, PresetError>)
    ensures
        match preset_file(name@) {
            Some(f) => r matches Ok(s) && s@ == f,
            None => r == Err::<String, PresetError>(PresetError::InvalidName),
        },
{
    let n = name.unicode_len();
    let mut clean = String::new();
    let mut i: usize = 0;
    while i < n
        invariant
            n == name@.len(),
            i <= n,
            clean@ == sanitized(name@).take(i as int),
        decreases n - i,
    {
        let c = name.get_char(i);
        let d = if c == '/' || c == '\\' || c == '\0' { '_' } else { c };
        clean.push(d);
        i = i + 1;
        assert(clean@ =~= sanitized(name@).take(i as int));
    }
    assert(clean@ =~= sanitized(name@));
    if trim_text(clean.as_str()).is_empty() || is_text(&clean, ".") || is_text(&clean, "..") {
        return Err(PresetError::InvalidName);
    }
    let len = clean.as_str().unicode_len();
    let has_suffix = if len >= 5 {
        let tail = String::from_str(clean.as_str().substring_char(len - 5, len));
        is_text(&tail, ".toml")
    } else {
        false
    };
    let mut file = if has_suffix {
        String::from_str(clean.as_str().substring_char(0, len - 5))
    } else {
        clean
    };
    file.append(".toml");
    Ok(file)
}

/// What `Path::join` makes of a directory and a file name: the name added
/// to the directory as a further component, or, when the name is an
/// absolute path, the name alone.
pub uninterp spec fn joined_path(dir: PathBuf, file: Seq<char>) -> PathBuf;

/// Calls `Path::join`; its result is named by `joined_path`.
#[verifier::external_body]
fn join_path(dir: &PathBuf, file: &str) -> (r: PathBuf)
    ensures
        r == joined_path(*dir, file@),
{
    dir.join(file)
}

/// The directory of voice presets.
pub struct PresetStore {
    dir: PathBuf,
}

impl PresetStore {
    /// The preset directory.
    pub closed spec fn spec_dir(&self) -> PathBuf {
        self.dir
    }

    /// The store in the `Voices` directory of the OpenWire root `root`.
    pub fn new(root: &PathBuf) -> (r: PresetStore)
        ensures
            r.spec_dir() == joined_path(*root, "Voices"@),
    {
        PresetStore { dir: join_path(root, "Voices") }
    }

    /// The store in the directory `dir`.
    pub fn with_dir(dir: PathBuf) -> (r: PresetStore)
        ensures
            r.spec_dir() == dir,
    {
        PresetStore { dir }
    }

    /// The preset directory.
    pub fn dir(&self) -> (r: &PathBuf)
        ensures
            *r == self.spec_dir(),
    {
        &self.dir
    }

    /// The path of the file that stores the preset `name`: the preset
    /// directory joined with `preset_file_name(name)`.
    pub fn resolve_name(&self, name: &str) -> (r: Result<PathBuf, PresetError>)
        ensures
            match preset_file(name@) {
                Some(f) => r == Ok::<PathBuf, PresetError>(joined_path(self.spec_dir(), f)),
                None => r == Err::<PathBuf, PresetError>(PresetError::InvalidName),
            },
    {
        let file = preset_file_name(name)?;
        Ok(join_path(&self.dir, file.as_str()))
    }
}

/// The name of the built-in neutral preset.
pub fn builtin_preset() -> (r: String)
    ensures
        r@ == "Обычный голос"@,
{
    String::from_str("Обычный голос")
}

/// Whether `name` is the built-in neutral preset, which is not stored and
/// cannot be deleted.
pub fn is_builtin_preset(name: &String) -> (r: bool)
    ensures
        r == (name@ == "Обычный голос"@),
{
    is_text(name, "Обычный голос")
}

/// The position of the first name in `names` equal to `active`, if any.
pub open spec fn first_index_of(names: Seq<String>, active: Seq<char>) -> Option<int>
    decreases names.len(),
{
    if names.len() == 0 {
        None
    } else {
        match first_index_of(names.drop_last(), active) {
            Some(i) => Some(i),
            None => if names.last()@ == active { Some(names.len() - 1) } else { None },
        }
    }
}

/// The preset that follows the active one in the list `names`: the next
/// name after the active one, wrapping to the first; the first name when
/// none is active or the active one is not listed; none when the list is
/// empty.
pub open spec fn next_preset(names: Seq<String>, active: Option<Seq<char>>) -> Option<int> {
    if names.len() == 0 {
        None
    } else {
        match active {
            Some(a) => match first_index_of(names, a) {
                Some(i) => Some((i + 1) % (names.len() as int)),
                None => Some(0),
            },
            None => Some(0),
        }
    }
}

/// The index in `names` of the preset that follows `active`.
pub fn next_preset_index(names: &Vec<String>, active: &Option<String>) -> (r: Option<usize>)
    ensures
        match next_preset(names@, crate::soundboard::opt_text(*active)) {
            Some(i) => r == Some(i as usize),
            None => r is None,
        },
{
    if names.len() == 0 {
        return None;
    }
    let a = match active {
        Some(a) => a,
        None => {
            return Some(0);
        },
    };
    let mut i: usize = 0;
    while i < names.len()
        invariant
            i <= names.len(),
            first_index_of(names@.take(i as int), a@) is None,
            crate::soundboard::opt_text(*active) == Some(a@),
        decreases names.len() - i,
    {
        proof {
            assert(names@.take(i + 1).drop_last() =~= names@.take(i as int));
        }
        if names[i].eq(a) {
            proof {
                lemma_first_index_extends(names@, a@, i as int);
                if i + 1 < names.len() {
                    vstd::arithmetic::div_mod::lemma_small_mod((i + 1) as nat, names.len() as nat);
                } else {
                    vstd::arithmetic::div_mod::lemma_mod_self_0(names.len() as int);
                }
            }
            return Some(if i + 1 == names.len() { 0 } else { i + 1 });
        }
        i = i + 1;
    }
    proof {
        assert(names@.take(names.len() as int) =~= names@);
    }
    Some(0)
}

/// Once a name is found first at `i`, no longer prefix finds it earlier.
proof fn lemma_first_index_extends(names: Seq<String>, a: Seq<char>, i: int)
    requires
        0 <= i < names.len(),
        first_index_of(names.take(i), a) is None,
        names[i]@ == a,
    ensures
        first_index_of(names, a) == Some(i),
    decreases names.len() - i,
{
    if i + 1 == names.len() {
        assert(names.drop_last() =~= names.take(i));
    } else {
        assert(names.drop_last().take(i) =~= names.take(i));
        lemma_first_index_extends(names.drop_last(), a, i);
    }
}

/// Characters that could take a file name out of its directory or cut it
/// short.
pub open spec fn is_separator(c: char) -> bool {
    c == '/' || c == '\\' || c == '\0'
}

/// Whatever a preset is called, the file that stores it ends in `.toml`
/// and holds no path separator or NUL, so it stays inside the preset
/// directory.
pub proof fn law_preset_file_is_safe(name: Seq<char>)
    requires
        preset_file(name) is Some,
    ensures
        ({
            let f = preset_file(name)->0;
            &&& f.len() >= 5
            &&& f.subrange(f.len() - 5, f.len() as int) == ".toml"@
            &&& forall|i: int| 0 <= i < f.len() ==> !is_separator(#[trigger] f[i])
        }),
{
    reveal_strlit(".toml");
    let clean = sanitized(name);
    let stem = if clean.len() >= 5 && clean.subrange(clean.len() - 5, clean.len() as int) == ".toml"@ {
        clean.subrange(0, clean.len() - 5)
    } else {
        clean
    };
    let f = stem + ".toml"@;
    assert(f == preset_file(name)->0);
    assert(f.subrange(f.len() - 5, f.len() as int) =~= ".toml"@);
    assert forall|i: int| 0 <= i < f.len() implies !is_separator(#[trigger] f[i]) by {
        if i < stem.len() {
            assert(f[i] == stem[i]);
            assert(stem[i] == clean[i]);
            assert(clean[i] == file_char(name[i]));
        } else {
            assert(f[i] == ".toml"@[i - stem.len()]);
        }
    }
}

/// A preset name that is empty or made of white space only is refused.
pub proof fn law_blank_names_refused(name: Seq<char>)
    requires
        forall|i: int| 0 <= i < name.len() ==> is_white_space(#[trigger] name[i]),
    ensures
        preset_file(name) is None,
{
    let clean = sanitized(name);
    assert forall|i: int| 0 <= i < clean.len() implies is_white_space(#[trigger] clean[i]) by {
        assert(clean[i] == file_char(name[i]));
        assert(is_white_space(name[i]));
    }
    lemma_blank_trims_to_empty(clean);
}

/// Text order: by the first differing character's code point, a proper
/// prefix first. It is the order of `String`'s comparison, since UTF-8
/// keeps code-point order.
pub open spec fn text_lt(a: Seq<char>, b: Seq<char>) -> bool
    decreases a.len(),
{
    if a.len() == 0 {
        b.len() > 0
    } else if b.len() == 0 {
        false
    } else if a[0] != b[0] {
        (a[0] as u32) < (b[0] as u32)
    } else {
        text_lt(a.drop_first(), b.drop_first())
    }
}

/// No text comes before itself.
proof fn lemma_text_lt_irreflexive(a: Seq<char>)
    ensures
        !text_lt(a, a),
    decreases a.len(),
{
    if a.len() > 0 {
        lemma_text_lt_irreflexive(a.drop_first());
    }
}

/// Text order is transitive.
proof fn lemma_text_lt_transitive(a: Seq<char>, b: Seq<char>, c: Seq<char>)
    requires
        text_lt(a, b),
        text_lt(b, c),
    ensures
        text_lt(a, c),
    decreases a.len(),
{
    if a.len() > 0 && b.len() > 0 && c.len() > 0 && a[0] == b[0] && b[0] == c[0] {
        lemma_text_lt_transitive(a.drop_first(), b.drop_first(), c.drop_first());
    }
}

/// Whether text `a` comes before text `b`.
pub fn text_less(a: &String, b: &String) -> (r: bool)
    ensures
        r == text_lt(a@, b@),
{
    let sa = a.as_str();
    let sb = b.as_str();
    let la = sa.unicode_len();
    let lb = sb.unicode_len();
    let mut i: usize = 0;
    proof {
        assert(a@.skip(0) =~= a@);
        assert(b@.skip(0) =~= b@);
    }
    while i < la && i < lb
        invariant
            la == a@.len(),
            lb == b@.len(),
            sa@ == a@,
            sb@ == b@,
            i <= la,
            i <= lb,
            text_lt(a@, b@) == text_lt(a@.skip(i as int), b@.skip(i as int)),
        decreases la - i,
    {
        let ca = sa.get_char(i);
        let cb = sb.get_char(i);
        proof {
            assert(a@.skip(i as int)[0] == ca);
            assert(b@.skip(i as int)[0] == cb);
        }
        if ca != cb {
            return (ca as u32) < (cb as u32);
        }
        proof {
            assert(a@.skip(i as int).drop_first() =~= a@.skip(i + 1));
            assert(b@.skip(i as int).drop_first() =~= b@.skip(i + 1));
        }
        i = i + 1;
    }
    i < lb
}

/// The name a preset file is listed under: the name in its header when the
/// header could be read, else the file's stem.
pub open spec fn listed_name(found: (Option<String>, String)) -> Seq<char> {
    match found.0 {
        Some(n) => n@,
        None => found.1@,
    }
}

/// The texts of a list of strings.
pub open spec fn texts(v: Seq<String>) -> Seq<Seq<char>> {
    v.map_values(|s: String| s@)
}

/// A list of texts in text order.
pub open spec fn texts_sorted(t: Seq<Seq<char>>) -> bool {
    forall|i: int, j: int| 0 <= i < j < t.len() ==> !text_lt(#[trigger] t[j], #[trigger] t[i])
}

/// The names to list for the preset files found, each given as the name
/// read from its header (if it could be read) and its file stem: each
/// file's name, in text order.
pub fn preset_names(found: &Vec<(Option<String>, String)>) -> (r: Vec<String>)
    ensures
        texts(r@).to_multiset() == found@.map_values(|e: (Option<String>, String)| listed_name(e)).to_multiset(),
        texts_sorted(texts(r@)),
{
    let ghost target = found@.map_values(|e: (Option<String>, String)| listed_name(e));
    let mut r: Vec<String> = Vec::new();
    let mut i: usize = 0;
    proof {
        assert(texts(r@) =~= Seq::<Seq<char>>::empty());
        assert(target.take(0) =~= Seq::<Seq<char>>::empty());
    }
    while i < found.len()
        invariant
            i <= found.len(),
            target == found@.map_values(|e: (Option<String>, String)| listed_name(e)),
            texts(r@).to_multiset() == target.take(i as int).to_multiset(),
            texts_sorted(texts(r@)),
        decreases found.len() - i,
    {
        let name = match &found[i].0 {
            Some(n) => n.clone(),
            None => found[i].1.clone(),
        };
        proof {
            assert(name@ == target[i as int]);
        }
        let ghost before = texts(r@);
        let mut k: usize = 0;
        let mut placed = false;
        while !placed && k < r.len()
            invariant
                k <= r.len(),
                before == texts(r@),
                forall|m: int| 0 <= m < k ==> !text_lt(name@, #[trigger] before[m]),
                placed ==> k < r.len() && text_lt(name@, before[k as int]),
            decreases r.len() - k + (if placed { 0int } else { 1int }),
        {
            if text_less(&name, &r[k]) {
                placed = true;
            } else {
                k = k + 1;
            }
        }
        let ghost nm = name@;
        r.insert(k, name);
        proof {
            let after = texts(r@);
            assert(after =~= before.insert(k as int, nm));
            vstd::seq_lib::to_multiset_insert(before, k as int, nm);
            assert(target.take(i + 1) =~= target.take(i as int).push(nm));
            vstd::seq_lib::to_multiset_build(target.take(i as int), nm);
            assert forall|a: int, b: int| 0 <= a < b < after.len() implies !text_lt(#[trigger] after[b], #[trigger] after[a]) by {
                if b < k {
                    assert(after[a] == before[a] && after[b] == before[b]);
                } else if b == k {
                    assert(after[a] == before[a]);
                } else if a < k {
                    assert(after[a] == before[a] && after[b] == before[b - 1]);
                } else if a == k {
                    assert(after[b] == before[b - 1]);
                    if text_lt(before[b - 1], nm) {
                        lemma_text_lt_transitive(before[b - 1], nm, before[k as int]);
                        if b - 1 == k {
                            lemma_text_lt_irreflexive(before[k as int]);
                        }
                    }
                } else {
                    assert(after[a] == before[a - 1] && after[b] == before[b - 1]);
                }
            }
        }
        i = i + 1;
    }
    proof {
        assert(target.take(found.len() as int) =~= target);
    }
    r
}

} // verus!
