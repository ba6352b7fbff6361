//! The key registry: symbolic key names, compared without regard to case,
//! mapped to the platform's virtual-key codes.

use indexmap::IndexMap;
use vstd::prelude::*;

verus! {

#[verifier::external_type_specification]
#[verifier::external_body]
#[verifier::reject_recursive_types(K)]
#[verifier::reject_recursive_types(V)]
#[verifier::reject_recursive_types(S)]
pub struct ExIndexMap<K, V, S>(IndexMap<K, V, S>);

/// The entries of an insertion-ordered map of key names, in their order.
pub uninterp spec fn map_entries(m: IndexMap<&'static str, i32>) -> Seq<(Seq<char>, i32)>;

/// The uppercase form of a string, as `str::to_uppercase` computes it.
pub uninterp spec fn upper_of(s: Seq<char>) -> Seq<char>;

/// A character is an ASCII lowercase letter.
pub open spec fn is_ascii_lower(c: char) -> bool {
    'a' <= c && c <= 'z'
}

/// The uppercase form of an ASCII character.
pub open spec fn ascii_upper_char(c: char) -> char {
    if is_ascii_lower(c) {
        ((c as u32) - 32) as char
    } else {
        c
    }
}

/// Every character is ASCII.
pub open spec fn all_ascii(s: Seq<char>) -> bool {
    forall|i: int| 0 <= i < s.len() ==> (s[i] as u32) < 128
}

/// The uppercase form of an ASCII string.
pub open spec fn ascii_upper(s: Seq<char>) -> Seq<char> {
    s.map_values(|c: char| ascii_upper_char(c))
}

/// Relies on `str::to_uppercase`: the uppercase mapping of each character,
/// which on ASCII characters turns `a`..`z` into `A`..`Z` and keeps the rest.
#[verifier::external_body]
fn to_upper(s: &str) -> (r: String)
    ensures
        r@ == upper_of(s@),
        all_ascii(s@) ==> r@ == ascii_upper(s@),
{
    s.to_uppercase()
}

/// The index of the last entry whose name is `k`, or -1 where none is.
pub open spec fn position(m: Seq<(Seq<char>, i32)>, k: Seq<char>) -> int
    decreases m.len(),
{
    if m.len() == 0 {
        -1
    } else if m.last().0 == k {
        m.len() - 1
    } else {
        position(m.drop_last(), k)
    }
}

/// The code stored under the name `k`.
pub open spec fn lookup(m: Seq<(Seq<char>, i32)>, k: Seq<char>) -> Option<i32> {
    if position(m, k) >= 0 {
        Some(m[position(m, k)].1)
    } else {
        None
    }
}

/// No name occurs twice.
pub open spec fn distinct_names(m: Seq<(Seq<char>, i32)>) -> bool {
    forall|i: int, j: int| 0 <= i < j < m.len() ==> m[i].0 != m[j].0
}

/// Insertion into an insertion-ordered map: a name already present keeps its
/// place and takes the new code; a new name goes last.
pub open spec fn insert_entry(m: Seq<(Seq<char>, i32)>, k: Seq<char>, v: i32) -> Seq<(Seq<char>, i32)> {
    if position(m, k) >= 0 {
        m.update(position(m, k), (k, v))
    } else {
        m.push((k, v))
    }
}

/// Relies on `IndexMap::new`: a map with no entries.
#[verifier::external_body]
fn new_map() -> (r: IndexMap<&'static str, i32>)
    ensures
        map_entries(r) == Seq::<(Seq<char>, i32)>::empty(),
{
    IndexMap::new()
}

/// Relies on `IndexMap::insert`: an equal key keeps its place and takes the
/// new value; a new key is appended last.
#[verifier::external_body]
fn map_insert(m: &mut IndexMap<&'static str, i32>, k: &'static str, v: i32)
    ensures
        map_entries(*final(m)) == insert_entry(map_entries(*old(m)), k@, v),
{
    m.insert(k, v);
}

/// Relies on `IndexMap::get`: the value stored under an equal key.
#[verifier::external_body]
fn map_get(m: &IndexMap<&'static str, i32>, k: &str) -> (r: Option<i32>)
    ensures
        r == lookup(map_entries(*m), k@),
{
    m.get(k).copied()
}

/// Relies on `IndexMap::keys`: every key, in the map's order.
#[verifier::external_body]
fn map_keys(m: &IndexMap<&'static str, i32>) -> (r: Vec<&'static str>)
    ensures
        r@.len() == map_entries(*m).len(),
        forall|i: int| 0 <= i < r@.len() ==> #[trigger] r@[i]@ == map_entries(*m)[i].0,
{
    m.keys().copied().collect()
}

/// The standard vocabulary, in the order in which it is listed: letters,
/// digits, function keys, navigation and editing keys, modifiers, media and
/// browser keys, system keys, the numeric pad, punctuation and the rest of the
/// platform's virtual-key space.
pub open spec fn standard_table() -> Seq<(&'static str, i32)> {
    seq![
        ("A", 0x41i32),
        ("B", 0x42i32),
        ("C", 0x43i32),
        ("D", 0x44i32),
        ("E", 0x45i32),
        ("F", 0x46i32),
        ("G", 0x47i32),
        ("H", 0x48i32),
        ("I", 0x49i32),
        ("J", 0x4Ai32),
        ("K", 0x4Bi32),
        ("L", 0x4Ci32),
        ("M", 0x4Di32),
        ("N", 0x4Ei32),
        ("O", 0x4Fi32),
        ("P", 0x50i32),
        ("Q", 0x51i32),
        ("R", 0x52i32),
        ("S", 0x53i32),
        ("T", 0x54i32),
        ("U", 0x55i32),
        ("V", 0x56i32),
        ("W", 0x57i32),
        ("X", 0x58i32),
        ("Y", 0x59i32),
        ("Z", 0x5Ai32),
        ("0", 0x30i32),
        ("1", 0x31i32),
        ("2", 0x32i32),
        ("3", 0x33i32),
        ("4", 0x34i32),
        ("5", 0x35i32),
        ("6", 0x36i32),
        ("7", 0x37i32),
        ("8", 0x38i32),
        ("9", 0x39i32),
        ("F1", 0x70i32),
        ("F2", 0x71i32),
        ("F3", 0x72i32),
        ("F4", 0x73i32),
        ("F5", 0x74i32),
        ("F6", 0x75i32),
        ("F7", 0x76i32),
        ("F8", 0x77i32),
        ("F9", 0x78i32),
        ("F10", 0x79i32),
        ("F11", 0x7Ai32),
        ("F12", 0x7Bi32),
        ("F13", 0x7Ci32),
        ("F14", 0x7Di32),
        ("F15", 0x7Ei32),
        ("F16", 0x7Fi32),
        ("F17", 0x80i32),
        ("F18", 0x81i32),
        ("F19", 0x82i32),
        ("F20", 0x83i32),
        ("F21", 0x84i32),
        ("F22", 0x85i32),
        ("F23", 0x86i32),
        ("F24", 0x87i32),
        ("ESC", 0x1Bi32),
        ("SPACE", 0x20i32),
        ("ENTER", 0x0Di32),
        ("TAB", 0x09i32),
        ("BACKSPACE", 0x08i32),
        ("DELETE", 0x2Ei32),
        ("INSERT", 0x2Di32),
        ("HOME", 0x24i32),
        ("END", 0x23i32),
        ("PAGE_UP", 0x21i32),
        ("PAGE_DOWN", 0x22i32),
        ("UP", 0x26i32),
        ("DOWN", 0x28i32),
        ("LEFT", 0x25i32),
        ("RIGHT", 0x27i32),
        ("CTRL", 0x11i32),
        ("SHIFT", 0x10i32),
        ("ALT", 0x12i32),
        ("WIN_L", 0x5Bi32),
        ("WIN_R", 0x5Ci32),
        ("APPS", 0x5Di32),
        ("MEDIA_PLAY_PAUSE", 0xB3i32),
        ("MEDIA_STOP", 0xB2i32),
        ("MEDIA_NEXT_TRACK", 0xB0i32),
        ("MEDIA_PREV_TRACK", 0xB1i32),
        ("VOLUME_UP", 0xAFi32),
        ("VOLUME_DOWN", 0xAEi32),
        ("VOLUME_MUTE", 0xADi32),
        ("BROWSER_BACK", 0xA6i32),
        ("BROWSER_FORWARD", 0xA7i32),
        ("BROWSER_REFRESH", 0xA8i32),
        ("BROWSER_STOP", 0xA9i32),
        ("BROWSER_SEARCH", 0xAAi32),
        ("BROWSER_FAVORITES", 0xABi32),
        ("BROWSER_HOME", 0xACi32),
        ("PRINT_SCREEN", 0x2Ci32),
        ("SCROLL_LOCK", 0x91i32),
        ("PAUSE", 0x13i32),
        ("SLEEP", 0x5Fi32),
        ("POWER", 0x5Ei32),
        ("WAKE", 0xE3i32),
        ("NUMPAD_0", 0x60i32),
        ("NUMPAD_1", 0x61i32),
        ("NUMPAD_2", 0x62i32),
        ("NUMPAD_3", 0x63i32),
        ("NUMPAD_4", 0x64i32),
        ("NUMPAD_5", 0x65i32),
        ("NUMPAD_6", 0x66i32),
        ("NUMPAD_7", 0x67i32),
        ("NUMPAD_8", 0x68i32),
        ("NUMPAD_9", 0x69i32),
        ("NUMPAD_MULTIPLY", 0x6Ai32),
        ("NUMPAD_ADD", 0x6Bi32),
        ("NUMPAD_SEPARATOR", 0x6Ci32),
        ("NUMPAD_SUBTRACT", 0x6Di32),
        ("NUMPAD_DECIMAL", 0x6Ei32),
        ("NUMPAD_DIVIDE", 0x6Fi32),
        ("CTRL_L", 0xA2i32),
        ("CTRL_R", 0xA3i32),
        ("SHIFT_L", 0xA0i32),
        ("SHIFT_R", 0xA1i32),
        ("ALT_L", 0xA4i32),
        ("ALT_R", 0xA5i32),
        ("OEM_1", 0xBAi32),
        ("OEM_PLUS", 0xBBi32),
        ("OEM_COMMA", 0xBCi32),
        ("OEM_MINUS", 0xBDi32),
        ("OEM_PERIOD", 0xBEi32),
        ("OEM_2", 0xBFi32),
        ("OEM_3", 0xC0i32),
        ("OEM_4", 0xDBi32),
        ("OEM_5", 0xDCi32),
        ("OEM_6", 0xDDi32),
        ("OEM_7", 0xDEi32),
        ("OEM_8", 0xDFi32),
        ("OEM_102", 0xE2i32),
        ("LAUNCH_MAIL", 0xB4i32),
        ("MEDIA_SELECT", 0xB5i32),
        ("LAUNCH_APP1", 0xB6i32),
        ("LAUNCH_APP2", 0xB7i32),
        ("PLAY", 0xFAi32),
        ("ZOOM", 0xFBi32),
        ("HELP", 0xF1i32),
        ("ATTN", 0xF6i32),
        ("CRSEL", 0xF7i32),
        ("EXSEL", 0xF8i32),
        ("ERASE_EOF", 0xF9i32),
        ("CLEAR", 0x0Ci32),
        ("SELECT", 0x29i32),
        ("EXECUTE", 0x2Bi32),
        ("PRINT", 0x2Ai32),
        ("OEM_CLEAR", 0xFEi32),
        ("PACKET", 0xE7i32),
        ("PROCESSKEY", 0xE5i32),
    ]
}

/// The standard vocabulary as a vector.
pub fn standard_keys() -> (r: Vec<(&'static str, i32)>)
    ensures
        r@ == standard_table(),
{
    let r = vec![
        ("A", 0x41i32),
        ("B", 0x42i32),
        ("C", 0x43i32),
        ("D", 0x44i32),
        ("E", 0x45i32),
        ("F", 0x46i32),
        ("G", 0x47i32),
        ("H", 0x48i32),
        ("I", 0x49i32),
        ("J", 0x4Ai32),
        ("K", 0x4Bi32),
        ("L", 0x4Ci32),
        ("M", 0x4Di32),
        ("N", 0x4Ei32),
        ("O", 0x4Fi32),
        ("P", 0x50i32),
        ("Q", 0x51i32),
        ("R", 0x52i32),
        ("S", 0x53i32),
        ("T", 0x54i32),
        ("U", 0x55i32),
        ("V", 0x56i32),
        ("W", 0x57i32),
        ("X", 0x58i32),
        ("Y", 0x59i32),
        ("Z", 0x5Ai32),
        ("0", 0x30i32),
        ("1", 0x31i32),
        ("2", 0x32i32),
        ("3", 0x33i32),
        ("4", 0x34i32),
        ("5", 0x35i32),
        ("6", 0x36i32),
        ("7", 0x37i32),
        ("8", 0x38i32),
        ("9", 0x39i32),
        ("F1", 0x70i32),
        ("F2", 0x71i32),
        ("F3", 0x72i32),
        ("F4", 0x73i32),
        ("F5", 0x74i32),
        ("F6", 0x75i32),
        ("F7", 0x76i32),
        ("F8", 0x77i32),
        ("F9", 0x78i32),
        ("F10", 0x79i32),
        ("F11", 0x7Ai32),
        ("F12", 0x7Bi32),
        ("F13", 0x7Ci32),
        ("F14", 0x7Di32),
        ("F15", 0x7Ei32),
        ("F16", 0x7Fi32),
        ("F17", 0x80i32),
        ("F18", 0x81i32),
        ("F19", 0x82i32),
        ("F20", 0x83i32),
        ("F21", 0x84i32),
        ("F22", 0x85i32),
        ("F23", 0x86i32),
        ("F24", 0x87i32),
        ("ESC", 0x1Bi32),
        ("SPACE", 0x20i32),
        ("ENTER", 0x0Di32),
        ("TAB", 0x09i32),
        ("BACKSPACE", 0x08i32),
        ("DELETE", 0x2Ei32),
        ("INSERT", 0x2Di32),
        ("HOME", 0x24i32),
        ("END", 0x23i32),
        ("PAGE_UP", 0x21i32),
        ("PAGE_DOWN", 0x22i32),
        ("UP", 0x26i32),
        ("DOWN", 0x28i32),
        ("LEFT", 0x25i32),
        ("RIGHT", 0x27i32),
        ("CTRL", 0x11i32),
        ("SHIFT", 0x10i32),
        ("ALT", 0x12i32),
        ("WIN_L", 0x5Bi32),
        ("WIN_R", 0x5Ci32),
        ("APPS", 0x5Di32),
        ("MEDIA_PLAY_PAUSE", 0xB3i32),
        ("MEDIA_STOP", 0xB2i32),
        ("MEDIA_NEXT_TRACK", 0xB0i32),
        ("MEDIA_PREV_TRACK", 0xB1i32),
        ("VOLUME_UP", 0xAFi32),
        ("VOLUME_DOWN", 0xAEi32),
        ("VOLUME_MUTE", 0xADi32),
        ("BROWSER_BACK", 0xA6i32),
        ("BROWSER_FORWARD", 0xA7i32),
        ("BROWSER_REFRESH", 0xA8i32),
        ("BROWSER_STOP", 0xA9i32),
        ("BROWSER_SEARCH", 0xAAi32),
        ("BROWSER_FAVORITES", 0xABi32),
        ("BROWSER_HOME", 0xACi32),
        ("PRINT_SCREEN", 0x2Ci32),
        ("SCROLL_LOCK", 0x91i32),
        ("PAUSE", 0x13i32),
        ("SLEEP", 0x5Fi32),
        ("POWER", 0x5Ei32),
        ("WAKE", 0xE3i32),
        ("NUMPAD_0", 0x60i32),
        ("NUMPAD_1", 0x61i32),
        ("NUMPAD_2", 0x62i32),
        ("NUMPAD_3", 0x63i32),
        ("NUMPAD_4", 0x64i32),
        ("NUMPAD_5", 0x65i32),
        ("NUMPAD_6", 0x66i32),
        ("NUMPAD_7", 0x67i32),
        ("NUMPAD_8", 0x68i32),
        ("NUMPAD_9", 0x69i32),
        ("NUMPAD_MULTIPLY", 0x6Ai32),
        ("NUMPAD_ADD", 0x6Bi32),
        ("NUMPAD_SEPARATOR", 0x6Ci32),
        ("NUMPAD_SUBTRACT", 0x6Di32),
        ("NUMPAD_DECIMAL", 0x6Ei32),
        ("NUMPAD_DIVIDE", 0x6Fi32),
        ("CTRL_L", 0xA2i32),
        ("CTRL_R", 0xA3i32),
        ("SHIFT_L", 0xA0i32),
        ("SHIFT_R", 0xA1i32),
        ("ALT_L", 0xA4i32),
        ("ALT_R", 0xA5i32),
        ("OEM_1", 0xBAi32),
        ("OEM_PLUS", 0xBBi32),
        ("OEM_COMMA", 0xBCi32),
        ("OEM_MINUS", 0xBDi32),
        ("OEM_PERIOD", 0xBEi32),
        ("OEM_2", 0xBFi32),
        ("OEM_3", 0xC0i32),
        ("OEM_4", 0xDBi32),
        ("OEM_5", 0xDCi32),
        ("OEM_6", 0xDDi32),
        ("OEM_7", 0xDEi32),
        ("OEM_8", 0xDFi32),
        ("OEM_102", 0xE2i32),
        ("LAUNCH_MAIL", 0xB4i32),
        ("MEDIA_SELECT", 0xB5i32),
        ("LAUNCH_APP1", 0xB6i32),
        ("LAUNCH_APP2", 0xB7i32),
        ("PLAY", 0xFAi32),
        ("ZOOM", 0xFBi32),
        ("HELP", 0xF1i32),
        ("ATTN", 0xF6i32),
        ("CRSEL", 0xF7i32),
        ("EXSEL", 0xF8i32),
        ("ERASE_EOF", 0xF9i32),
        ("CLEAR", 0x0Ci32),
        ("SELECT", 0x29i32),
        ("EXECUTE", 0x2Bi32),
        ("PRINT", 0x2Ai32),
        ("OEM_CLEAR", 0xFEi32),
        ("PACKET", 0xE7i32),
        ("PROCESSKEY", 0xE5i32),
    ];
    assert(r@ =~= standard_table());
    r
}

/// The names of a table of string entries, as character sequences.
pub open spec fn table_view(t: Seq<(&'static str, i32)>) -> Seq<(Seq<char>, i32)> {
    t.map_values(|e: (&'static str, i32)| (e.0@, e.1))
}

/// The entries of a map filled from `t` in order, starting empty.
pub open spec fn insert_all(t: Seq<(Seq<char>, i32)>) -> Seq<(Seq<char>, i32)>
    decreases t.len(),
{
    if t.len() == 0 {
        Seq::empty()
    } else {
        insert_entry(insert_all(t.drop_last()), t.last().0, t.last().1)
    }
}

/// What `position` finds: an entry with that name, or no entry with it.
pub proof fn lemma_position(m: Seq<(Seq<char>, i32)>, k: Seq<char>)
    ensures
        -1 <= position(m, k) < m.len(),
        position(m, k) >= 0 ==> m[position(m, k)].0 == k,
        position(m, k) < 0 ==> forall|i: int| 0 <= i < m.len() ==> m[i].0 != k,
    decreases m.len(),
{
    if m.len() > 0 && m.last().0 != k {
        lemma_position(m.drop_last(), k);
        assert forall|i: int| 0 <= i < m.len() - 1 implies m[i] == m.drop_last()[i] by {}
    }
}

/// In a table without repeated names, `position` finds the entry of a name.
pub proof fn lemma_position_distinct(m: Seq<(Seq<char>, i32)>, i: int)
    requires
        distinct_names(m),
        0 <= i < m.len(),
    ensures
        position(m, m[i].0) == i,
    decreases m.len(),
{
    if i < m.len() - 1 {
        assert(distinct_names(m.drop_last()));
        lemma_position_distinct(m.drop_last(), i);
    }
}

/// Insertion keeps the names of a table distinct.
pub proof fn lemma_insert_distinct(m: Seq<(Seq<char>, i32)>, k: Seq<char>, v: i32)
    requires
        distinct_names(m),
    ensures
        distinct_names(insert_entry(m, k, v)),
{
    lemma_position(m, k);
}

/// A table filled by insertions never repeats a name.
pub proof fn lemma_insert_all_distinct(t: Seq<(Seq<char>, i32)>)
    ensures
        distinct_names(insert_all(t)),
    decreases t.len(),
{
    if t.len() > 0 {
        lemma_insert_all_distinct(t.drop_last());
        lemma_insert_distinct(insert_all(t.drop_last()), t.last().0, t.last().1);
    }
}

/// The registry of key names.
pub struct KeyRegistry {
    map: IndexMap<&'static str, i32>,
}

impl View for KeyRegistry {
    type V = Seq<(Seq<char>, i32)>;

    closed spec fn view(&self) -> Seq<(Seq<char>, i32)> {
        map_entries(self.map)
    }
}

impl KeyRegistry {
    /// A registry holds each name once.
    pub open spec fn wf(&self) -> bool {
        distinct_names(self@)
    }

    /// A registry filled from `table` in order; a repeated name keeps its
    /// first place and its last code.
    pub fn from_table(table: &Vec<(&'static str, i32)>) -> (r: KeyRegistry)
        ensures
            r@ == insert_all(table_view(table@)),
            r.wf(),
    {
        let mut map = new_map();
        let mut i: usize = 0;
        while i < table.len()
            invariant
                i <= table@.len(),
                map_entries(map) == insert_all(table_view(table@).take(i as int)),
            decreases table@.len() - i,
        {
            let (name, code) = table[i];
            map_insert(&mut map, name, code);
            assert(table_view(table@).take(i + 1).drop_last() =~= table_view(table@).take(i as int));
            i = i + 1;
        }
        assert(table_view(table@).take(i as int) =~= table_view(table@));
        proof {
            lemma_insert_all_distinct(table_view(table@));
        }
        KeyRegistry { map }
    }

    /// The registry of the standard vocabulary.
    pub fn standard() -> (r: KeyRegistry)
        ensures
            r@ == insert_all(table_view(standard_table())),
            r.wf(),
    {
        let table = standard_keys();
        KeyRegistry::from_table(&table)
    }

    /// The code of a name already in canonical (upper) case.
    pub fn resolve_normalized(&self, key: &str) -> (r: Option<i32>)
        ensures
            r == lookup(self@, key@),
    {
        map_get(&self.map, key)
    }

    /// The canonical (upper) case of a token.
    pub fn normalize_case(token: &str) -> (r: String)
        ensures
            r@ == upper_of(token@),
            all_ascii(token@) ==> r@ == ascii_upper(token@),
    {
        to_upper(token)
    }

    /// The code of a name, compared without regard to case.
    pub fn resolve(&self, name: &str) -> (r: Option<i32>)
        ensures
            r == lookup(self@, upper_of(name@)),
            all_ascii(name@) ==> r == lookup(self@, ascii_upper(name@)),
    {
        let key = KeyRegistry::normalize_case(name);
        self.resolve_normalized(key.as_str())
    }

    /// Every name of the registry, once each, in the registry's order.
    pub fn names(&self) -> (r: Vec<&'static str>)
        ensures
            r@.len() == self@.len(),
            forall|i: int| 0 <= i < r@.len() ==> #[trigger] r@[i]@ == self@[i].0,
    {
        map_keys(&self.map)
    }

    /// Every name of the registry with its code, in the registry's order.
    pub fn list_all(&self) -> (r: Vec<(&'static str, i32)>)
        requires
            self.wf(),
        ensures
            r@.len() == self@.len(),
            forall|i: int|
                0 <= i < r@.len() ==> (#[trigger] r@[i]).0@ == self@[i].0 && r@[i].1 == self@[i].1,
    {
        let names = self.names();
        let mut out: Vec<(&'static str, i32)> = Vec::new();
        let mut i: usize = 0;
        while i < names.len()
            invariant
                self.wf(),
                names@.len() == self@.len(),
                forall|j: int| 0 <= j < names@.len() ==> #[trigger] names@[j]@ == self@[j].0,
                i <= names@.len(),
                out@.len() == i,
                forall|j: int|
                    0 <= j < i ==> (#[trigger] out@[j]).0@ == self@[j].0 && out@[j].1 == self@[j].1,
            decreases names@.len() - i,
        {
            let name = names[i];
            proof {
                lemma_registered_names_resolve(self@, i as int);
            }
            match self.resolve_normalized(name) {
                Some(code) => {
                    out.push((name, code));
                },
                None => {
                    assert(false);
                },
            }
            i = i + 1;
        }
        out
    }
}

/// Every name held by a registry resolves to its own code.
pub proof fn lemma_registered_names_resolve(reg: Seq<(Seq<char>, i32)>, i: int)
    requires
        distinct_names(reg),
        0 <= i < reg.len(),
    ensures
        lookup(reg, reg[i].0) == Some(reg[i].1),
{
    lemma_position_distinct(reg, i);
}

/// Uppercasing an ASCII string twice gives what uppercasing it once gives.
pub proof fn lemma_ascii_upper_idempotent(s: Seq<char>)
    requires
        all_ascii(s),
    ensures
        all_ascii(ascii_upper(s)),
        ascii_upper(ascii_upper(s)) == ascii_upper(s),
{
    assert(ascii_upper(ascii_upper(s)) =~= ascii_upper(s));
}

/// Resolution does not depend on case: for an ASCII token, resolving its
/// canonical form gives what resolving the token gives.
pub proof fn lemma_resolve_ignores_case(reg: Seq<(Seq<char>, i32)>, name: Seq<char>)
    requires
        all_ascii(name),
    ensures
        all_ascii(ascii_upper(name)),
        lookup(reg, ascii_upper(ascii_upper(name))) == lookup(reg, ascii_upper(name)),
{
    lemma_ascii_upper_idempotent(name);
}

/// A name that no entry of the registry holds does not resolve.
pub proof fn lemma_unknown_name(reg: Seq<(Seq<char>, i32)>, k: Seq<char>)
    requires
        forall|i: int| 0 <= i < reg.len() ==> reg[i].0 != k,
    ensures
        lookup(reg, k) is None,
{
    lemma_position(reg, k);
}

} // verus!
