//! Story flags: a typed key/value ledger of world state that lives for the
//! whole process.

use vstd::prelude::*;
use vstd::string::StringExecFns;

verus! {

/// The value held by one story flag.
#[derive(Clone, Debug)]
pub enum FlagValue {
    Bool(bool),
    Text(String),
    Number(i32),
}

/// The mathematical value of a flag: what contracts speak of.
pub enum FlagVal {
    Bool(bool),
    Text(Seq<char>),
    Number(i32),
}

impl View for FlagValue {
    type V = FlagVal;

    open spec fn view(&self) -> FlagVal {
        match self {
            FlagValue::Bool(b) => FlagVal::Bool(*b),
            FlagValue::Text(s) => FlagVal::Text(s@),
            FlagValue::Number(n) => FlagVal::Number(*n),
        }
    }
}

impl FlagValue {
    /// A fresh value equal to this one.
    pub fn clone_value(&self) -> (r: FlagValue)
        ensures
            r@ == self@,
    {
        match self {
            FlagValue::Bool(b) => FlagValue::Bool(*b),
            FlagValue::Text(s) => FlagValue::Text(s.clone()),
            FlagValue::Number(n) => FlagValue::Number(*n),
        }
    }
}

impl PartialEq for FlagValue {
    fn eq(&self, other: &FlagValue) -> (r: bool) {
        match (self, other) {
            (FlagValue::Bool(a), FlagValue::Bool(b)) => *a == *b,
            (FlagValue::Text(a), FlagValue::Text(b)) => *a == *b,
            (FlagValue::Number(a), FlagValue::Number(b)) => *a == *b,
            _ => false,
        }
    }
}

impl vstd::std_specs::cmp::PartialEqSpecImpl for FlagValue {
    open spec fn obeys_eq_spec() -> bool {
        true
    }

    open spec fn eq_spec(&self, other: &FlagValue) -> bool {
        self@ == other@
    }
}

/// A flag map's entry for `k`, if any.
pub open spec fn lookup(m: Map<Seq<char>, FlagVal>, k: Seq<char>) -> Option<FlagVal> {
    if m.contains_key(k) {
        Some(m[k])
    } else {
        None
    }
}

/// The view of a borrowed flag value, if any.
pub open spec fn opt_view(r: Option<&FlagValue>) -> Option<FlagVal> {
    match r {
        Some(v) => Some(v@),
        None => None,
    }
}

/// The lower-case form of a string, as `str::to_lowercase` computes it.
pub uninterp spec fn lowercase_of(s: Seq<char>) -> Seq<char>;

/// Relies on `str::to_lowercase`: the result depends on the characters of
/// `s` alone.
#[verifier::external_body]
pub(crate) fn lowercase(s: &str) -> (r: String)
    ensures
        r@ == lowercase_of(s@),
{
    s.to_lowercase()
}

/// The flag that records whether a speaker is present: the lower-cased
/// name followed by `_present`.
pub open spec fn presence_key(speaker: Seq<char>) -> Seq<char> {
    lowercase_of(speaker) + "_present"@
}

/// A speaker may speak unless its presence flag holds `Bool(false)`.
pub open spec fn speaker_present(m: Map<Seq<char>, FlagVal>, speaker: Seq<char>) -> bool {
    lookup(m, presence_key(speaker)) != Some(FlagVal::Bool(false))
}

/// The flag map after the `set` calls of `ops` (key, value), in order.
pub open spec fn apply_sets(m: Map<Seq<char>, FlagVal>, ops: Seq<(Seq<char>, FlagVal)>) -> Map<
    Seq<char>,
    FlagVal,
>
    decreases ops.len(),
{
    if ops.len() == 0 {
        m
    } else {
        apply_sets(m, ops.drop_last()).insert(ops.last().0, ops.last().1)
    }
}

/// After any sequence of `set` calls, reading a key gives the value of the
/// most recent `set` of that key.
pub proof fn lemma_get_returns_latest_set(
    m: Map<Seq<char>, FlagVal>,
    ops: Seq<(Seq<char>, FlagVal)>,
    k: Seq<char>,
    i: int,
)
    requires
        0 <= i < ops.len(),
        ops[i].0 == k,
        forall|j: int| i < j < ops.len() ==> ops[j].0 != k,
    ensures
        lookup(apply_sets(m, ops), k) == Some(ops[i].1),
    decreases ops.len(),
{
    if i < ops.len() - 1 {
        lemma_get_returns_latest_set(m, ops.drop_last(), k, i);
    }
}

proof fn lemma_presence_kept(
    m: Map<Seq<char>, FlagVal>,
    ops: Seq<(Seq<char>, FlagVal)>,
    speaker: Seq<char>,
)
    requires
        speaker_present(m, speaker),
        forall|j: int|
            0 <= j < ops.len() ==> !(ops[j].0 == presence_key(speaker) && ops[j].1 == FlagVal::Bool(
                false,
            )),
    ensures
        speaker_present(apply_sets(m, ops), speaker),
    decreases ops.len(),
{
    if ops.len() > 0 {
        lemma_presence_kept(m, ops.drop_last(), speaker);
    }
}

/// Starting from no flags, a speaker whose presence flag was never set to
/// `Bool(false)` may always speak.
pub proof fn lemma_speaker_speaks_unless_marked_absent(
    ops: Seq<(Seq<char>, FlagVal)>,
    speaker: Seq<char>,
)
    requires
        forall|j: int|
            0 <= j < ops.len() ==> !(ops[j].0 == presence_key(speaker) && ops[j].1 == FlagVal::Bool(
                false,
            )),
    ensures
        speaker_present(apply_sets(Map::empty(), ops), speaker),
{
    lemma_presence_kept(Map::empty(), ops, speaker);
}

struct FlagEntry {
    key: String,
    value: FlagValue,
}

/// The map that a list of entries stands for; later entries win.
spec fn flag_map(s: Seq<FlagEntry>) -> Map<Seq<char>, FlagVal>
    decreases s.len(),
{
    if s.len() == 0 {
        Map::empty()
    } else {
        flag_map(s.drop_last()).insert(s.last().key@, s.last().value@)
    }
}

spec fn keys_unique(s: Seq<FlagEntry>) -> bool {
    forall|i: int, j: int| 0 <= i < j < s.len() ==> s[i].key@ != s[j].key@
}

proof fn lemma_absent(s: Seq<FlagEntry>, k: Seq<char>)
    requires
        forall|i: int| 0 <= i < s.len() ==> s[i].key@ != k,
    ensures
        !flag_map(s).contains_key(k),
    decreases s.len(),
{
    if s.len() > 0 {
        lemma_absent(s.drop_last(), k);
    }
}

proof fn lemma_at(s: Seq<FlagEntry>, i: int)
    requires
        keys_unique(s),
        0 <= i < s.len(),
    ensures
        flag_map(s).contains_key(s[i].key@),
        flag_map(s)[s[i].key@] == s[i].value@,
    decreases s.len(),
{
    if i < s.len() - 1 {
        lemma_at(s.drop_last(), i);
    }
}

proof fn lemma_update(s: Seq<FlagEntry>, i: int, e: FlagEntry)
    requires
        keys_unique(s),
        0 <= i < s.len(),
        e.key@ == s[i].key@,
    ensures
        flag_map(s.update(i, e)) == flag_map(s).insert(e.key@, e.value@),
    decreases s.len(),
{
    let t = s.update(i, e);
    if i == s.len() - 1 {
        assert(t.drop_last() =~= s.drop_last());
        assert(flag_map(t) =~= flag_map(s).insert(e.key@, e.value@));
    } else {
        assert(t.drop_last() =~= s.drop_last().update(i, e));
        lemma_update(s.drop_last(), i, e);
        assert(flag_map(t) =~= flag_map(s).insert(e.key@, e.value@));
    }
}

/// The story flags of a running game.
pub struct StoryFlags {
    entries: Vec<FlagEntry>,
}

impl View for StoryFlags {
    type V = Map<Seq<char>, FlagVal>;

    closed spec fn view(&self) -> Map<Seq<char>, FlagVal> {
        flag_map(self.entries@)
    }
}

impl StoryFlags {
    /// Well-formedness: no key is stored twice.
    pub closed spec fn wf(&self) -> bool {
        keys_unique(self.entries@)
    }

    /// An empty set of flags.
    pub fn new() -> (r: StoryFlags)
        ensures
            r.wf(),
            r@ == Map::<Seq<char>, FlagVal>::empty(),
    {
        StoryFlags { entries: Vec::new() }
    }

    fn find(&self, key: &str) -> (r: Option<usize>)
        requires
            self.wf(),
        ensures
            match r {
                Some(i) => i < self.entries@.len() && self.entries@[i as int].key@ == key@,
                None => forall|j: int| 0 <= j < self.entries@.len() ==> self.entries@[j].key@ != key@,
            },
    {
        let k = key.to_owned();
        let mut i: usize = 0;
        while i < self.entries.len()
            invariant
                0 <= i <= self.entries@.len(),
                k@ == key@,
                forall|j: int| 0 <= j < i ==> self.entries@[j].key@ != key@,
            decreases self.entries@.len() - i,
        {
            if self.entries[i].key == k {
                return Some(i);
            }
            i = i + 1;
        }
        None
    }

    /// Sets `key` to `value`, creating the flag or overwriting it.
    pub fn set(&mut self, key: &str, value: FlagValue)
        requires
            old(self).wf(),
        ensures
            final(self).wf(),
            final(self)@ == old(self)@.insert(key@, value@),
    {
        let e = FlagEntry { key: key.to_owned(), value };
        match self.find(key) {
            Some(i) => {
                proof {
                    lemma_update(self.entries@, i as int, e);
                }
                self.entries.set(i, e);
            },
            None => {
                let ghost s = self.entries@;
                self.entries.push(e);
                assert(self.entries@.drop_last() =~= s);
            },
        }
    }

    /// The value of `key`, if it was ever set.
    pub fn get(&self, key: &str) -> (r: Option<&FlagValue>)
        requires
            self.wf(),
        ensures
            opt_view(r) == lookup(self@, key@),
    {
        match self.find(key) {
            Some(i) => {
                proof {
                    lemma_at(self.entries@, i as int);
                }
                Some(&self.entries[i].value)
            },
            None => {
                proof {
                    lemma_absent(self.entries@, key@);
                }
                None
            },
        }
    }

    /// The text held by `key`; `None` when it is unset or holds no text.
    pub fn get_text(&self, key: &str) -> (r: Option<&str>)
        requires
            self.wf(),
        ensures
            match lookup(self@, key@) {
                Some(FlagVal::Text(s)) => r.is_some() && r.unwrap()@ == s,
                _ => r.is_none(),
            },
    {
        match self.get(key) {
            Some(FlagValue::Text(s)) => Some(s.as_str()),
            _ => None,
        }
    }

    /// The number held by `key`; `None` when it is unset or holds no number.
    pub fn get_number(&self, key: &str) -> (r: Option<i32>)
        requires
            self.wf(),
        ensures
            r == match lookup(self@, key@) {
                Some(FlagVal::Number(n)) => Some(n),
                _ => None::<i32>,
            },
    {
        match self.get(key) {
            Some(FlagValue::Number(n)) => Some(*n),
            _ => None,
        }
    }

    /// The truth value held by `key`; `None` when it is unset or holds no
    /// truth value.
    pub fn get_bool(&self, key: &str) -> (r: Option<bool>)
        requires
            self.wf(),
        ensures
            r == match lookup(self@, key@) {
                Some(FlagVal::Bool(b)) => Some(b),
                _ => None::<bool>,
            },
    {
        match self.get(key) {
            Some(FlagValue::Bool(b)) => Some(*b),
            _ => None,
        }
    }

    /// Whether `speaker` may speak: true unless the flag
    /// `<lower-cased speaker>_present` holds `Bool(false)`. Narrators and
    /// speakers nobody has flagged always speak.
    pub fn can_speaker_speak(&self, speaker: &str) -> (r: bool)
        requires
            self.wf(),
        ensures
            r == speaker_present(self@, speaker@),
    {
        let key = lowercase(speaker).concat("_present");
        match self.get_bool(key.as_str()) {
            Some(b) => b,
            None => true,
        }
    }
}

impl Default for StoryFlags {
    fn default() -> (r: StoryFlags)
        ensures
            r.wf(),
            r@ == Map::<Seq<char>, FlagVal>::empty(),
    {
        StoryFlags::new()
    }
}

} // verus!
