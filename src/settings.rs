use vstd::prelude::*;

verus! {

/// Value of one option: a toggle, an enum variant by name, a number, or a
/// multi-select list of variant names.
#[derive(Clone, Debug, PartialEq, Eq)]
pub enum OptionValue {
    Bool(bool),
    Enum(String),
    Int(i64),
    List(Vec<String>),
}

/// One named option and its value.
#[derive(Clone, Debug, PartialEq, Eq)]
pub struct Setting {
    pub key: String,
    pub value: OptionValue,
}

#[derive(Clone, Copy, Debug, PartialEq, Eq, Structural)]
pub enum DocumentError {
    /// The two halves do not name the same set of options, or name other
    /// options than the document already holds.
    KeyMismatch,
    /// An option is named twice.
    DuplicateKey,
    /// A received document could not be parsed.
    Unparsable,
}

pub open spec fn keys(s: Seq<Setting>) -> Seq<Seq<char>> {
    s.map_values(|e: Setting| e.key@)
}

/// The value of option `k` in `s`, if `s` has it.
pub open spec fn has_value(s: Seq<Setting>, k: Seq<char>, v: OptionValue) -> bool {
    exists|i: int| 0 <= i < s.len() && (#[trigger] s[i]).key@ == k && s[i].value == v
}

/// Two halves that make a well-formed document./// The set of option names of one half.
pub open spec fn key_set(s: Seq<Setting>) -> Set<Seq<char>> {
    keys(s).to_set()
}

/// Two halves that make a well-formed document: neither names an option
/// twice, and both name the same set of options (in any order).
pub open spec fn valid_parts(current: Seq<Setting>, defaults: Seq<Setting>) -> bool {
    &&& keys(current).no_duplicates()
    &&& keys(defaults).no_duplicates()
    &&& key_set(current) == key_set(defaults)
}

/// The halves that `apply` accepts for a document whose options are `names`.
pub open spec fn fits(current: Seq<Setting>, defaults: Seq<Setting>, names: Set<Seq<char>>) -> bool {
    valid_parts(current, defaults) && key_set(current) == names
}

/// The current and default values of every option, key sets equal.
pub struct SettingsDocument {
    current: Vec<Setting>,
    defaults: Vec<Setting>,
}


fn contains_key(b: &Vec<Setting>, key: &String) -> (r: bool)
    ensures
        r == keys(b@).contains(key@),
{
    let mut j: usize = 0;
    while j < b.len()
        invariant
            j <= b@.len(),
            forall|q: int| 0 <= q < j ==> (#[trigger] b@[q]).key@ != key@,
        decreases b@.len() - j,
    {
        if b[j].key == *key {
            assert(keys(b@)[j as int] == key@);
            return true;
        }
        j = j + 1;
    }
    proof {
        if keys(b@).contains(key@) {
            let q = choose|q: int| 0 <= q < keys(b@).len() && keys(b@)[q] == key@;
            assert(b@[q].key@ == key@);
        }
    }
    false
}

/// Whether two halves without repeated names name the same set of options.
fn same_key_set(a: &Vec<Setting>, b: &Vec<Setting>) -> (r: bool)
    requires
        keys(a@).no_duplicates(),
        keys(b@).no_duplicates(),
    ensures
        r == (key_set(a@) == key_set(b@)),
{
    proof {
        keys(a@).unique_seq_to_set();
        keys(b@).unique_seq_to_set();
    }
    if a.len() != b.len() {
        return false;
    }
    let mut i: usize = 0;
    while i < a.len()
        invariant
            i <= a@.len(),
            forall|p: int| 0 <= p < i ==> keys(b@).contains(#[trigger] keys(a@)[p]),
        decreases a@.len() - i,
    {
        if !contains_key(b, &a[i].key) {
            proof {
                assert(key_set(a@).contains(keys(a@)[i as int]));
                assert(!key_set(b@).contains(keys(a@)[i as int]));
            }
            return false;
        }
        i = i + 1;
    }
    proof {
        assert(key_set(a@).subset_of(key_set(b@))) by {
            assert forall|x: Seq<char>| key_set(a@).contains(x) implies key_set(b@).contains(x) by {
                let p = choose|p: int| 0 <= p < keys(a@).len() && keys(a@)[p] == x;
                assert(keys(b@).contains(keys(a@)[p]));
            }
        }
        vstd::set_lib::lemma_subset_equality(key_set(a@), key_set(b@));
    }
    true
}

fn unique_keys(a: &Vec<Setting>) -> (r: bool)
    ensures
        r == keys(a@).no_duplicates(),
{
    let mut i: usize = 0;
    while i < a.len()
        invariant
            i <= a@.len(),
            forall|p: int, q: int| 0 <= p < q < a@.len() && p < i ==> (#[trigger] a@[p]).key@ != (#[trigger] a@[q]).key@,
        decreases a@.len() - i,
    {
        let mut j: usize = i + 1;
        while j < a.len()
            invariant
                i < a@.len(),
                i < j <= a@.len(),
                forall|p: int, q: int| 0 <= p < q < a@.len() && p < i ==> (#[trigger] a@[p]).key@ != (#[trigger] a@[q]).key@,
                forall|q: int| i < q < j ==> a@[i as int].key@ != (#[trigger] a@[q]).key@,
            decreases a@.len() - j,
        {
            if a[i].key == a[j].key {
                assert(keys(a@)[i as int] == keys(a@)[j as int]);
                return false;
            }
            j = j + 1;
        }
        i = i + 1;
    }
    assert forall|p: int, q: int| 0 <= p < keys(a@).len() && 0 <= q < keys(a@).len() && p != q
        implies keys(a@)[p] != keys(a@)[q] by {
        if p < q {
            assert(a@[p].key@ != a@[q].key@);
        } else {
            assert(a@[q].key@ != a@[p].key@);
        }
    }
    true
}

impl SettingsDocument {
    pub closed spec fn current(&self) -> Seq<Setting> {
        self.current@
    }

    pub closed spec fn defaults(&self) -> Seq<Setting> {
        self.defaults@
    }

    /// Every option has a current and a default value, and none is named twice.
    pub open spec fn wf(&self) -> bool {
        valid_parts(self.current(), self.defaults())
    }

    /// Builds a document from its two halves.
    pub fn from_parts(current: Vec<Setting>, defaults: Vec<Setting>) -> (r: Result<Self, DocumentError>)
        ensures
            r is Ok <==> valid_parts(current@, defaults@),
            r matches Ok(d) ==> d.wf() && d.current() == current@ && d.defaults() == defaults@,
            r == Err::<Self, DocumentError>(DocumentError::DuplicateKey) <==> !(keys(current@).no_duplicates()
                && keys(defaults@).no_duplicates()),
            r == Err::<Self, DocumentError>(DocumentError::KeyMismatch) <==> (keys(current@).no_duplicates()
                && keys(defaults@).no_duplicates() && key_set(current@) != key_set(defaults@)),
    {
        if !unique_keys(&current) || !unique_keys(&defaults) {
            return Err(DocumentError::DuplicateKey);
        }
        if !same_key_set(&current, &defaults) {
            return Err(DocumentError::KeyMismatch);
        }
        Ok(SettingsDocument { current, defaults })
    }

    pub fn current_settings(&self) -> (r: &Vec<Setting>)
        ensures
            r@ == self.current(),
    {
        &self.current
    }

    pub fn default_settings(&self) -> (r: &Vec<Setting>)
        ensures
            r@ == self.defaults(),
    {
        &self.defaults
    }

    /// Replaces both halves at once. The new halves must name exactly the
    /// options the document already has, in the same order; otherwise the
    /// Replaces both halves at once (no merge). The new halves must name
    /// exactly the options the document already has, each once, in any
    /// order; otherwise the document is left as it was.
    pub fn apply(&mut self, current: Vec<Setting>, defaults: Vec<Setting>) -> (r: Result<(), DocumentError>)
        requires
            old(self).wf(),
        ensures
            final(self).wf(),
            r is Ok <==> fits(current@, defaults@, key_set(old(self).current())),
            r is Ok ==> final(self).current() == current@ && final(self).defaults() == defaults@,
            r is Err ==> *final(self) == *old(self),
            r == Err::<(), DocumentError>(DocumentError::DuplicateKey) <==> !(keys(current@).no_duplicates()
                && keys(defaults@).no_duplicates()),
            r == Err::<(), DocumentError>(DocumentError::KeyMismatch) <==> (keys(current@).no_duplicates()
                && keys(defaults@).no_duplicates() && !fits(current@, defaults@, key_set(old(self).current()))),
    {
        if !unique_keys(&current) || !unique_keys(&defaults) {
            return Err(DocumentError::DuplicateKey);
        }
        if !same_key_set(&current, &defaults) || !same_key_set(&current, &self.current) {
            return Err(DocumentError::KeyMismatch);
        }
        self.current = current;
        self.defaults = defaults;
        Ok(())
    }

    fn find<'a>(s: &'a Vec<Setting>, key: &String) -> (r: Option<&'a OptionValue>)
        ensures
            r is None <==> (forall|i: int| 0 <= i < s@.len() ==> (#[trigger] s@[i]).key@ != key@),
            r matches Some(v) ==> has_value(s@, key@, *v),
    {
        let mut i: usize = 0;
        while i < s.len()
            invariant
                i <= s@.len(),
                forall|j: int| 0 <= j < i ==> (#[trigger] s@[j]).key@ != key@,
            decreases s@.len() - i,
        {
            if s[i].key == *key {
                assert(s@[i as int].key@ == key@);
                return Some(&s[i].value);
            }
            i = i + 1;
        }
        None
    }

    /// The current value of an option, by name.
    pub fn get_current(&self, key: &String) -> (r: Option<&OptionValue>)
        ensures
            r is None <==> !keys(self.current()).contains(key@),
            r matches Some(v) ==> has_value(self.current(), key@, *v),
    {
        let r = Self::find(&self.current, key);
        proof {
            if let Some(v) = r {
                let i = choose|i: int| 0 <= i < self.current().len() && (#[trigger] self.current()[i]).key@ == key@
                    && self.current()[i].value == *v;
                assert(keys(self.current())[i] == key@);
            }
            if keys(self.current()).contains(key@) {
                let i = choose|i: int| 0 <= i < keys(self.current()).len() && keys(self.current())[i] == key@;
                assert(self.current()[i].key@ == key@);
            }
        }
        r
    }

    /// The default value of an option, by name.
    pub fn get_default(&self, key: &String) -> (r: Option<&OptionValue>)
        ensures
            r is None <==> !keys(self.defaults()).contains(key@),
            r matches Some(v) ==> has_value(self.defaults(), key@, *v),
    {
        let r = Self::find(&self.defaults, key);
        proof {
            if let Some(v) = r {
                let i = choose|i: int| 0 <= i < self.defaults().len() && (#[trigger] self.defaults()[i]).key@ == key@
                    && self.defaults()[i].value == *v;
                assert(keys(self.defaults())[i] == key@);
            }
            if keys(self.defaults()).contains(key@) {
                let i = choose|i: int| 0 <= i < keys(self.defaults()).len() && keys(self.defaults())[i] == key@;
                assert(self.defaults()[i].key@ == key@);
            }
        }
        r
    }
}

/// Options of a well-formed document have unique names, so each has at most
/// one current value.
pub proof fn lemma_value_unique(d: &SettingsDocument, k: Seq<char>, v: OptionValue, w: OptionValue)
    requires
        d.wf(),
        has_value(d.current(), k, v),
        has_value(d.current(), k, w),
    ensures
        v == w,
{
    let i = choose|i: int| 0 <= i < d.current().len() && (#[trigger] d.current()[i]).key@ == k && d.current()[i].value == v;
    let j = choose|j: int| 0 <= j < d.current().len() && (#[trigger] d.current()[j]).key@ == k && d.current()[j].value == w;
    assert(keys(d.current())[i] == keys(d.current())[j]);
}

/// The current and default halves of every well-formed document name the
/// same set of options.
pub proof fn lemma_key_sets_agree(d: &SettingsDocument)
    requires
        d.wf(),
    ensures
        keys(d.current()).to_set() == keys(d.defaults()).to_set(),
        keys(d.current()).len() == keys(d.defaults()).len(),
{
    keys(d.current()).unique_seq_to_set();
    keys(d.defaults()).unique_seq_to_set();
}

/// What was found where the settings are stored.
pub enum StoredMenu {
    /// No stored settings.
    Missing,
    /// Stored settings that could not be parsed.
    Invalid,
    /// Parsed current and default halves.
    Parsed(Vec<Setting>, Vec<Setting>),
}

/// What loading did, and what the caller must do with the stored file.
#[derive(Clone, Copy, Debug, PartialEq, Eq, Structural)]
pub enum LoadOutcome {
    /// Nothing was stored; the document keeps its built-in values.
    NoFile,
    /// The stored halves replaced the document's.
    Loaded,
    /// The stored settings are unusable: the file must be deleted, and the
    /// document keeps its built-in values.
    Removed,
}

/// Applies stored settings at start-up. Unusable settings (unparsable, or
/// naming other options than the document) never fail the load: they are
/// reported for deletion and the document is left as it was.
pub fn load_from_file(doc: &mut SettingsDocument, stored: StoredMenu) -> (r: LoadOutcome)
    requires
        old(doc).wf(),
    ensures
        final(doc).wf(),
        match stored {
            StoredMenu::Missing => r == LoadOutcome::NoFile && *final(doc) == *old(doc),
            StoredMenu::Invalid => r == LoadOutcome::Removed && *final(doc) == *old(doc),
            StoredMenu::Parsed(c, d) => if fits(c@, d@, key_set(old(doc).current())) {
                r == LoadOutcome::Loaded && final(doc).current() == c@ && final(doc).defaults() == d@
            } else {
                r == LoadOutcome::Removed && *final(doc) == *old(doc)
            },
        },
{
    match stored {
        StoredMenu::Missing => LoadOutcome::NoFile,
        StoredMenu::Invalid => LoadOutcome::Removed,
        StoredMenu::Parsed(c, d) => match doc.apply(c, d) {
            Ok(()) => LoadOutcome::Loaded,
            Err(_) => LoadOutcome::Removed,
        },
    }
}

/// Applies a settings document received from another part of the program,
/// already parsed into its halves (`None` when it could not be parsed). On
/// `Ok` the caller persists the document; on `Err` it reports the message as
/// an internal error. A failed message leaves the document as it was.
pub fn set_menu_from_json(doc: &mut SettingsDocument, message: Option<(Vec<Setting>, Vec<Setting>)>) -> (r: Result<(), DocumentError>)
    requires
        old(doc).wf(),
    ensures
        final(doc).wf(),
        match message {
            None => r == Err::<(), DocumentError>(DocumentError::Unparsable) && *final(doc) == *old(doc),
            Some((c, d)) => if fits(c@, d@, key_set(old(doc).current())) {
                r is Ok && final(doc).current() == c@ && final(doc).defaults() == d@
            } else {
                *final(doc) == *old(doc) && r == Err::<(), DocumentError>(
                    if keys(c@).no_duplicates() && keys(d@).no_duplicates() {
                        DocumentError::KeyMismatch
                    } else {
                        DocumentError::DuplicateKey
                    },
                )
            },
        },
{
    match message {
        None => Err(DocumentError::Unparsable),
        Some((c, d)) => doc.apply(c, d),
    }
}

} // verus!
