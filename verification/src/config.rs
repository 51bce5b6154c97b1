//! The store of tracked files: a mapping from labels to entries, each entry
//! with its source below the store's directory and its targets by platform.

use crate::error::{Error, ErrorView};
use crate::os::OS;
use crate::path::{join, joined};
use vstd::prelude::*;

verus! {

/// Settings that hold for every entry of a store.
#[derive(Debug, PartialEq, Eq)]
pub struct Configuration {
    /// A program that is run to show differences, in place of the built-in
    /// comparison.
    pub diff_command: Option<String>,
}

/// One tracked file: where its source lies below the store's directory, and
/// where it is installed on each platform that has it.
#[derive(Debug, PartialEq, Eq)]
pub struct ConfigEntry {
    source: String,
    linux: Option<String>,
    windows: Option<String>,
    macos: Option<String>,
}

/// An optional text as an optional sequence of characters.
pub open spec fn optional_text(t: Option<String>) -> Option<Seq<char>> {
    match t {
        Some(s) => Some(s@),
        None => None,
    }
}

impl ConfigEntry {
    /// The source as it was written: a path relative to the store's directory.
    pub closed spec fn source_text(&self) -> Seq<char> {
        self.source@
    }

    /// The target that the entry has on `os`, if it has one.
    pub closed spec fn target_text(&self, os: OS) -> Option<Seq<char>> {
        match os {
            OS::Linux => optional_text(self.linux),
            OS::Windows => optional_text(self.windows),
            OS::MacOS => optional_text(self.macos),
        }
    }

    /// An entry for `source` that is installed on no platform yet.
    pub fn new(source: String) -> (r: ConfigEntry)
        ensures
            r.source_text() == source@,
            forall|os: OS| r.target_text(os) is None,
    {
        ConfigEntry { source, linux: None, windows: None, macos: None }
    }

    /// Sets the target on `os` to `path`. A target that the entry already
    /// had on `os` is replaced; the other platforms keep theirs.
    pub fn set_target(&mut self, os: OS, path: String)
        ensures
            final(self).source_text() == old(self).source_text(),
            final(self).target_text(os) == Some(path@),
            forall|other: OS|
                other != os ==> final(self).target_text(other) == old(self).target_text(other),
    {
        match os {
            OS::Linux => {
                self.linux = Some(path);
            },
            OS::Windows => {
                self.windows = Some(path);
            },
            OS::MacOS => {
                self.macos = Some(path);
            },
        }
    }

    /// Sets the target on the platform that `name` stands for to `path`, as
    /// [`ConfigEntry::set_target`] does. A name that stands for no supported
    /// platform is a failure, and the entry stays as it is.
    pub fn set_named_target(&mut self, name: &str, path: String) -> (r: Result<(), Error>)
        ensures
            final(self).source_text() == old(self).source_text(),
            match OS::named(name@) {
                Some(os) => r is Ok && final(self).target_text(os) == Some(path@) && forall|
                    other: OS,
                |
                    other != os ==> final(self).target_text(other) == old(self).target_text(other),
                None => r is Err && r->Err_0@ == (ErrorView::UnknownPlatform { name: name@ })
                    && forall|other: OS|
                    final(self).target_text(other) == old(self).target_text(other),
            },
    {
        match OS::from_name(name) {
            Some(os) => {
                self.set_target(os, path);
                Ok(())
            },
            None => Err(Error::UnknownPlatform { name: name.to_owned() }),
        }
    }

    /// The source, as a path that begins with the store's directory `base`.
    pub fn get_source_path(&self, base: &str, os: OS) -> (r: String)
        ensures
            r@ == joined(os, base@, self.source_text()),
    {
        join(base, self.source.as_str(), os)
    }

    /// The target on `os`, as it was written. An entry without one gives
    /// nothing: the file is simply not installed on that platform.
    pub fn get_current_target_path(&self, os: OS) -> (r: Option<String>)
        ensures
            optional_text(r) == self.target_text(os),
    {
        let slot = match os {
            OS::Linux => &self.linux,
            OS::Windows => &self.windows,
            OS::MacOS => &self.macos,
        };
        match slot {
            Some(path) => Some(path.clone()),
            None => None,
        }
    }
}

/// Whether some pair of `list` carries `label`.
spec fn lists(list: Seq<(String, ConfigEntry)>, label: Seq<char>) -> bool {
    exists|i: int| 0 <= i < list.len() && (#[trigger] list[i]).0@ == label
}

/// Where `label` stands in `list`.
spec fn place_of(list: Seq<(String, ConfigEntry)>, label: Seq<char>) -> int {
    choose|i: int| 0 <= i < list.len() && (#[trigger] list[i]).0@ == label
}

/// Whether no label stands twice in `list`.
spec fn each_once(list: Seq<(String, ConfigEntry)>) -> bool {
    forall|i: int, j: int|
        0 <= i < j < list.len() ==> (#[trigger] list[i]).0@ != (#[trigger] list[j]).0@
}

/// The mapping from labels to entries that the pairs of `list` make up.
spec fn mapping_of(list: Seq<(String, ConfigEntry)>) -> Map<Seq<char>, ConfigEntry> {
    Map::new(|label: Seq<char>| lists(list, label), |label: Seq<char>| list[place_of(list, label)].1)
}

proof fn lemma_place(list: Seq<(String, ConfigEntry)>, i: int)
    requires
        each_once(list),
        0 <= i < list.len(),
    ensures
        lists(list, list[i].0@),
        place_of(list, list[i].0@) == i,
        mapping_of(list)[list[i].0@] == list[i].1,
{
    let label = list[i].0@;
    let k = place_of(list, label);
    assert(0 <= k < list.len() && list[k].0@ == label);
    if k < i {
        assert(list[k].0@ != list[i].0@);
    } else if i < k {
        assert(list[i].0@ != list[k].0@);
    }
}

proof fn lemma_pushed(list: Seq<(String, ConfigEntry)>, label: String, entry: ConfigEntry)
    requires
        each_once(list),
        !lists(list, label@),
    ensures
        each_once(list.push((label, entry))),
        mapping_of(list.push((label, entry))) == mapping_of(list).insert(label@, entry),
{
    let longer = list.push((label, entry));
    assert forall|i: int, j: int| 0 <= i < j < longer.len() implies (#[trigger] longer[i]).0@ != (
    #[trigger] longer[j]).0@ by {
        if j < list.len() {
            assert(list[i].0@ != list[j].0@);
        } else {
            assert(longer[i] == list[i]);
        }
    }
    assert forall|l: Seq<char>| lists(longer, l) <==> (l == label@ || lists(list, l)) by {
        if lists(longer, l) {
            let k = place_of(longer, l);
            if k < list.len() {
                assert(list[k].0@ == l);
            }
        }
        if l == label@ {
            assert(longer[list.len() as int].0@ == l);
        }
        if lists(list, l) {
            let k = place_of(list, l);
            assert(longer[k].0@ == l);
        }
    }
    assert forall|l: Seq<char>| lists(longer, l) implies #[trigger] mapping_of(longer)[l]
        == mapping_of(list).insert(label@, entry)[l] by {
        let k = place_of(longer, l);
        lemma_place(longer, k);
        if k < list.len() {
            assert(longer[k] == list[k]);
            lemma_place(list, k);
        }
    }
    assert(mapping_of(longer) =~= mapping_of(list).insert(label@, entry));
}

proof fn lemma_replaced(list: Seq<(String, ConfigEntry)>, at: int, label: String, entry: ConfigEntry)
    requires
        each_once(list),
        0 <= at < list.len(),
        list[at].0@ == label@,
    ensures
        each_once(list.update(at, (label, entry))),
        mapping_of(list.update(at, (label, entry))) == mapping_of(list).insert(label@, entry),
{
    let other = list.update(at, (label, entry));
    assert forall|i: int, j: int| 0 <= i < j < other.len() implies (#[trigger] other[i]).0@ != (
    #[trigger] other[j]).0@ by {
        assert(other[i].0@ == list[i].0@);
        assert(other[j].0@ == list[j].0@);
        assert(list[i].0@ != list[j].0@);
    }
    assert forall|l: Seq<char>| lists(other, l) <==> (l == label@ || lists(list, l)) by {
        if lists(other, l) {
            let k = place_of(other, l);
            assert(list[k].0@ == l);
        }
        if l == label@ {
            assert(other[at].0@ == l);
        }
        if lists(list, l) {
            let k = place_of(list, l);
            assert(other[k].0@ == l);
        }
    }
    assert forall|l: Seq<char>| lists(other, l) implies #[trigger] mapping_of(other)[l]
        == mapping_of(list).insert(label@, entry)[l] by {
        let k = place_of(other, l);
        lemma_place(other, k);
        if k != at {
            assert(other[k] == list[k]);
            lemma_place(list, k);
        }
    }
    assert(mapping_of(other) =~= mapping_of(list).insert(label@, entry));
}

/// The pairs of a store, in the order in which their labels came.
#[derive(Debug)]
struct Entries {
    list: Vec<(String, ConfigEntry)>,
}

impl Entries {
    #[verifier::type_invariant]
    spec fn each_label_once(self) -> bool {
        each_once(self.list@)
    }

    fn position(&self, label: &String) -> (r: Option<usize>)
        ensures
            match r {
                Some(i) => i < self.list@.len() && self.list@[i as int].0@ == label@,
                None => !lists(self.list@, label@),
            },
    {
        let mut i: usize = 0;
        while i < self.list.len()
            invariant
                i <= self.list@.len(),
                forall|k: int| 0 <= k < i ==> (#[trigger] self.list@[k]).0@ != label@,
            decreases self.list@.len() - i,
        {
            if self.list[i].0 == *label {
                return Some(i);
            }
            i += 1;
        }
        None
    }
}

/// A store: its settings, and its entries by label.
#[derive(Debug)]
pub struct Config {
    pub config: Configuration,
    configs: Entries,
}

impl Config {
    /// The entries of the store, by label.
    pub closed spec fn entries(&self) -> Map<Seq<char>, ConfigEntry> {
        mapping_of(self.configs.list@)
    }

    /// The settings of the store.
    pub closed spec fn settings(&self) -> Configuration {
        self.config
    }

    /// The settings of the store.
    pub fn get_settings(&self) -> (r: &Configuration)
        ensures
            *r == self.settings(),
    {
        &self.config
    }

    /// A store with the settings `config` and no entry.
    pub fn new(config: Configuration) -> (r: Config)
        ensures
            r.settings() == config,
            r.entries() == Map::<Seq<char>, ConfigEntry>::empty(),
    {
        let r = Config { config, configs: Entries { list: Vec::new() } };
        assert(r.entries() =~= Map::<Seq<char>, ConfigEntry>::empty());
        r
    }

    /// Puts `entry` under `label`. Where the store already has an entry
    /// under that label, the new one takes its place: the last one wins.
    pub fn insert(&mut self, label: String, entry: ConfigEntry)
        ensures
            final(self).settings() == old(self).settings(),
            final(self).entries() == old(self).entries().insert(label@, entry),
    {
        proof {
            use_type_invariant(&self.configs);
        }
        let found = self.configs.position(&label);
        let mut list: Vec<(String, ConfigEntry)> = Vec::new();
        core::mem::swap(&mut self.configs.list, &mut list);
        match found {
            Some(i) => {
                proof {
                    lemma_replaced(list@, i as int, label, entry);
                }
                list.set(i, (label, entry));
            },
            None => {
                proof {
                    lemma_pushed(list@, label, entry);
                }
                list.push((label, entry));
            },
        }
        core::mem::swap(&mut self.configs.list, &mut list);
    }

    /// The entry under `label`. A label that the store does not have gives
    /// nothing, which is no failure of the store.
    pub fn get_entry(&self, label: &String) -> (r: Option<&ConfigEntry>)
        ensures
            match r {
                Some(entry) => self.entries().contains_key(label@) && *entry == self.entries()[label@],
                None => !self.entries().contains_key(label@),
            },
    {
        proof {
            use_type_invariant(&self.configs);
        }
        match self.configs.position(label) {
            Some(i) => {
                proof {
                    lemma_place(self.configs.list@, i as int);
                }
                Some(&self.configs.list[i].1)
            },
            None => None,
        }
    }

    /// Every label with its entry: each label of the store once, each with
    /// the entry that stands under it. The order is the store's own.
    pub fn get_entries(&self) -> (r: Vec<(&String, &ConfigEntry)>)
        ensures
            forall|i: int|
                0 <= i < r@.len() ==> self.entries().contains_key((#[trigger] r@[i]).0@)
                    && self.entries()[r@[i].0@] == *r@[i].1,
            forall|label: Seq<char>|
                self.entries().contains_key(label) ==> exists|i: int|
                    0 <= i < r@.len() && (#[trigger] r@[i]).0@ == label,
            forall|i: int, j: int|
                0 <= i < j < r@.len() ==> (#[trigger] r@[i]).0@ != (#[trigger] r@[j]).0@,
    {
        proof {
            use_type_invariant(&self.configs);
        }
        let mut out: Vec<(&String, &ConfigEntry)> = Vec::new();
        let mut i: usize = 0;
        while i < self.configs.list.len()
            invariant
                i <= self.configs.list@.len(),
                each_once(self.configs.list@),
                out@.len() == i,
                forall|k: int|
                    0 <= k < i ==> *(#[trigger] out@[k]).0 == self.configs.list@[k].0 && *out@[k].1
                        == self.configs.list@[k].1,
            decreases self.configs.list@.len() - i,
        {
            let pair = &self.configs.list[i];
            out.push((&pair.0, &pair.1));
            i += 1;
        }
        assert forall|k: int| 0 <= k < out@.len() implies self.entries().contains_key(
            (#[trigger] out@[k]).0@,
        ) && self.entries()[out@[k].0@] == *out@[k].1 by {
            lemma_place(self.configs.list@, k);
        }
        assert forall|label: Seq<char>| self.entries().contains_key(label) implies exists|i: int|
            0 <= i < out@.len() && (#[trigger] out@[i]).0@ == label by {
            let k = place_of(self.configs.list@, label);
            assert(out@[k].0@ == label);
        }
        assert forall|a: int, b: int| 0 <= a < b < out@.len() implies (#[trigger] out@[a]).0@ != (
        #[trigger] out@[b]).0@ by {
            assert(self.configs.list@[a].0@ != self.configs.list@[b].0@);
        }
        out
    }

    /// Every label of the store, each once.
    pub fn _get_labels(&self) -> (r: Vec<&String>)
        ensures
            forall|i: int| 0 <= i < r@.len() ==> self.entries().contains_key(#[trigger] r@[i]@),
            forall|label: Seq<char>|
                self.entries().contains_key(label) ==> exists|i: int|
                    0 <= i < r@.len() && #[trigger] r@[i]@ == label,
            forall|i: int, j: int| 0 <= i < j < r@.len() ==> #[trigger] r@[i]@ != #[trigger] r@[j]@,
    {
        let pairs = self.get_entries();
        let mut out: Vec<&String> = Vec::new();
        let mut i: usize = 0;
        while i < pairs.len()
            invariant
                i <= pairs@.len(),
                out@.len() == i,
                forall|k: int| 0 <= k < i ==> *(#[trigger] out@[k]) == *pairs@[k].0,
            decreases pairs@.len() - i,
        {
            out.push(pairs[i].0);
            i += 1;
        }
        assert forall|k: int| 0 <= k < out@.len() implies self.entries().contains_key(
            #[trigger] out@[k]@,
        ) by {
            assert(self.entries().contains_key(pairs@[k].0@));
        }
        assert forall|label: Seq<char>| self.entries().contains_key(label) implies exists|i: int|
            0 <= i < out@.len() && #[trigger] out@[i]@ == label by {
            let k = choose|k: int| 0 <= k < pairs@.len() && (#[trigger] pairs@[k]).0@ == label;
            assert(out@[k]@ == label);
        }
        assert forall|a: int, b: int| 0 <= a < b < out@.len() implies #[trigger] out@[a]@
            != #[trigger] out@[b]@ by {
            assert(pairs@[a].0@ != pairs@[b].0@);
        }
        out
    }
}

} // verus!
