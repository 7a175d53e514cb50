//! The prompt cache: which command was last proposed for which prompt.

use vstd::prelude::*;
use std::collections::BTreeMap;

verus! {

/// The error with which `serde_json` refuses a text or a value.
#[verifier::external_type_specification]
#[verifier::external_body]
pub struct ExJsonError(serde_json::Error);

/// The mapping that `serde_json::from_str` reads from `text` when it is
/// asked for a map from strings to strings, or `None` where it refuses the
/// text.
pub uninterp spec fn json_string_map(text: Seq<char>) -> Option<Map<Seq<char>, Seq<char>>>;

/// The text that `serde_json::to_string_pretty` writes for a map from
/// strings to strings that is ordered by its keys.
pub uninterp spec fn pretty_json_text(mapping: Map<Seq<char>, Seq<char>>) -> Seq<char>;

/// Reads a JSON object of strings with `serde_json::from_str`, into a map
/// ordered by its keys, and hands out the entries. What is read depends on
/// the text alone; a map holds no key twice.
#[verifier::external_body]
fn read_string_map(text: &str) -> (outcome: Result<Vec<(String, String)>, serde_json::Error>)
    ensures
        match outcome {
            Ok(pairs) => keys_distinct(pairs@) && json_string_map(text@) == Some(
                mapping_of(pairs@),
            ),
            Err(_) => json_string_map(text@) is None,
        },
{
    match serde_json::from_str::<BTreeMap<String, String>>(text) {
        Ok(map) => Ok(map.into_iter().collect()),
        Err(e) => Err(e),
    }
}

/// Writes entries as a pretty-printed JSON object with
/// `serde_json::to_string_pretty`, from a map ordered by its keys. What is
/// written depends on the mapping alone. The encoder fails only where a
/// value refuses to be written or a key is no string, and neither can be
/// so of a map from strings to strings: it succeeds.
#[verifier::external_body]
fn write_string_map(pairs: &Vec<(String, String)>) -> (outcome: Result<String, serde_json::Error>)
    requires
        keys_distinct(pairs@),
    ensures
        outcome is Ok,
        outcome matches Ok(text) ==> text@ == pretty_json_text(mapping_of(pairs@)),
{
    let map: BTreeMap<String, String> = pairs.iter().cloned().collect();
    serde_json::to_string_pretty(&map)
}

/// Why a cache could not be turned into text, or text into a cache.
#[derive(Debug)]
pub enum StorageError {
    /// The text is not a JSON object of strings.
    Decode(serde_json::Error),
    /// The encoder refused to write the cache. No cache brings this about;
    /// the variant carries the encoder's error should it ever report one.
    Encode(serde_json::Error),
}

/// Whether some entry of `pairs` has the key `key`.
pub open spec fn holds_key(pairs: Seq<(String, String)>, key: Seq<char>) -> bool {
    exists|i: int| 0 <= i < pairs.len() && (#[trigger] pairs[i]).0@ == key
}

/// The place of an entry of `pairs` with the key `key`, where there is one.
pub open spec fn place_of(pairs: Seq<(String, String)>, key: Seq<char>) -> int {
    choose|i: int| 0 <= i < pairs.len() && (#[trigger] pairs[i]).0@ == key
}

/// Whether no two entries of `pairs` have the same key.
pub open spec fn keys_distinct(pairs: Seq<(String, String)>) -> bool {
    forall|i: int, j: int|
        0 <= i < j < pairs.len() ==> (#[trigger] pairs[i]).0@ != (#[trigger] pairs[j]).0@
}

/// The mapping that a list of entries stands for.
pub open spec fn mapping_of(pairs: Seq<(String, String)>) -> Map<Seq<char>, Seq<char>> {
    Map::new(
        |key: Seq<char>| holds_key(pairs, key),
        |key: Seq<char>| pairs[place_of(pairs, key)].1@,
    )
}

/// In a list without a repeated key, each entry is what the mapping holds for
/// its key.
pub proof fn lemma_entry_is_mapped(pairs: Seq<(String, String)>, i: int)
    requires
        keys_distinct(pairs),
        0 <= i < pairs.len(),
    ensures
        mapping_of(pairs).contains_key(pairs[i].0@),
        mapping_of(pairs)[pairs[i].0@] == pairs[i].1@,
{
    let key = pairs[i].0@;
    assert(holds_key(pairs, key));
    let j = place_of(pairs, key);
    assert(0 <= j < pairs.len() && pairs[j].0@ == key);
    assert(j == i) by {
        if j < i {
            assert(pairs[j].0@ != pairs[i].0@);
        } else if i < j {
            assert(pairs[i].0@ != pairs[j].0@);
        }
    }
}

/// A mapping from prompt text to command text. A prompt is a key exactly as
/// it was given: no case is folded and no blank is dropped.
#[derive(Clone, Debug)]
pub struct PromptCache {
    entries: Vec<(String, String)>,
}

impl View for PromptCache {
    type V = Map<Seq<char>, Seq<char>>;

    closed spec fn view(&self) -> Map<Seq<char>, Seq<char>> {
        mapping_of(self.entries@)
    }
}

impl PromptCache {
    /// Whether the cache is well formed: it holds no prompt twice.
    pub closed spec fn wf(&self) -> bool {
        keys_distinct(self.entries@)
    }

    /// Returns a cache without entries.
    pub fn new() -> (cache: PromptCache)
        ensures
            cache.wf(),
            cache@ == Map::<Seq<char>, Seq<char>>::empty(),
    {
        let cache = PromptCache { entries: Vec::new() };
        assert(cache@ =~= Map::<Seq<char>, Seq<char>>::empty());
        cache
    }

    /// Reads a cache from the text of its file. It succeeds exactly on the
    /// texts that hold a JSON object of strings, with the mapping read from
    /// it.
    pub fn from_json(text: &str) -> (outcome: Result<PromptCache, StorageError>)
        ensures
            match json_string_map(text@) {
                Some(mapping) => outcome matches Ok(cache) && cache.wf() && cache@ == mapping,
                None => outcome matches Err(StorageError::Decode(_)),
            },
    {
        match read_string_map(text) {
            Ok(entries) => Ok(PromptCache { entries }),
            Err(e) => Err(StorageError::Decode(e)),
        }
    }

    /// Returns the cache a run starts with: the one read from the file's
    /// text, and an empty one where the file could not be read.
    pub fn load(content: Option<&str>) -> (outcome: Result<PromptCache, StorageError>)
        ensures
            match content {
                None => outcome matches Ok(cache) && cache.wf() && cache@ == Map::<
                    Seq<char>,
                    Seq<char>,
                >::empty(),
                Some(text) => match json_string_map(text@) {
                    Some(mapping) => outcome matches Ok(cache) && cache.wf() && cache@ == mapping,
                    None => outcome matches Err(StorageError::Decode(_)),
                },
            },
    {
        match content {
            None => Ok(PromptCache::new()),
            Some(text) => PromptCache::from_json(text),
        }
    }

    /// Returns the text of the cache's file: the whole mapping as a
    /// pretty-printed JSON object. It succeeds on every cache.
    pub fn to_json(&self) -> (outcome: Result<String, StorageError>)
        requires
            self.wf(),
        ensures
            outcome is Ok,
            outcome matches Ok(text) ==> text@ == pretty_json_text(self@),
    {
        match write_string_map(&self.entries) {
            Ok(text) => Ok(text),
            Err(e) => Err(StorageError::Encode(e)),
        }
    }

    /// The place of the entry for `prompt`, if there is one.
    fn position(&self, prompt: &String) -> (place: Option<usize>)
        ensures
            match place {
                Some(i) => i < self.entries@.len() && self.entries@[i as int].0@ == prompt@,
                None => !holds_key(self.entries@, prompt@),
            },
    {
        let mut i: usize = 0;
        while i < self.entries.len()
            invariant
                i <= self.entries@.len(),
                forall|k: int| 0 <= k < i ==> (#[trigger] self.entries@[k]).0@ != prompt@,
            decreases self.entries@.len() - i,
        {
            if self.entries[i].0 == *prompt {
                return Some(i);
            }
            i = i + 1;
        }
        None
    }

    /// Returns the command cached for `prompt`, if there is one.
    pub fn get(&self, prompt: &str) -> (command: Option<String>)
        requires
            self.wf(),
        ensures
            command is Some <==> self@.contains_key(prompt@),
            command matches Some(text) ==> text@ == self@[prompt@],
    {
        let key = prompt.to_owned();
        match self.position(&key) {
            Some(i) => {
                proof {
                    lemma_entry_is_mapped(self.entries@, i as int);
                }
                Some(self.entries[i].1.clone())
            },
            None => None,
        }
    }

    /// Returns whether a command is cached for `prompt`.
    pub fn contains_key(&self, prompt: &str) -> (present: bool)
        ensures
            present == self@.contains_key(prompt@),
    {
        let key = prompt.to_owned();
        self.position(&key).is_some()
    }

    /// Returns the number of entries.
    pub fn len(&self) -> (count: usize)
        requires
            self.wf(),
        ensures
            count == self@.len(),
            self@.dom().finite(),
    {
        proof {
            lemma_mapping_len(self.entries@);
        }
        self.entries.len()
    }

    /// Caches `command` for `prompt`, in place of what was cached for it
    /// before; the other entries stay.
    pub fn insert(&mut self, prompt: String, command: String)
        requires
            old(self).wf(),
        ensures
            final(self).wf(),
            final(self)@ == old(self)@.insert(prompt@, command@),
    {
        let ghost before = self.entries@;
        match self.position(&prompt) {
            Some(i) => {
                self.entries.set(i, (prompt, command));
                proof {
                    lemma_replace(before, i as int, prompt, command);
                }
            },
            None => {
                self.entries.push((prompt, command));
                proof {
                    lemma_append(before, prompt, command);
                }
            },
        }
    }

    /// Drops the entry for `prompt`, if there is one; the other entries
    /// stay.
    pub fn remove(&mut self, prompt: &str)
        requires
            old(self).wf(),
        ensures
            final(self).wf(),
            final(self)@ == old(self)@.remove(prompt@),
    {
        let ghost before = self.entries@;
        let key = prompt.to_owned();
        match self.position(&key) {
            Some(i) => {
                self.entries.remove(i);
                proof {
                    lemma_drop(before, i as int);
                }
            },
            None => {
                assert(self@ =~= self@.remove(prompt@));
            },
        }
    }
}

/// A list without a repeated key stands for a mapping with as many entries.
pub proof fn lemma_mapping_len(pairs: Seq<(String, String)>)
    requires
        keys_distinct(pairs),
    ensures
        mapping_of(pairs).dom().finite(),
        mapping_of(pairs).len() == pairs.len(),
    decreases pairs.len(),
{
    if pairs.len() == 0 {
        assert(mapping_of(pairs) =~= Map::<Seq<char>, Seq<char>>::empty());
    } else {
        let front = pairs.drop_last();
        let last = pairs.last();
        assert(keys_distinct(front));
        lemma_mapping_len(front);
        lemma_append(front, last.0, last.1);
        assert(front.push((last.0, last.1)) =~= pairs);
        assert(!mapping_of(front).contains_key(last.0@)) by {
            if holds_key(front, last.0@) {
                let i = place_of(front, last.0@);
                assert(pairs[i].0@ != pairs[pairs.len() - 1].0@);
            }
        }
    }
}

/// Putting an entry with a new key at the end of a list inserts it into the
/// mapping.
pub proof fn lemma_append(pairs: Seq<(String, String)>, key: String, value: String)
    requires
        keys_distinct(pairs),
        !holds_key(pairs, key@),
    ensures
        keys_distinct(pairs.push((key, value))),
        mapping_of(pairs.push((key, value))) == mapping_of(pairs).insert(key@, value@),
{
    let after = pairs.push((key, value));
    assert(keys_distinct(after)) by {
        assert forall|i: int, j: int| 0 <= i < j < after.len() implies (#[trigger] after[i]).0@
            != (#[trigger] after[j]).0@ by {
            if j < pairs.len() {
                assert(pairs[i].0@ != pairs[j].0@);
            } else {
                assert(pairs[i].0@ != key@);
            }
        }
    }
    assert forall|k: Seq<char>| #[trigger]
        mapping_of(after).contains_key(k) == mapping_of(pairs).insert(key@, value@).contains_key(
            k,
        ) by {
        if holds_key(pairs, k) {
            let i = place_of(pairs, k);
            assert(after[i].0@ == k);
        }
        if k == key@ {
            assert(after[after.len() - 1].0@ == k);
        }
        if holds_key(after, k) {
            let i = place_of(after, k);
            if i < pairs.len() {
                assert(pairs[i].0@ == k);
            }
        }
    }
    assert forall|k: Seq<char>| #[trigger] mapping_of(after).contains_key(k) implies mapping_of(
        after,
    )[k] == mapping_of(pairs).insert(key@, value@)[k] by {
        let i = place_of(after, k);
        lemma_entry_is_mapped(after, i);
        if i < pairs.len() {
            lemma_entry_is_mapped(pairs, i);
        }
    }
    assert(mapping_of(after) =~= mapping_of(pairs).insert(key@, value@));
}

/// Putting an entry in the place of one with the same key changes what the
/// mapping holds for that key, and nothing else.
pub proof fn lemma_replace(pairs: Seq<(String, String)>, i: int, key: String, value: String)
    requires
        keys_distinct(pairs),
        0 <= i < pairs.len(),
        pairs[i].0@ == key@,
    ensures
        keys_distinct(pairs.update(i, (key, value))),
        mapping_of(pairs.update(i, (key, value))) == mapping_of(pairs).insert(key@, value@),
{
    let after = pairs.update(i, (key, value));
    assert(keys_distinct(after)) by {
        assert forall|a: int, b: int| 0 <= a < b < after.len() implies (#[trigger] after[a]).0@
            != (#[trigger] after[b]).0@ by {
            assert(pairs[a].0@ != pairs[b].0@);
        }
    }
    assert forall|k: Seq<char>| #[trigger]
        mapping_of(after).contains_key(k) == mapping_of(pairs).insert(key@, value@).contains_key(
            k,
        ) by {
        if holds_key(pairs, k) {
            let j = place_of(pairs, k);
            assert(after[j].0@ == k);
        }
        if holds_key(after, k) {
            let j = place_of(after, k);
            assert(pairs[j].0@ == k);
        }
    }
    assert forall|k: Seq<char>| #[trigger] mapping_of(after).contains_key(k) implies mapping_of(
        after,
    )[k] == mapping_of(pairs).insert(key@, value@)[k] by {
        let j = place_of(after, k);
        lemma_entry_is_mapped(after, j);
        lemma_entry_is_mapped(pairs, j);
    }
    assert(mapping_of(after) =~= mapping_of(pairs).insert(key@, value@));
}

/// Taking an entry out of a list removes its key from the mapping, and
/// nothing else.
pub proof fn lemma_drop(pairs: Seq<(String, String)>, i: int)
    requires
        keys_distinct(pairs),
        0 <= i < pairs.len(),
    ensures
        keys_distinct(pairs.remove(i)),
        mapping_of(pairs.remove(i)) == mapping_of(pairs).remove(pairs[i].0@),
{
    let after = pairs.remove(i);
    let key = pairs[i].0@;
    assert(keys_distinct(after)) by {
        assert forall|a: int, b: int| 0 <= a < b < after.len() implies (#[trigger] after[a]).0@
            != (#[trigger] after[b]).0@ by {
            let a0 = if a < i { a } else { a + 1 };
            let b0 = if b < i { b } else { b + 1 };
            assert(pairs[a0].0@ != pairs[b0].0@);
        }
    }
    assert forall|k: Seq<char>| #[trigger]
        mapping_of(after).contains_key(k) == mapping_of(pairs).remove(key).contains_key(k) by {
        if holds_key(after, k) {
            let j = place_of(after, k);
            let j0 = if j < i { j } else { j + 1 };
            assert(pairs[j0].0@ == k);
            if j0 < i {
                assert(pairs[j0].0@ != pairs[i].0@);
            } else {
                assert(pairs[i].0@ != pairs[j0].0@);
            }
        }
        if holds_key(pairs, k) && k != key {
            let j = place_of(pairs, k);
            let j1 = if j < i { j } else { j - 1 };
            assert(after[j1].0@ == k);
        }
    }
    assert forall|k: Seq<char>| #[trigger] mapping_of(after).contains_key(k) implies mapping_of(
        after,
    )[k] == mapping_of(pairs).remove(key)[k] by {
        let j = place_of(after, k);
        let j0 = if j < i { j } else { j + 1 };
        lemma_entry_is_mapped(after, j);
        lemma_entry_is_mapped(pairs, j0);
    }
    assert(mapping_of(after) =~= mapping_of(pairs).remove(key));
}

} // verus!
