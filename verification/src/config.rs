//! The model registry: providers, model entries keyed by name, and the
//! currently selected model.
use vstd::prelude::*;

use crate::text::{text_lt, text_precedes, views, lemma_text_lt_total,
    lemma_text_lt_transitive, lemma_text_lt_irreflexive};

verus! {

/// The API family a model is reached through.
#[derive(Clone, Copy, Debug, PartialEq, Eq, Structural)]
pub enum Provider {
    OpenAICompat,
    Gemini,
}

/// One configured model.
#[derive(Debug)]
pub struct ModelConfig {
    pub name: String,
    pub api_key: String,
    pub base_url: String,
    pub provider: Provider,
}

/// A model entry as plain character sequences.
#[verifier::ext_equal]
pub struct ModelView {
    pub name: Seq<char>,
    pub api_key: Seq<char>,
    pub base_url: Seq<char>,
    pub provider: Provider,
}

impl View for ModelConfig {
    type V = ModelView;

    open spec fn view(&self) -> ModelView {
        ModelView {
            name: self.name@,
            api_key: self.api_key@,
            base_url: self.base_url@,
            provider: self.provider,
        }
    }
}

impl Clone for ModelConfig {
    fn clone(&self) -> (r: Self)
        ensures
            r == *self,
    {
        ModelConfig {
            name: self.name.clone(),
            api_key: self.api_key.clone(),
            base_url: self.base_url.clone(),
            provider: self.provider,
        }
    }
}

/// The base URL a provider is reached at when none is given.
pub open spec fn default_base_url(provider: Provider) -> Seq<char> {
    match provider {
        Provider::Gemini => "https://generativelanguage.googleapis.com"@,
        Provider::OpenAICompat => "https://api.openai.com/v1"@,
    }
}

pub fn default_base_url_for(provider: Provider) -> (r: String)
    ensures
        r@ == default_base_url(provider),
{
    match provider {
        Provider::Gemini => String::from_str("https://generativelanguage.googleapis.com"),
        Provider::OpenAICompat => String::from_str("https://api.openai.com/v1"),
    }
}

/// The map that a list of (key, model) entries stands for; a later entry
/// wins over an earlier one with the same key.
pub open spec fn entry_map(s: Seq<(String, ModelConfig)>) -> Map<Seq<char>, ModelView>
    decreases s.len(),
{
    if s.len() == 0 {
        Map::empty()
    } else {
        entry_map(s.drop_last()).insert(s.last().0@, s.last().1@)
    }
}

/// No key occurs twice.
pub open spec fn keys_unique(s: Seq<(String, ModelConfig)>) -> bool {
    forall|i: int, j: int|
        0 <= i < s.len() && 0 <= j < s.len() && i != j ==> #[trigger] s[i].0@ != #[trigger] s[j].0@
}

pub proof fn lemma_entry_map_keys(s: Seq<(String, ModelConfig)>)
    requires
        keys_unique(s),
    ensures
        forall|k: Seq<char>|
            #![trigger entry_map(s).contains_key(k)]
            entry_map(s).contains_key(k) <==> exists|i: int| 0 <= i < s.len() && s[i].0@ == k,
        forall|i: int| 0 <= i < s.len() ==> entry_map(s)[#[trigger] s[i].0@] == s[i].1@,
    decreases s.len(),
{
    if s.len() > 0 {
        let t = s.drop_last();
        assert(keys_unique(t));
        lemma_entry_map_keys(t);
        let n = s.len() - 1;
        assert forall|k: Seq<char>| entry_map(s).contains_key(k) implies exists|i: int|
            0 <= i < s.len() && s[i].0@ == k by {
            if k == s[n].0@ {
                assert(s[n].0@ == k);
            } else {
                assert(entry_map(t).contains_key(k));
                let i = choose|i: int| 0 <= i < t.len() && t[i].0@ == k;
                assert(s[i] == t[i]);
            }
        }
        assert forall|k: Seq<char>| (exists|i: int| 0 <= i < s.len() && s[i].0@ == k) implies entry_map(
            s,
        ).contains_key(k) by {
            let i = choose|i: int| 0 <= i < s.len() && s[i].0@ == k;
            if i < n {
                assert(t[i] == s[i]);
            }
        }
        assert forall|i: int| 0 <= i < s.len() implies entry_map(s)[#[trigger] s[i].0@]
            == s[i].1@ by {
            if i < n {
                assert(t[i] == s[i]);
                assert(s[i].0@ != s[n].0@);
            }
        }
    }
}

proof fn lemma_entry_map_push(s: Seq<(String, ModelConfig)>, e: (String, ModelConfig))
    requires
        keys_unique(s),
        !entry_map(s).contains_key(e.0@),
    ensures
        keys_unique(s.push(e)),
        entry_map(s.push(e)) == entry_map(s).insert(e.0@, e.1@),
{
    lemma_entry_map_keys(s);
    let t = s.push(e);
    assert(t.drop_last() =~= s);
    assert forall|i: int, j: int|
        0 <= i < t.len() && 0 <= j < t.len() && i != j implies #[trigger] t[i].0@
        != #[trigger] t[j].0@ by {
        if i < s.len() && j < s.len() {
            assert(t[i] == s[i] && t[j] == s[j]);
        } else if i < s.len() {
            assert(t[i] == s[i]);
        } else {
            assert(t[j] == s[j]);
        }
    }
}

proof fn lemma_entry_map_update(s: Seq<(String, ModelConfig)>, i: int, e: (String, ModelConfig))
    requires
        keys_unique(s),
        0 <= i < s.len(),
        e.0@ == s[i].0@,
    ensures
        keys_unique(s.update(i, e)),
        entry_map(s.update(i, e)) == entry_map(s).insert(e.0@, e.1@),
    decreases s.len(),
{
    let u = s.update(i, e);
    assert forall|a: int, b: int|
        0 <= a < u.len() && 0 <= b < u.len() && a != b implies #[trigger] u[a].0@
        != #[trigger] u[b].0@ by {
        assert(u[a].0@ == s[a].0@);
        assert(u[b].0@ == s[b].0@);
    }
    let n = s.len() - 1;
    if i == n {
        assert(u.drop_last() =~= s.drop_last());
        assert(entry_map(u) =~= entry_map(s).insert(e.0@, e.1@));
    } else {
        let t = s.drop_last();
        assert(keys_unique(t));
        assert(t[i] == s[i]);
        lemma_entry_map_update(t, i, e);
        assert(u.drop_last() =~= t.update(i, e));
        assert(s[i].0@ != s[n].0@);
        assert(entry_map(u) =~= entry_map(s).insert(e.0@, e.1@));
    }
}

proof fn lemma_entry_map_remove(s: Seq<(String, ModelConfig)>, i: int)
    requires
        keys_unique(s),
        0 <= i < s.len(),
    ensures
        keys_unique(s.remove(i)),
        entry_map(s.remove(i)) == entry_map(s).remove(s[i].0@),
    decreases s.len(),
{
    let u = s.remove(i);
    assert forall|a: int, b: int|
        0 <= a < u.len() && 0 <= b < u.len() && a != b implies #[trigger] u[a].0@
        != #[trigger] u[b].0@ by {
        let a2 = if a < i { a } else { a + 1 };
        let b2 = if b < i { b } else { b + 1 };
        assert(u[a] == s[a2]);
        assert(u[b] == s[b2]);
    }
    let n = s.len() - 1;
    let t = s.drop_last();
    assert(keys_unique(t));
    if i == n {
        assert(u =~= t);
        lemma_entry_map_keys(t);
        assert forall|k: int| 0 <= k < t.len() implies t[k].0@ != s[n].0@ by {
            assert(t[k] == s[k]);
        }
        assert(!entry_map(t).contains_key(s[n].0@));
        assert(entry_map(u) =~= entry_map(s).remove(s[i].0@));
    } else {
        assert(t[i] == s[i]);
        lemma_entry_map_remove(t, i);
        assert(u.drop_last() =~= t.remove(i));
        assert(u.last() == s.last());
        assert(s[i].0@ != s[n].0@);
        assert(entry_map(u) =~= entry_map(s).remove(s[i].0@));
    }
}

proof fn lemma_entry_map_len(s: Seq<(String, ModelConfig)>)
    requires
        keys_unique(s),
    ensures
        entry_map(s).dom().finite(),
        entry_map(s).len() == s.len(),
    decreases s.len(),
{
    if s.len() > 0 {
        let t = s.drop_last();
        assert(keys_unique(t));
        lemma_entry_map_len(t);
        lemma_entry_map_keys(t);
        assert forall|k: int| 0 <= k < t.len() implies t[k].0@ != s.last().0@ by {
            assert(t[k] == s[k]);
        }
    }
}

/// `s` lists the keys of `m` in strictly ascending order.
pub open spec fn is_sorted_listing(s: Seq<Seq<char>>, m: Map<Seq<char>, ModelView>) -> bool {
    &&& forall|i: int, j: int| 0 <= i < j < s.len() ==> text_lt(#[trigger] s[i], #[trigger] s[j])
    &&& forall|k: Seq<char>| m.contains_key(k) <==> s.contains(k)
}

/// The keys of `m` in ascending order.
pub open spec fn listing(m: Map<Seq<char>, ModelView>) -> Seq<Seq<char>> {
    choose|s: Seq<Seq<char>>| is_sorted_listing(s, m)
}

proof fn lemma_sorted_same_set(s: Seq<Seq<char>>, t: Seq<Seq<char>>)
    requires
        forall|i: int, j: int| 0 <= i < j < s.len() ==> text_lt(#[trigger] s[i], #[trigger] s[j]),
        forall|i: int, j: int| 0 <= i < j < t.len() ==> text_lt(#[trigger] t[i], #[trigger] t[j]),
        forall|k: Seq<char>| s.contains(k) <==> t.contains(k),
    ensures
        s == t,
    decreases s.len(),
{
    if s.len() == 0 {
        if t.len() > 0 {
            assert(t.contains(t[0]));
        }
        assert(s =~= t);
    } else {
        assert(s.contains(s[0]));
        assert(t.len() > 0);
        assert(t.contains(t[0]));
        if s[0] != t[0] {
            let j = choose|j: int| 0 <= j < t.len() && t[j] == s[0];
            let i = choose|i: int| 0 <= i < s.len() && s[i] == t[0];
            assert(j > 0 && i > 0);
            lemma_text_lt_total(s[0], t[0]);
        }
        let s2 = s.drop_first();
        let t2 = t.drop_first();
        assert forall|k: Seq<char>| s2.contains(k) implies t2.contains(k) by {
            let i = choose|i: int| 0 <= i < s2.len() && s2[i] == k;
            assert(s[i + 1] == k);
            assert(t.contains(k));
            let j = choose|j: int| 0 <= j < t.len() && t[j] == k;
            if j == 0 {
                lemma_text_lt_irreflexive(s[0]);
            } else {
                assert(t2[j - 1] == k);
            }
        }
        assert forall|k: Seq<char>| t2.contains(k) implies s2.contains(k) by {
            let j = choose|j: int| 0 <= j < t2.len() && t2[j] == k;
            assert(t[j + 1] == k);
            assert(s.contains(k));
            let i = choose|i: int| 0 <= i < s.len() && s[i] == k;
            if i == 0 {
                lemma_text_lt_irreflexive(t[0]);
            } else {
                assert(s2[i - 1] == k);
            }
        }
        assert forall|i: int, j: int| 0 <= i < j < s2.len() implies text_lt(
            #[trigger] s2[i],
            #[trigger] s2[j],
        ) by {
            assert(s2[i] == s[i + 1] && s2[j] == s[j + 1]);
        }
        assert forall|i: int, j: int| 0 <= i < j < t2.len() implies text_lt(
            #[trigger] t2[i],
            #[trigger] t2[j],
        ) by {
            assert(t2[i] == t[i + 1] && t2[j] == t[j + 1]);
        }
        lemma_sorted_same_set(s2, t2);
        assert(s =~= seq![s[0]] + s2);
        assert(t =~= seq![t[0]] + t2);
    }
}

/// A sorted listing of a map's keys is the listing.
pub proof fn lemma_listing_unique(s: Seq<Seq<char>>, m: Map<Seq<char>, ModelView>)
    requires
        is_sorted_listing(s, m),
    ensures
        s == listing(m),
        is_sorted_listing(listing(m), m),
{
    let t = listing(m);
    assert(is_sorted_listing(t, m));
    lemma_sorted_same_set(s, t);
}

/// The registry as plain values.
#[verifier::ext_equal]
pub struct ConfigView {
    pub models: Map<Seq<char>, ModelView>,
    pub current: Option<Seq<char>>,
}

/// The models the client knows, keyed by name, and the one selected.
pub struct Config {
    models: Vec<(String, ModelConfig)>,
    current_model: Option<String>,
}

pub open spec fn opt_view(o: Option<String>) -> Option<Seq<char>> {
    match o {
        Some(s) => Some(s@),
        None => None,
    }
}

impl View for Config {
    type V = ConfigView;

    closed spec fn view(&self) -> ConfigView {
        ConfigView { models: entry_map(self.models@), current: opt_view(self.current_model) }
    }
}

impl ConfigView {
    /// The selection names a configured model, or nothing is selected.
    pub open spec fn selection_valid(self) -> bool {
        self.current matches Some(n) ==> self.models.contains_key(n)
    }
}

impl Config {
    #[verifier::type_invariant]
    spec fn inv(self) -> bool {
        keys_unique(self.models@)
    }

    /// An empty registry with nothing selected.
    pub fn new() -> (r: Config)
        ensures
            r@.models == Map::<Seq<char>, ModelView>::empty(),
            r@.current == None::<Seq<char>>,
    {
        let r = Config { models: Vec::new(), current_model: None };
        assert(entry_map(r.models@) =~= Map::empty());
        r
    }


    /// How many models are configured; the registry is always finite.
    pub fn len(&self) -> (r: usize)
        ensures
            self@.models.dom().finite(),
            r == self@.models.len(),
    {
        proof {
            use_type_invariant(self);
            lemma_entry_map_len(self.models@);
        }
        self.models.len()
    }

    /// Where `key` stands among the entries.
    fn position(&self, key: &str) -> (r: Option<usize>)
        ensures
            r matches Some(i) ==> i < self.models@.len() && self.models@[i as int].0@ == key@,
            r is None ==> !self@.models.contains_key(key@),
    {
        proof {
            use_type_invariant(self);
            lemma_entry_map_keys(self.models@);
        }
        let mut i: usize = 0;
        while i < self.models.len()
            invariant
                i <= self.models@.len(),
                forall|k: int| 0 <= k < i ==> self.models@[k].0@ != key@,
            decreases self.models@.len() - i,
        {
            if crate::text::same_text(self.models[i].0.as_str(), key) {
                return Some(i);
            }
            i = i + 1;
        }
        None
    }

    /// Whether a model is configured under `key`.
    pub fn contains_key(&self, key: &str) -> (r: bool)
        ensures
            r == self@.models.contains_key(key@),
    {
        proof {
            use_type_invariant(self);
            lemma_entry_map_keys(self.models@);
        }
        match self.position(key) {
            Some(i) => {
                assert(self@.models.contains_key(self.models@[i as int].0@));
                true
            },
            None => false,
        }
    }

    /// The model configured under `key`.
    pub fn get(&self, key: &str) -> (r: Option<&ModelConfig>)
        ensures
            r matches Some(m) ==> self@.models.contains_key(key@) && self@.models[key@] == m@,
            r is None ==> !self@.models.contains_key(key@),
    {
        proof {
            use_type_invariant(self);
            lemma_entry_map_keys(self.models@);
        }
        match self.position(key) {
            Some(i) => {
                assert(self@.models.contains_key(self.models@[i as int].0@));
                Some(&self.models[i].1)
            },
            None => None,
        }
    }

    /// Puts `model` under `key`, replacing what stood there; gives back
    /// the replaced model.
    pub fn insert(&mut self, key: String, model: ModelConfig) -> (r: Option<ModelConfig>)
        ensures
            final(self)@.models == old(self)@.models.insert(key@, model@),
            final(self)@.current == old(self)@.current,
            r matches Some(m) ==> old(self)@.models.contains_key(key@) && old(self)@.models[key@]
                == m@,
            r is None ==> !old(self)@.models.contains_key(key@),
    {
        proof {
            use_type_invariant(&*self);
            lemma_entry_map_keys(self.models@);
        }
        match self.position(key.as_str()) {
            Some(i) => {
                let ghost s = self.models@;
                let e = (key, model);
                proof {
                    lemma_entry_map_update(s, i as int, e);
                    assert(old(self)@.models.contains_key(s[i as int].0@));
                }
                let mut entries = Vec::new();
                std::mem::swap(&mut entries, &mut self.models);
                let prev = entries.remove(i);
                entries.insert(i, e);
                assert(entries@ =~= s.update(i as int, e));
                self.models = entries;
                Some(prev.1)
            },
            None => {
                let ghost s = self.models@;
                let e = (key, model);
                proof {
                    lemma_entry_map_push(s, e);
                }
                let mut entries = Vec::new();
                std::mem::swap(&mut entries, &mut self.models);
                entries.push(e);
                self.models = entries;
                None
            },
        }
    }

    /// Takes the model under `key` out of the registry.
    pub fn remove(&mut self, key: &str) -> (r: Option<ModelConfig>)
        ensures
            final(self)@.models == old(self)@.models.remove(key@),
            final(self)@.current == old(self)@.current,
            r matches Some(m) ==> old(self)@.models.contains_key(key@) && old(self)@.models[key@]
                == m@,
            r is None ==> !old(self)@.models.contains_key(key@),
    {
        proof {
            use_type_invariant(&*self);
            lemma_entry_map_keys(self.models@);
        }
        match self.position(key) {
            Some(i) => {
                let ghost s = self.models@;
                proof {
                    lemma_entry_map_remove(s, i as int);
                    assert(old(self)@.models.contains_key(s[i as int].0@));
                }
                let mut entries = Vec::new();
                std::mem::swap(&mut entries, &mut self.models);
                let prev = entries.remove(i);
                self.models = entries;
                Some(prev.1)
            },
            None => {
                assert(old(self)@.models.remove(key@) =~= old(self)@.models);
                None
            },
        }
    }

    /// Some configured name, or nothing when no model is configured.
    pub fn any_key(&self) -> (r: Option<String>)
        ensures
            r is None <==> self@.models.dom().is_empty(),
            r matches Some(k) ==> self@.models.contains_key(k@),
    {
        proof {
            use_type_invariant(self);
            lemma_entry_map_keys(self.models@);
        }
        if self.models.len() == 0 {
            assert(entry_map(self.models@) =~= Map::empty());
            None
        } else {
            let k = self.models[0].0.clone();
            assert(self@.models.contains_key(self.models@[0].0@));
            Some(k)
        }
    }

    /// The entries, each key with its model.
    pub fn entries(&self) -> (r: &Vec<(String, ModelConfig)>)
        ensures
            entry_map(r@) == self@.models,
            keys_unique(r@),
    {
        proof {
            use_type_invariant(self);
        }
        &self.models
    }

    /// The selected model's name.
    pub fn current_model(&self) -> (r: Option<&String>)
        ensures
            match r {
                Some(s) => self@.current == Some(s@),
                None => self@.current is None,
            },
    {
        match &self.current_model {
            Some(s) => Some(s),
            None => None,
        }
    }

    /// Selects `name`, or nothing.
    pub fn set_current_model(&mut self, name: Option<String>)
        ensures
            final(self)@.models == old(self)@.models,
            final(self)@.current == opt_view(name),
    {
        proof {
            use_type_invariant(&*self);
        }
        self.current_model = name;
    }

    /// Registers a model under `name`, with the provider's default base
    /// URL when none is given, and selects it when nothing was selected.
    pub fn add_model(
        &mut self,
        provider: Provider,
        name: String,
        api_key: String,
        base_url: Option<String>,
    )
        ensures
            final(self)@.models == old(self)@.models.insert(
                name@,
                ModelView {
                    name: name@,
                    api_key: api_key@,
                    base_url: match base_url {
                        Some(u) => u@,
                        None => default_base_url(provider),
                    },
                    provider,
                },
            ),
            final(self)@.current == (match old(self)@.current {
                Some(c) => Some(c),
                None => Some(name@),
            }),
    {
        proof {
            use_type_invariant(&*self);
        }
        let base_url = match base_url {
            Some(u) => u,
            None => default_base_url_for(provider),
        };
        let model = ModelConfig { name: name.clone(), api_key, base_url, provider };
        self.insert(name.clone(), model);
        if self.current_model.is_none() {
            proof {
                use_type_invariant(&*self);
            }
            self.current_model = Some(name);
        }
    }

    /// The configured names, in ascending order.
    pub fn sorted_names(&self) -> (r: Vec<String>)
        ensures
            views(r@) == listing(self@.models),
            is_sorted_listing(views(r@), self@.models),
            r@.len() == self@.models.len(),
    {
        proof {
            use_type_invariant(self);
            lemma_entry_map_keys(self.models@);
            lemma_entry_map_len(self.models@);
        }
        let mut out: Vec<String> = Vec::new();
        let mut i: usize = 0;
        while i < self.models.len()
            invariant
                i <= self.models@.len(),
                keys_unique(self.models@),
                out@.len() == i,
                forall|a: int, b: int|
                    0 <= a < b < out@.len() ==> text_lt(#[trigger] out@[a]@, #[trigger] out@[b]@),
                forall|k: Seq<char>|
                    views(out@).contains(k) <==> exists|m: int| 0 <= m < i && self.models@[m].0@
                        == k,
            decreases self.models@.len() - i,
        {
            let key = &self.models[i].0;
            let mut p: usize = 0;
            while p < out.len() && text_precedes(out[p].as_str(), key.as_str())
                invariant
                    p <= out@.len(),
                    forall|a: int| 0 <= a < p ==> text_lt(#[trigger] out@[a]@, key@),
                decreases out@.len() - p,
            {
                p = p + 1;
            }
            proof {
                // `key` differs from every name placed so far.
                assert forall|a: int| 0 <= a < out@.len() implies out@[a]@ != key@ by {
                    assert(views(out@)[a] == out@[a]@);
                    assert(views(out@).contains(out@[a]@));
                    let m = choose|m: int| 0 <= m < i && self.models@[m].0@ == out@[a]@;
                    assert(m != i);
                }
                assert forall|a: int| p <= a < out@.len() implies text_lt(key@, #[trigger] out@[a]@) by {
                    if a == p {
                        lemma_text_lt_total(out@[p as int]@, key@);
                    } else {
                        lemma_text_lt_total(out@[p as int]@, key@);
                        lemma_text_lt_transitive(key@, out@[p as int]@, out@[a]@);
                    }
                }
            }
            let ghost before = out@;
            out.insert(p, key.clone());
            proof {
                assert(out@ =~= before.insert(p as int, self.models@[i as int].0));
                assert forall|a: int, b: int|
                    0 <= a < b < out@.len() implies text_lt(#[trigger] out@[a]@, #[trigger] out@[b]@) by {
                    if b < p {
                        assert(out@[a] == before[a] && out@[b] == before[b]);
                    } else if b == p {
                        assert(out@[a] == before[a]);
                    } else if a < p {
                        assert(out@[a] == before[a] && out@[b] == before[b - 1]);
                        lemma_text_lt_transitive(out@[a]@, key@, out@[b]@);
                    } else if a == p {
                        assert(out@[b] == before[b - 1]);
                    } else {
                        assert(out@[a] == before[a - 1] && out@[b] == before[b - 1]);
                    }
                }
                assert forall|k: Seq<char>| views(out@).contains(k) implies exists|m: int|
                    0 <= m < i + 1 && self.models@[m].0@ == k by {
                    let a = choose|a: int| 0 <= a < views(out@).len() && views(out@)[a] == k;
                    if a == p {
                        assert(self.models@[i as int].0@ == k);
                    } else {
                        if a < p {
                            assert(views(before)[a] == k);
                        } else {
                            assert(views(before)[a - 1] == k);
                        }
                        assert(views(before).contains(k));
                        let m = choose|m: int| 0 <= m < i && self.models@[m].0@ == k;
                        assert(0 <= m < i + 1 && self.models@[m].0@ == k);
                    }
                }
                assert forall|k: Seq<char>|
                    (exists|m: int| 0 <= m < i + 1 && self.models@[m].0@ == k) implies views(
                    out@,
                ).contains(k) by {
                    let m = choose|m: int| 0 <= m < i + 1 && self.models@[m].0@ == k;
                    if m == i {
                        assert(views(out@)[p as int] == k);
                    } else {
                        assert(0 <= m < i && self.models@[m].0@ == k);
                        assert(views(before).contains(k));
                        let a = choose|a: int| 0 <= a < views(before).len() && views(before)[a] == k;
                        if a < p {
                            assert(views(out@)[a] == k);
                        } else {
                            assert(views(out@)[a + 1] == k);
                        }
                    }
                }
            }
            i = i + 1;
        }
        proof {
            assert forall|a: int, b: int| 0 <= a < b < views(out@).len() implies text_lt(
                #[trigger] views(out@)[a],
                #[trigger] views(out@)[b],
            ) by {
                assert(views(out@)[a] == out@[a]@ && views(out@)[b] == out@[b]@);
            }
            assert forall|k: Seq<char>| self@.models.contains_key(k) <==> views(out@).contains(k) by {
                if self@.models.contains_key(k) {
                    let m = choose|m: int| 0 <= m < self.models@.len() && self.models@[m].0@ == k;
                    assert(0 <= m < self.models@.len() && self.models@[m].0@ == k);
                }
                if views(out@).contains(k) {
                    let m = choose|m: int| 0 <= m < self.models@.len() && self.models@[m].0@ == k;
                    assert(self@.models.contains_key(self.models@[m].0@));
                }
            }
            lemma_listing_unique(views(out@), self@.models);
        }
        out
    }
}

impl Default for Config {
    fn default() -> (r: Config)
        ensures
            r@.models == Map::<Seq<char>, ModelView>::empty(),
            r@.current == None::<Seq<char>>,
    {
        Config::new()
    }
}

} // verus!
