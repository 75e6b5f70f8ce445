//! Registries of providers and of the models they serve. A provider is held
//! as an opaque handle `P`; what the registries decide needs only names and
//! model lists.
use vstd::prelude::*;
use crate::error::MantiError;
use crate::models::chat::{ChatCompletionRequest, ChatCompletionRequestView};
use crate::models::response::ModelInfo;
use crate::providers::{ModelConfig, ModelConfigView, supports_model};
use crate::providers::string_map::StringMap;

verus! {

/// The ids of a list of model configurations.
pub open spec fn model_ids(models: Seq<ModelConfigView>) -> Seq<Seq<char>> {
    models.map_values(|m: ModelConfigView| m.id)
}

/// The position of the last model of id `k` in `ms`, or -1 when none has it.
pub open spec fn last_with_id(ms: Seq<ModelConfig>, k: Seq<char>) -> int
    decreases ms.len(),
{
    if ms.len() == 0 {
        -1
    } else if ms.last().id@ == k {
        ms.len() - 1
    } else {
        last_with_id(ms.drop_last(), k)
    }
}

proof fn lemma_last_with_id_bounds(ms: Seq<ModelConfig>, k: Seq<char>)
    ensures
        -1 <= last_with_id(ms, k) < ms.len(),
        last_with_id(ms, k) >= 0 ==> ms[last_with_id(ms, k)].id@ == k,
    decreases ms.len(),
{
    if ms.len() > 0 && ms.last().id@ != k {
        lemma_last_with_id_bounds(ms.drop_last(), k);
    }
}

/// The model binding `b` is the model `m` of id `k` served by a clone of
/// `provider`, whose reported name is `owned_by`.
pub open spec fn binds<P: Clone>(b: (ModelInstance<P>, String), k: Seq<char>, provider: P, m: ModelConfig, owned_by: Seq<char>) -> bool {
    &&& b.0.name@ == k
    &&& b.0.model_type@ == k
    &&& cloned(provider, b.0.provider)
    &&& b.0.config == m
    &&& b.1@ == owned_by
}

/// A registered provider: its handle, the models it lists, and the prefix
/// of the model family it serves.
pub struct ProviderEntry<P> {
    pub provider: P,
    pub models: Vec<ModelConfig>,
    pub family_prefix: String,
}

/// The provider of `e` serves `model`: it lists it, or the name has the
/// family prefix.
pub open spec fn entry_serves<P>(e: ProviderEntry<P>, model: Seq<char>) -> bool {
    model_ids(e.models.deep_view()).contains(model) || e.family_prefix@.is_prefix_of(model)
}

/// Providers by name, and the provider name each known model routes to.
pub struct ProviderRegistry<P> {
    providers: StringMap<ProviderEntry<P>>,
    model_map: StringMap<String>,
}

impl<P> ProviderRegistry<P> {
    /// Both maps are consistent.
    pub closed spec fn wf(&self) -> bool {
        self.providers.wf() && self.model_map.wf()
    }

    /// The registered providers by name.
    pub closed spec fn providers(&self) -> Map<Seq<char>, ProviderEntry<P>> {
        self.providers.map()
    }

    /// The provider names, in registration order.
    pub closed spec fn provider_names(&self) -> Seq<Seq<char>> {
        self.providers.keys_seq()
    }

    /// The registered providers, in registration order.
    pub closed spec fn provider_entries(&self) -> Seq<ProviderEntry<P>> {
        self.providers.values_seq()
    }

    /// The provider name each known model routes to.
    pub closed spec fn routes(&self) -> Map<Seq<char>, Seq<char>> {
        self.model_map.map().map_values(|v: String| v@)
    }

    /// The listed names are the registered providers, each once, and the
    /// listed entries are theirs, name by name.
    pub proof fn lemma_listing(&self)
        requires
            self.wf(),
        ensures
            self.provider_names().no_duplicates(),
            self.provider_names().len() == self.provider_entries().len(),
            forall|k: Seq<char>| #[trigger] self.providers().contains_key(k) <==> self.provider_names().contains(k),
            forall|i: int| 0 <= i < self.provider_names().len() ==> #[trigger] self.providers()[self.provider_names()[i]]
                == self.provider_entries()[i],
    {
        self.providers.lemma_listing();
    }

    /// An empty registry.
    pub fn new() -> (r: Self)
        ensures
            r.wf(),
            r.providers() == Map::<Seq<char>, ProviderEntry<P>>::empty(),
            r.provider_names().len() == 0,
            r.routes() == Map::<Seq<char>, Seq<char>>::empty(),
    {
        let r = ProviderRegistry { providers: StringMap::new(), model_map: StringMap::new() };
        assert(r.routes() =~= Map::<Seq<char>, Seq<char>>::empty());
        r
    }

    /// Registers `provider` under `name`, routing each of its models to it;
    /// a provider already registered under `name` is replaced.
    pub fn register(&mut self, name: String, provider: P, models: Vec<ModelConfig>, family_prefix: String)
        requires
            old(self).wf(),
        ensures
            final(self).wf(),
            final(self).providers() == old(self).providers().insert(
                name@,
                ProviderEntry { provider, models, family_prefix },
            ),
            old(self).providers().contains_key(name@) ==> final(self).provider_names() == old(self).provider_names(),
            !old(self).providers().contains_key(name@) ==> final(self).provider_names() == old(self).provider_names().push(
                name@,
            ),
            forall|k: Seq<char>| #[trigger] final(self).routes().contains_key(k) <==> (old(self).routes().contains_key(k)
                || model_ids(models.deep_view()).contains(k)),
            forall|k: Seq<char>| #[trigger] final(self).routes().contains_key(k) ==> final(self).routes()[k] == if model_ids(
                models.deep_view(),
            ).contains(k) {
                name@
            } else {
                old(self).routes()[k]
            },
    {
        let ghost ids = model_ids(models.deep_view());
        let ghost r0 = self.routes();
        let mut i: usize = 0;
        while i < models.len()
            invariant
                self.wf(),
                self.providers() == old(self).providers(),
                self.provider_names() == old(self).provider_names(),
                i <= models.len(),
                ids == model_ids(models.deep_view()),
                forall|k: Seq<char>| #[trigger] self.routes().contains_key(k) <==> (r0.contains_key(k) || ids.take(i as int).contains(k)),
                forall|k: Seq<char>| #[trigger] self.routes().contains_key(k) ==> self.routes()[k] == if ids.take(i as int).contains(k) {
                    name@
                } else {
                    r0[k]
                },
            decreases models.len() - i,
        {
            let ghost before = self.routes();
            let id = models[i].id.clone();
            let nm = name.clone();
            self.model_map.insert(id, nm);
            proof {
                assert(self.routes() =~= before.insert(id@, name@));
                assert(ids[i as int] == id@);
                assert(ids.take(i + 1) =~= ids.take(i as int).push(id@));
                assert forall|k: Seq<char>| #[trigger] self.routes().contains_key(k) <==> (r0.contains_key(k) || ids.take(i + 1).contains(k)) by {
                    if k == id@ {
                        assert(ids.take(i + 1)[i as int] == k);
                    }
                    if ids.take(i + 1).contains(k) && !ids.take(i as int).contains(k) {
                        let t1 = ids.take(i + 1);
                        let j = choose|j: int| 0 <= j < t1.len() && t1[j] == k;
                        if j < i {
                            assert(ids.take(i as int)[j] == k);
                        }
                    }
                    if ids.take(i as int).contains(k) {
                        let t0 = ids.take(i as int);
                        let j = choose|j: int| 0 <= j < t0.len() && t0[j] == k;
                        assert(ids.take(i + 1)[j] == k);
                    }
                }
                assert forall|k: Seq<char>| #[trigger] self.routes().contains_key(k) implies self.routes()[k] == if ids.take(i + 1).contains(k) {
                    name@
                } else {
                    r0[k]
                } by {
                    if k == id@ {
                        assert(ids.take(i + 1)[i as int] == k);
                    } else {
                        if ids.take(i + 1).contains(k) {
                            let t1 = ids.take(i + 1);
                        let j = choose|j: int| 0 <= j < t1.len() && t1[j] == k;
                            assert(j < i);
                            assert(ids.take(i as int)[j] == k);
                        }
                        if ids.take(i as int).contains(k) {
                            let t0 = ids.take(i as int);
                        let j = choose|j: int| 0 <= j < t0.len() && t0[j] == k;
                            assert(ids.take(i + 1)[j] == k);
                        }
                    }
                }
            }
            i = i + 1;
        }
        assert(ids.take(models.len() as int) =~= ids);
        assert forall|k: Seq<char>| #[trigger] self.routes().contains_key(k) <==> (old(self).routes().contains_key(k) || ids.contains(k)) by {
            assert(self.routes().contains_key(k) <==> (r0.contains_key(k) || ids.take(i as int).contains(k)));
        }
        assert forall|k: Seq<char>| #[trigger] self.routes().contains_key(k) implies self.routes()[k] == if ids.contains(k) {
            name@
        } else {
            old(self).routes()[k]
        } by {
            assert(self.routes()[k] == if ids.take(i as int).contains(k) {
                name@
            } else {
                r0[k]
            });
        }
        let ghost mm = self.routes();
        proof {
            self.providers.lemma_listing();
        }
        self.providers.insert(name, ProviderEntry { provider, models, family_prefix });
        assert(self.routes() == mm);
        assert(ids == model_ids(models.deep_view()));
    }

    /// The provider registered under `name`.
    pub fn get_provider(&self, name: &str) -> (r: Option<&P>)
        requires
            self.wf(),
        ensures
            match r {
                Some(p) => self.providers().contains_key(name@) && *p == self.providers()[name@].provider,
                None => !self.providers().contains_key(name@),
            },
    {
        match self.providers.get(name) {
            Some(e) => Some(&e.provider),
            None => None,
        }
    }

    /// The provider for `model`: the one its route names, if it has a
    /// route; otherwise a registered provider that serves it (the earliest
    /// registered), if any.
    pub fn get_provider_for_model(&self, model: &str) -> (r: Option<&P>)
        requires
            self.wf(),
        ensures
            self.routes().contains_key(model@) ==> match r {
                Some(p) => self.providers().contains_key(self.routes()[model@]) && *p == self.providers()[self.routes()[model@]].provider,
                None => !self.providers().contains_key(self.routes()[model@]),
            },
            !self.routes().contains_key(model@) ==> match r {
                Some(p) => exists|i: int|
                    0 <= i < self.provider_entries().len() && entry_serves(#[trigger] self.provider_entries()[i], model@)
                        && *p == self.provider_entries()[i].provider,
                None => forall|i: int|
                    0 <= i < self.provider_entries().len() ==> !entry_serves(#[trigger] self.provider_entries()[i], model@),
            },
    {
        match self.model_map.get(model) {
            Some(pname) => {
                assert(self.routes()[model@] == pname@);
                self.get_provider(pname.as_str())
            },
            None => {
                assert(!self.routes().contains_key(model@));
                let n = self.providers.len();
                proof {
                    self.providers.lemma_lengths();
                }
                let mut i: usize = 0;
                while i < n
                    invariant
                        n == self.provider_entries().len(),
                        !self.routes().contains_key(model@),
                        i <= n,
                        forall|j: int| 0 <= j < i ==> !entry_serves(#[trigger] self.provider_entries()[j], model@),
                    decreases n - i,
                {
                    let e = self.providers.value_at(i);
                    let ids = model_id_list(&e.models);
                    if supports_model(&ids, e.family_prefix.as_str(), model) {
                        return Some(&e.provider);
                    }
                    i = i + 1;
                }
                None
            },
        }
    }

    /// The names of the registered providers.
    pub fn list_providers(&self) -> (r: Vec<String>)
        ensures
            r.deep_view() == self.provider_names(),
    {
        self.providers.keys()
    }

    /// Every model of every registered provider, provider after provider.
    pub fn get_all_models(&self) -> (r: Vec<ModelConfig>)
        ensures
            r.deep_view() == all_models(self.provider_entries()),
    {
        let n = self.providers.len();
        proof {
            self.providers.lemma_lengths();
        }
        let mut out: Vec<ModelConfig> = Vec::new();
        let mut i: usize = 0;
        while i < n
            invariant
                n == self.provider_entries().len(),
                i <= n,
                out.deep_view() == all_models(self.provider_entries().take(i as int)),
            decreases n - i,
        {
            let e = self.providers.value_at(i);
            let ghost base = out.deep_view();
            let mut j: usize = 0;
            while j < e.models.len()
                invariant
                    j <= e.models.len(),
                    out.deep_view() == base + e.models.deep_view().take(j as int),
                decreases e.models.len() - j,
            {
                let ghost o0 = out.deep_view();
                let m = e.models[j].duplicate();
                out.push(m);
                assert(out.deep_view() =~= o0.push(e.models.deep_view()[j as int]));
                assert(e.models.deep_view().take(j + 1) =~= e.models.deep_view().take(j as int).push(e.models.deep_view()[j as int]));
                assert(out.deep_view() =~= base + e.models.deep_view().take(j + 1));
                j = j + 1;
            }
            proof {
                assert(e.models.deep_view().take(e.models.len() as int) =~= e.models.deep_view());
                assert(self.provider_entries().take(i + 1).drop_last() =~= self.provider_entries().take(i as int));
            }
            i = i + 1;
        }
        assert(self.provider_entries().take(n as int) =~= self.provider_entries());
        out
    }

    /// Removes the provider registered under `name`, with every route to it.
    pub fn unregister(&mut self, name: &str)
        requires
            old(self).wf(),
        ensures
            final(self).wf(),
            final(self).providers() == old(self).providers().remove(name@),
            old(self).providers().contains_key(name@) ==> final(self).provider_names() == old(self).provider_names().remove(
                old(self).provider_names().index_of(name@),
            ),
            !old(self).providers().contains_key(name@) ==> final(self).provider_names() == old(self).provider_names(),
            old(self).providers().contains_key(name@) ==> forall|k: Seq<char>| #[trigger] final(self).routes().contains_key(k)
                <==> old(self).routes().contains_key(k) && old(self).routes()[k] != name@,
            !old(self).providers().contains_key(name@) ==> final(self).routes() == old(self).routes(),
            forall|k: Seq<char>| #[trigger] final(self).routes().contains_key(k) ==> final(self).routes()[k] == old(self).routes()[k],
    {
        proof {
            self.providers.lemma_listing();
        }
        if self.providers.remove(name).is_some() {
            let keys = self.model_map.keys();
            proof {
                self.model_map.lemma_keys_unique();
            }
            let ghost r0 = self.routes();
            let ghost kv = keys.deep_view();
            let mut i: usize = 0;
            while i < keys.len()
                invariant
                    self.wf(),
                    self.providers() == old(self).providers().remove(name@),
                    self.provider_names() == old(self).provider_names().remove(
                        old(self).provider_names().index_of(name@),
                    ),
                    i <= keys.len(),
                    kv == keys.deep_view(),
                    kv.no_duplicates(),
                    forall|k: Seq<char>| r0.contains_key(k) <==> kv.contains(k),
                    forall|k: Seq<char>| #[trigger] self.routes().contains_key(k) <==> r0.contains_key(k) && (
                    kv.take(i as int).contains(k) ==> r0[k] != name@),
                    forall|k: Seq<char>| #[trigger] self.routes().contains_key(k) ==> self.routes()[k] == r0[k],
                decreases keys.len() - i,
            {
                let ghost before = self.routes();
                let k = keys[i].as_str();
                let remove = match self.model_map.get(k) {
                    Some(v) => {
                        assert(before[k@] == v@);
                        crate::text::str_eq(v.as_str(), name)
                    },
                    None => false,
                };
                assert(remove == (before.contains_key(k@) && before[k@] == name@));
                if remove {
                    self.model_map.remove(k);
                    assert(self.routes() =~= before.remove(k@));
                } else {
                    assert(self.routes() =~= before);
                }
                proof {
                    assert(kv[i as int] == k@);
                    assert(kv.take(i + 1) =~= kv.take(i as int).push(k@));
                    assert forall|key: Seq<char>| #[trigger] self.routes().contains_key(key) <==> r0.contains_key(key) && (
                    kv.take(i + 1).contains(key) ==> r0[key] != name@) by {
                        if kv.take(i + 1).contains(key) && key != k@ {
                            let t1 = kv.take(i + 1);
                            let j = choose|j: int| 0 <= j < t1.len() && t1[j] == key;
                            assert(j < i);
                            assert(kv.take(i as int)[j] == key);
                        }
                        if kv.take(i as int).contains(key) {
                            let t0 = kv.take(i as int);
                            let j = choose|j: int| 0 <= j < t0.len() && t0[j] == key;
                            assert(kv.take(i + 1)[j] == key);
                        }
                        if key == k@ {
                            assert(kv.take(i + 1)[i as int] == key);
                        }
                    }
                }
                i = i + 1;
            }
            proof {
                assert(kv.take(keys.len() as int) =~= kv);
            }
        } else {
        }
    }
}

/// The models of a sequence of registered providers, provider after provider.
pub open spec fn all_models<P>(entries: Seq<ProviderEntry<P>>) -> Seq<ModelConfigView>
    decreases entries.len(),
{
    if entries.len() == 0 {
        seq![]
    } else {
        all_models(entries.drop_last()) + entries.last().models.deep_view()
    }
}

/// The ids of the models.
pub fn model_id_list(models: &Vec<ModelConfig>) -> (r: Vec<String>)
    ensures
        r.deep_view() == model_ids(models.deep_view()),
{
    let mut out: Vec<String> = Vec::new();
    let mut i: usize = 0;
    while i < models.len()
        invariant
            i <= models.len(),
            out.deep_view() == model_ids(models.deep_view()).take(i as int),
        decreases models.len() - i,
    {
        let ghost o0 = out.deep_view();
        let id = models[i].id.clone();
        out.push(id);
        assert(out.deep_view() =~= o0.push(id@));
        assert(model_ids(models.deep_view()).take(i + 1) =~= model_ids(models.deep_view()).take(i as int).push(id@));
        i = i + 1;
    }
    assert(model_ids(models.deep_view()).take(models.len() as int) =~= model_ids(models.deep_view()));
    out
}

/// A model bound to the provider that serves it.
pub struct ModelInstance<P> {
    pub name: String,
    pub model_type: String,
    pub provider: P,
    pub config: ModelConfig,
}

impl<P> ModelInstance<P> {
    /// A model instance.
    pub fn new(name: String, model_type: String, provider: P, config: ModelConfig) -> (r: Self)
        ensures
            r.name@ == name@,
            r.model_type@ == model_type@,
            r.provider == provider,
            r.config == config,
    {
        ModelInstance { name, model_type, provider, config }
    }

    /// The request as the provider receives it (the model replaced by the
    /// provider's model type), and whether it asks for a stream.
    pub fn prepare_request(&self, request: ChatCompletionRequest) -> (r: (ChatCompletionRequest, bool))
        ensures
            r.0@ == (ChatCompletionRequestView { model: self.model_type@, ..request@ }),
            r.1 == match request.stream {
                Some(b) => b,
                None => false,
            },
    {
        let mut request = request;
        request.model = self.model_type.clone();
        let streaming = match request.stream {
            Some(b) => b,
            None => false,
        };
        (request, streaming)
    }
}

/// Models by name, each bound to its provider, and the providers by name.
pub struct ModelRegistry<P> {
    providers: StringMap<(P, String)>,
    models: StringMap<(ModelInstance<P>, String)>,
}

impl<P: Clone> ModelRegistry<P> {
    /// Both maps are consistent.
    pub closed spec fn wf(&self) -> bool {
        self.providers.wf() && self.models.wf()
    }

    /// The registered providers by name, each with the name it reports.
    pub closed spec fn providers(&self) -> Map<Seq<char>, (P, String)> {
        self.providers.map()
    }

    /// The registered models by name, each with its provider's reported name.
    pub closed spec fn models(&self) -> Map<Seq<char>, (ModelInstance<P>, String)> {
        self.models.map()
    }

    /// The model names, in registration order.
    pub closed spec fn model_names(&self) -> Seq<Seq<char>> {
        self.models.keys_seq()
    }

    /// The registered models, in registration order.
    pub closed spec fn model_entries(&self) -> Seq<(ModelInstance<P>, String)> {
        self.models.values_seq()
    }

    /// The listed model names are the registered models, each once, and
    /// the listed entries are theirs, name by name.
    pub proof fn lemma_listing(&self)
        requires
            self.wf(),
        ensures
            self.model_names().no_duplicates(),
            self.model_names().len() == self.model_entries().len(),
            forall|k: Seq<char>| #[trigger] self.models().contains_key(k) <==> self.model_names().contains(k),
            forall|i: int| 0 <= i < self.model_names().len() ==> #[trigger] self.models()[self.model_names()[i]]
                == self.model_entries()[i],
    {
        self.models.lemma_listing();
    }

    /// An empty registry.
    pub fn new() -> (r: Self)
        ensures
            r.wf(),
            r.providers() == Map::<Seq<char>, (P, String)>::empty(),
            r.models() == Map::<Seq<char>, (ModelInstance<P>, String)>::empty(),
            r.model_names().len() == 0,
    {
        ModelRegistry { providers: StringMap::new(), models: StringMap::new() }
    }

    /// Binds a model to the provider registered under `provider_name`; a
    /// provider not registered is an error.
    pub fn register_model(&mut self, provider_name: &str, config: ModelConfig) -> (r: Result<(), MantiError>)
        requires
            old(self).wf(),
        ensures
            final(self).wf(),
            final(self).providers() == old(self).providers(),
            old(self).providers().contains_key(provider_name@) ==> {
                &&& r is Ok
                &&& forall|k: Seq<char>| #[trigger] final(self).models().contains_key(k) <==> (old(self).models().contains_key(k)
                    || k == config.id@)
                &&& {
                    let inst = final(self).models()[config.id@];
                    &&& inst.0.name@ == config.id@
                    &&& inst.0.model_type@ == config.id@
                    &&& cloned(old(self).providers()[provider_name@].0, inst.0.provider)
                    &&& inst.0.config == config
                    &&& inst.1@ == old(self).providers()[provider_name@].1@
                }
                &&& forall|k: Seq<char>| k != config.id@ && #[trigger] old(self).models().contains_key(k) ==> final(self).models()[k]
                    == old(self).models()[k]
            },
            !old(self).providers().contains_key(provider_name@) ==> {
                &&& r matches Err(MantiError::NotFound(m)) && m@ == provider_name@
                &&& final(self).models() == old(self).models()
            },
    {
        match self.providers.get(provider_name) {
            Some(entry) => {
                let provider = entry.0.clone();
                let owned_by = entry.1.clone();
                let id = config.id.clone();
                let inst = ModelInstance { name: config.id.clone(), model_type: config.id.clone(), provider, config };
                self.models.insert(id, (inst, owned_by));
                Ok(())
            },
            None => Err(MantiError::NotFound(String::from_str(provider_name))),
        }
    }

    /// Registers `provider` under `name` (reporting `owned_by` as its name)
    /// and binds each of its models to it, by the model's id; where two
    /// models share an id, the later one is bound. Models of other ids keep
    /// their bindings.
    pub fn register_provider(&mut self, name: String, provider: P, owned_by: String, models: Vec<ModelConfig>)
        requires
            old(self).wf(),
        ensures
            final(self).wf(),
            final(self).providers() == old(self).providers().insert(name@, (provider, owned_by)),
            forall|k: Seq<char>| #[trigger] final(self).models().contains_key(k) <==> (old(self).models().contains_key(k)
                || model_ids(models.deep_view()).contains(k)),
            forall|k: Seq<char>| #[trigger] last_with_id(models@, k) >= 0 ==> binds(
                final(self).models()[k],
                k,
                provider,
                models@[last_with_id(models@, k)],
                owned_by@,
            ),
            forall|k: Seq<char>| #[trigger] last_with_id(models@, k) < 0 && old(self).models().contains_key(k)
                ==> final(self).models()[k] == old(self).models()[k],
    {
        let ghost pv = provider;
        let ghost ov = owned_by;
        let ghost ms = models@;
        self.providers.insert(name.clone(), (provider, owned_by));
        let ghost m0 = self.models();
        let ghost ids = model_ids(models.deep_view());
        proof {
            assert forall|k: Seq<char>| #[trigger] last_with_id(ms.take(0), k) < 0 by {
                assert(ms.take(0).len() == 0);
            }
        }
        for m in it: models.into_iter()
            invariant
                self.wf(),
                self.providers() == old(self).providers().insert(name@, (pv, ov)),
                ids.len() == it.seq().len(),
                ms.len() == it.seq().len(),
                forall|j: int| 0 <= j < ms.len() ==> ms[j] == #[trigger] it.seq()[j],
                forall|j: int| 0 <= j < ids.len() ==> ids[j] == #[trigger] it.seq()[j].id@,
                forall|k: Seq<char>| #[trigger] self.models().contains_key(k) <==> (m0.contains_key(k) || ids.take(it.index() as int).contains(k)),
                forall|k: Seq<char>| #[trigger] last_with_id(ms.take(it.index() as int), k) >= 0 ==> binds(
                    self.models()[k],
                    k,
                    pv,
                    ms[last_with_id(ms.take(it.index() as int), k)],
                    ov@,
                ),
                forall|k: Seq<char>| #[trigger] last_with_id(ms.take(it.index() as int), k) < 0 && m0.contains_key(k)
                    ==> self.models()[k] == m0[k],
        {
            let ghost idx = it.index() as int;
            let ghost before = self.models();
            let ghost mv = m;
            proof {
                assert(ms[idx] == it.seq()[idx]);
                assert(mv == ms[idx]);
            }
            let _ = self.register_model(name.as_str(), m);
            proof {
                let t0 = ids.take(idx);
                let t1 = ids.take(idx + 1);
                assert(t1 =~= t0.push(ids[idx]));
                assert forall|k: Seq<char>| #[trigger] self.models().contains_key(k) <==> (m0.contains_key(k) || t1.contains(k)) by {
                    if t1.contains(k) && k != ids[idx] {
                        let j = choose|j: int| 0 <= j < t1.len() && t1[j] == k;
                        assert(t0[j] == k);
                    }
                    if t0.contains(k) {
                        let j = choose|j: int| 0 <= j < t0.len() && t0[j] == k;
                        assert(t1[j] == k);
                    }
                    if k == ids[idx] {
                        assert(t1[idx] == k);
                    }
                }
                let s0 = ms.take(idx);
                let s1 = ms.take(idx + 1);
                assert(s1 =~= s0.push(ms[idx]));
                assert forall|k: Seq<char>| #[trigger] last_with_id(s1, k) == if ms[idx].id@ == k {
                    idx
                } else {
                    last_with_id(s0, k)
                } by {
                    assert(s1.drop_last() =~= s0);
                }
                assert forall|k: Seq<char>| #[trigger] last_with_id(s1, k) >= 0 implies binds(
                    self.models()[k],
                    k,
                    pv,
                    ms[last_with_id(s1, k)],
                    ov@,
                ) by {
                    assert(last_with_id(s1, k) == if ms[idx].id@ == k { idx } else { last_with_id(s0, k) });
                    if ms[idx].id@ != k {
                        assert(last_with_id(s0, k) >= 0);
                        assert(before.contains_key(k)) by {
                            lemma_last_with_id_bounds(s0, k);
                            let j = last_with_id(s0, k);
                            assert(s0[j].id@ == k);
                            assert(ms[j] == it.seq()[j]);
                            assert(ids[j] == it.seq()[j].id@);
                            assert(ids.take(idx)[j] == k);
                            assert(ids.take(idx).contains(k));
                        }
                    }
                }
                assert forall|k: Seq<char>| #[trigger] last_with_id(s1, k) < 0 && m0.contains_key(k)
                    implies self.models()[k] == m0[k] by {
                    assert(last_with_id(s1, k) == if ms[idx].id@ == k { idx } else { last_with_id(s0, k) });
                    assert(before.contains_key(k));
                    assert(before[k] == m0[k]);
                }
            }
        }
        proof {
            assert(ids.take(ids.len() as int) =~= ids);
            assert(ms.take(ms.len() as int) =~= ms);
        }
    }

    /// The model registered under `name`.
    pub fn get_model(&self, name: &str) -> (r: Option<&ModelInstance<P>>)
        requires
            self.wf(),
        ensures
            match r {
                Some(m) => self.models().contains_key(name@) && *m == self.models()[name@].0,
                None => !self.models().contains_key(name@),
            },
    {
        match self.models.get(name) {
            Some(e) => Some(&e.0),
            None => None,
        }
    }

    /// Whether a model is registered under `name`.
    pub fn has_model(&self, name: &str) -> (r: bool)
        requires
            self.wf(),
        ensures
            r == self.models().contains_key(name@),
    {
        self.models.contains_key(name)
    }

    /// The names of the registered models.
    pub fn list_model_names(&self) -> (r: Vec<String>)
        ensures
            r.deep_view() == self.model_names(),
    {
        self.models.keys()
    }

    /// The listing entry of every registered model: its name, owned by its
    /// provider's reported name.
    pub fn get_all_models(&self) -> (r: Vec<ModelInfo>)
        ensures
            r@.len() == self.model_entries().len(),
            forall|i: int| 0 <= i < r@.len() ==> {
                &&& (#[trigger] r@[i]).id@ == self.model_entries()[i].0.name@
                &&& r@[i].object@ == "model"@
                &&& r@[i].owned_by@ == self.model_entries()[i].1@
                &&& r@[i].created == crate::models::response::LISTED_MODEL_CREATED
            },
    {
        let n = self.models.len();
        proof {
            self.models.lemma_lengths();
        }
        let mut out: Vec<ModelInfo> = Vec::new();
        let mut i: usize = 0;
        while i < n
            invariant
                n == self.model_entries().len(),
                i <= n,
                out@.len() == i,
                forall|j: int| 0 <= j < i ==> {
                    &&& (#[trigger] out@[j]).id@ == self.model_entries()[j].0.name@
                    &&& out@[j].object@ == "model"@
                    &&& out@[j].owned_by@ == self.model_entries()[j].1@
                    &&& out@[j].created == crate::models::response::LISTED_MODEL_CREATED
                },
            decreases n - i,
        {
            let e = self.models.value_at(i);
            out.push(ModelInfo::listed(e.0.name.clone(), e.1.clone()));
            i = i + 1;
        }
        out
    }
}

} // verus!
