//! The provider settings chosen for each inference category during play:
//! provider name, model, API key and base URL of the dialogue, simulation
//! and intent models.

use vstd::prelude::*;

use crate::config::InferenceCategory;

verus! {

/// The view of an optional string.
pub open spec fn opt_seq(o: Option<String>) -> Option<Seq<char>> {
    match o {
        Some(s) => Some(s@),
        None => None,
    }
}

/// The view of an optional string slice.
pub open spec fn opt_str(o: Option<&str>) -> Option<Seq<char>> {
    match o {
        Some(s) => Some(s@),
        None => None,
    }
}

/// Per-category provider settings. Dialogue goes to the cloud provider
/// fields; a category whose provider name is `None` inherits the base
/// provider.
#[derive(Debug, Clone)]
pub struct CategorySettings {
    /// Provider name for dialogue (None = local only).
    pub cloud_provider_name: Option<String>,
    /// Model name for dialogue.
    pub cloud_model_name: Option<String>,
    /// API key for dialogue.
    pub cloud_api_key: Option<String>,
    /// Base URL for dialogue.
    pub cloud_base_url: Option<String>,
    /// The model name used by the dialogue inference queue.
    pub dialogue_model: String,
    /// Provider name for simulation (None = inherits base).
    pub simulation_provider_name: Option<String>,
    /// Model name for simulation.
    pub simulation_model: String,
    /// API key for simulation.
    pub simulation_api_key: Option<String>,
    /// Base URL for simulation.
    pub simulation_base_url: Option<String>,
    /// Provider name for intent parsing (None = inherits base).
    pub intent_provider_name: Option<String>,
    /// Model name for intent parsing.
    pub intent_model: String,
    /// API key for intent parsing.
    pub intent_api_key: Option<String>,
    /// Base URL for intent parsing.
    pub intent_base_url: Option<String>,
}

/// The settings of every category, as plain values.
pub struct CategoryView {
    pub cloud_provider_name: Option<Seq<char>>,
    pub cloud_model_name: Option<Seq<char>>,
    pub cloud_api_key: Option<Seq<char>>,
    pub cloud_base_url: Option<Seq<char>>,
    pub dialogue_model: Seq<char>,
    pub simulation_provider_name: Option<Seq<char>>,
    pub simulation_model: Seq<char>,
    pub simulation_api_key: Option<Seq<char>>,
    pub simulation_base_url: Option<Seq<char>>,
    pub intent_provider_name: Option<Seq<char>>,
    pub intent_model: Seq<char>,
    pub intent_api_key: Option<Seq<char>>,
    pub intent_base_url: Option<Seq<char>>,
}

impl View for CategorySettings {
    type V = CategoryView;

    open spec fn view(&self) -> CategoryView {
        CategoryView {
            cloud_provider_name: opt_seq(self.cloud_provider_name),
            cloud_model_name: opt_seq(self.cloud_model_name),
            cloud_api_key: opt_seq(self.cloud_api_key),
            cloud_base_url: opt_seq(self.cloud_base_url),
            dialogue_model: self.dialogue_model@,
            simulation_provider_name: opt_seq(self.simulation_provider_name),
            simulation_model: self.simulation_model@,
            simulation_api_key: opt_seq(self.simulation_api_key),
            simulation_base_url: opt_seq(self.simulation_base_url),
            intent_provider_name: opt_seq(self.intent_provider_name),
            intent_model: self.intent_model@,
            intent_api_key: opt_seq(self.intent_api_key),
            intent_base_url: opt_seq(self.intent_base_url),
        }
    }
}

impl CategoryView {
    /// The provider name of a category, if it has its own.
    pub open spec fn provider_name(self, cat: InferenceCategory) -> Option<Seq<char>> {
        match cat {
            InferenceCategory::Dialogue => self.cloud_provider_name,
            InferenceCategory::Simulation => self.simulation_provider_name,
            InferenceCategory::Intent => self.intent_provider_name,
        }
    }

    /// The model of a category (empty when dialogue has none).
    pub open spec fn model(self, cat: InferenceCategory) -> Seq<char> {
        match cat {
            InferenceCategory::Dialogue => match self.cloud_model_name {
                Some(m) => m,
                None => Seq::empty(),
            },
            InferenceCategory::Simulation => self.simulation_model,
            InferenceCategory::Intent => self.intent_model,
        }
    }

    /// The API key of a category.
    pub open spec fn api_key(self, cat: InferenceCategory) -> Option<Seq<char>> {
        match cat {
            InferenceCategory::Dialogue => self.cloud_api_key,
            InferenceCategory::Simulation => self.simulation_api_key,
            InferenceCategory::Intent => self.intent_api_key,
        }
    }

    /// The base URL of a category.
    pub open spec fn base_url(self, cat: InferenceCategory) -> Option<Seq<char>> {
        match cat {
            InferenceCategory::Dialogue => self.cloud_base_url,
            InferenceCategory::Simulation => self.simulation_base_url,
            InferenceCategory::Intent => self.intent_base_url,
        }
    }

    /// The settings with a category's provider name replaced.
    pub open spec fn with_provider_name(self, cat: InferenceCategory, name: Seq<char>) -> Self {
        match cat {
            InferenceCategory::Dialogue => CategoryView { cloud_provider_name: Some(name), ..self },
            InferenceCategory::Simulation => CategoryView {
                simulation_provider_name: Some(name),
                ..self
            },
            InferenceCategory::Intent => CategoryView { intent_provider_name: Some(name), ..self },
        }
    }

    /// The settings with a category's model replaced; for dialogue, the
    /// dialogue queue's model too.
    pub open spec fn with_model(self, cat: InferenceCategory, model: Seq<char>) -> Self {
        match cat {
            InferenceCategory::Dialogue => CategoryView {
                cloud_model_name: Some(model),
                dialogue_model: model,
                ..self
            },
            InferenceCategory::Simulation => CategoryView { simulation_model: model, ..self },
            InferenceCategory::Intent => CategoryView { intent_model: model, ..self },
        }
    }

    /// The settings with a category's API key replaced.
    pub open spec fn with_api_key(self, cat: InferenceCategory, key: Seq<char>) -> Self {
        match cat {
            InferenceCategory::Dialogue => CategoryView { cloud_api_key: Some(key), ..self },
            InferenceCategory::Simulation => CategoryView { simulation_api_key: Some(key), ..self },
            InferenceCategory::Intent => CategoryView { intent_api_key: Some(key), ..self },
        }
    }

    /// The settings with a category's base URL replaced.
    pub open spec fn with_base_url(self, cat: InferenceCategory, url: Seq<char>) -> Self {
        match cat {
            InferenceCategory::Dialogue => CategoryView { cloud_base_url: Some(url), ..self },
            InferenceCategory::Simulation => CategoryView {
                simulation_base_url: Some(url),
                ..self
            },
            InferenceCategory::Intent => CategoryView { intent_base_url: Some(url), ..self },
        }
    }
}

impl CategorySettings {
    /// The provider name of a category, if it has its own.
    pub open spec fn spec_provider_name(self, cat: InferenceCategory) -> Option<Seq<char>> {
        self@.provider_name(cat)
    }

    /// The model of a category (empty when dialogue has none).
    pub open spec fn spec_model(self, cat: InferenceCategory) -> Seq<char> {
        self@.model(cat)
    }

    /// The API key of a category.
    pub open spec fn spec_api_key(self, cat: InferenceCategory) -> Option<Seq<char>> {
        self@.api_key(cat)
    }

    /// The base URL of a category.
    pub open spec fn spec_base_url(self, cat: InferenceCategory) -> Option<Seq<char>> {
        self@.base_url(cat)
    }

    /// No category settings: every category inherits the base provider.
    pub fn new() -> (r: Self)
        ensures
            forall|c: InferenceCategory| r.spec_provider_name(c) is None,
            forall|c: InferenceCategory| r.spec_api_key(c) is None,
            forall|c: InferenceCategory| r.spec_base_url(c) is None,
            forall|c: InferenceCategory| r.spec_model(c) == Seq::<char>::empty(),
            r.dialogue_model@ == Seq::<char>::empty(),
    {
        CategorySettings {
            cloud_provider_name: None,
            cloud_model_name: None,
            cloud_api_key: None,
            cloud_base_url: None,
            dialogue_model: String::new(),
            simulation_provider_name: None,
            simulation_model: String::new(),
            simulation_api_key: None,
            simulation_base_url: None,
            intent_provider_name: None,
            intent_model: String::new(),
            intent_api_key: None,
            intent_base_url: None,
        }
    }

    /// The provider name of a category (None if it inherits the base).
    pub fn category_provider_name(&self, cat: InferenceCategory) -> (r: Option<&str>)
        ensures
            opt_str(r) == self.spec_provider_name(cat),
    {
        let o = match cat {
            InferenceCategory::Dialogue => &self.cloud_provider_name,
            InferenceCategory::Simulation => &self.simulation_provider_name,
            InferenceCategory::Intent => &self.intent_provider_name,
        };
        match o {
            Some(s) => Some(s.as_str()),
            None => None,
        }
    }

    /// The model of a category (empty if dialogue inherits the base).
    pub fn category_model(&self, cat: InferenceCategory) -> (r: &str)
        ensures
            r@ == self.spec_model(cat),
    {
        proof {
            reveal_strlit("");
        }
        match cat {
            InferenceCategory::Dialogue => match &self.cloud_model_name {
                Some(m) => m.as_str(),
                None => "",
            },
            InferenceCategory::Simulation => self.simulation_model.as_str(),
            InferenceCategory::Intent => self.intent_model.as_str(),
        }
    }

    /// The API key of a category.
    pub fn category_api_key(&self, cat: InferenceCategory) -> (r: Option<&str>)
        ensures
            opt_str(r) == self.spec_api_key(cat),
    {
        let o = match cat {
            InferenceCategory::Dialogue => &self.cloud_api_key,
            InferenceCategory::Simulation => &self.simulation_api_key,
            InferenceCategory::Intent => &self.intent_api_key,
        };
        match o {
            Some(s) => Some(s.as_str()),
            None => None,
        }
    }

    /// The base URL of a category.
    pub fn category_base_url(&self, cat: InferenceCategory) -> (r: Option<&str>)
        ensures
            opt_str(r) == self.spec_base_url(cat),
    {
        let o = match cat {
            InferenceCategory::Dialogue => &self.cloud_base_url,
            InferenceCategory::Simulation => &self.simulation_base_url,
            InferenceCategory::Intent => &self.intent_base_url,
        };
        match o {
            Some(s) => Some(s.as_str()),
            None => None,
        }
    }

    /// Sets the provider name of a category.
    pub fn set_category_provider_name(&mut self, cat: InferenceCategory, name: String)
        ensures
            final(self)@ == old(self)@.with_provider_name(cat, name@),
            final(self).spec_provider_name(cat) == Some(name@),
            forall|c: InferenceCategory| c != cat ==> final(self).spec_provider_name(c) == old(
                self,
            ).spec_provider_name(c),
            forall|c: InferenceCategory| final(self).spec_model(c) == old(self).spec_model(c),
            forall|c: InferenceCategory| final(self).spec_api_key(c) == old(self).spec_api_key(c),
            forall|c: InferenceCategory| final(self).spec_base_url(c) == old(self).spec_base_url(c),
            final(self).dialogue_model == old(self).dialogue_model,
    {
        match cat {
            InferenceCategory::Dialogue => self.cloud_provider_name = Some(name),
            InferenceCategory::Simulation => self.simulation_provider_name = Some(name),
            InferenceCategory::Intent => self.intent_provider_name = Some(name),
        }
    }

    /// Sets the model of a category; for dialogue, the dialogue queue's
    /// model too.
    pub fn set_category_model(&mut self, cat: InferenceCategory, model: String)
        ensures
            final(self)@ == old(self)@.with_model(cat, model@),
            final(self).spec_model(cat) == model@,
            forall|c: InferenceCategory| c != cat ==> final(self).spec_model(c) == old(
                self,
            ).spec_model(c),
            cat == InferenceCategory::Dialogue ==> final(self).dialogue_model@ == model@,
            cat != InferenceCategory::Dialogue ==> final(self).dialogue_model == old(
                self,
            ).dialogue_model,
            forall|c: InferenceCategory| final(self).spec_provider_name(c) == old(
                self,
            ).spec_provider_name(c),
            forall|c: InferenceCategory| final(self).spec_api_key(c) == old(self).spec_api_key(c),
            forall|c: InferenceCategory| final(self).spec_base_url(c) == old(self).spec_base_url(c),
    {
        match cat {
            InferenceCategory::Dialogue => {
                self.cloud_model_name = Some(model.clone());
                self.dialogue_model = model;
            },
            InferenceCategory::Simulation => self.simulation_model = model,
            InferenceCategory::Intent => self.intent_model = model,
        }
    }

    /// Sets the API key of a category.
    pub fn set_category_api_key(&mut self, cat: InferenceCategory, key: String)
        ensures
            final(self)@ == old(self)@.with_api_key(cat, key@),
            final(self).spec_api_key(cat) == Some(key@),
            forall|c: InferenceCategory| c != cat ==> final(self).spec_api_key(c) == old(
                self,
            ).spec_api_key(c),
            forall|c: InferenceCategory| final(self).spec_provider_name(c) == old(
                self,
            ).spec_provider_name(c),
            forall|c: InferenceCategory| final(self).spec_model(c) == old(self).spec_model(c),
            forall|c: InferenceCategory| final(self).spec_base_url(c) == old(self).spec_base_url(c),
            final(self).dialogue_model == old(self).dialogue_model,
    {
        match cat {
            InferenceCategory::Dialogue => self.cloud_api_key = Some(key),
            InferenceCategory::Simulation => self.simulation_api_key = Some(key),
            InferenceCategory::Intent => self.intent_api_key = Some(key),
        }
    }

    /// Sets the base URL of a category.
    pub fn set_category_base_url(&mut self, cat: InferenceCategory, url: String)
        ensures
            final(self)@ == old(self)@.with_base_url(cat, url@),
            final(self).spec_base_url(cat) == Some(url@),
            forall|c: InferenceCategory| c != cat ==> final(self).spec_base_url(c) == old(
                self,
            ).spec_base_url(c),
            forall|c: InferenceCategory| final(self).spec_provider_name(c) == old(
                self,
            ).spec_provider_name(c),
            forall|c: InferenceCategory| final(self).spec_model(c) == old(self).spec_model(c),
            forall|c: InferenceCategory| final(self).spec_api_key(c) == old(self).spec_api_key(c),
            final(self).dialogue_model == old(self).dialogue_model,
    {
        match cat {
            InferenceCategory::Dialogue => self.cloud_base_url = Some(url),
            InferenceCategory::Simulation => self.simulation_base_url = Some(url),
            InferenceCategory::Intent => self.intent_base_url = Some(url),
        }
    }
}

} // verus!
