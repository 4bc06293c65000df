//! The catalog of models that can be talked to: the list as it was loaded,
//! the highlighted entry, and the model that was confirmed for the session.

use crate::list_motion::list_select_next;
use crate::list_motion::list_select_previous;
use vstd::prelude::*;
use vstd::string::*;

verus! {

/// One model: its identifier, and what the loader said of it. The catalog
/// carries the rest along and reads none of it.
#[derive(Debug)]
pub struct Model {
    pub name: String,
    pub size: u64,
    pub digest: String,
    pub family: String,
    pub quantization: String,
}

pub struct ModelView {
    pub name: Seq<char>,
    pub size: u64,
    pub digest: Seq<char>,
    pub family: Seq<char>,
    pub quantization: Seq<char>,
}

impl View for Model {
    type V = ModelView;

    open spec fn view(&self) -> ModelView {
        ModelView {
            name: self.name@,
            size: self.size,
            digest: self.digest@,
            family: self.family@,
            quantization: self.quantization@,
        }
    }
}

impl Clone for Model {
    fn clone(&self) -> (copy: Model)
        ensures
            copy@ == self@,
    {
        Model {
            name: self.name.clone(),
            size: self.size,
            digest: self.digest.clone(),
            family: self.family.clone(),
            quantization: self.quantization.clone(),
        }
    }
}

/// The models of a list, each by its view.
pub open spec fn models_view(models: Seq<Model>) -> Seq<ModelView> {
    models.map_values(|m: Model| m@)
}

/// What a catalog is, mathematically.
pub struct CatalogView {
    pub models: Seq<ModelView>,
    pub selected: Option<nat>,
    pub active: Option<ModelView>,
}

impl CatalogView {
    /// A highlight, where there is one, points at an entry of the list.
    pub open spec fn wf(self) -> bool {
        self.selected matches Some(i) ==> i < self.models.len()
    }

    pub open spec fn empty() -> CatalogView {
        CatalogView { models: Seq::empty(), selected: None, active: None }
    }

    /// The list is replaced as a whole and the highlight is gone; the model
    /// confirmed earlier stays the session's model.
    pub open spec fn replace_all(self, models: Seq<ModelView>) -> CatalogView {
        CatalogView { models, selected: None, active: self.active }
    }

    /// The highlight moves one entry down and stops at the last entry; with
    /// no highlight yet it goes to the first entry. On an empty list nothing
    /// changes.
    pub open spec fn select_next(self) -> CatalogView {
        if self.models.len() == 0 {
            self
        } else {
            let moved: nat = match self.selected {
                None => 0,
                Some(i) => i + 1,
            };
            let last = (self.models.len() - 1) as nat;
            CatalogView { selected: Some(if moved < last { moved } else { last }), ..self }
        }
    }

    /// The highlight moves one entry up and stops at the first entry; with no
    /// highlight yet it goes to the last entry. On an empty list nothing
    /// changes.
    pub open spec fn select_previous(self) -> CatalogView {
        if self.models.len() == 0 {
            self
        } else {
            let moved: nat = match self.selected {
                None => (self.models.len() - 1) as nat,
                Some(i) => if i > 0 { (i - 1) as nat } else { 0 },
            };
            CatalogView { selected: Some(moved), ..self }
        }
    }

    /// The highlighted model, if one is highlighted.
    pub open spec fn current(self) -> Option<ModelView> {
        match self.selected {
            Some(i) if i < self.models.len() => Some(self.models[i as int]),
            _ => None,
        }
    }

    /// The highlighted model becomes the session's model; without a highlight
    /// nothing changes.
    pub open spec fn confirm(self) -> CatalogView {
        match self.current() {
            Some(m) => CatalogView { active: Some(m), ..self },
            None => self,
        }
    }

    /// `select_next`, `n` times over.
    pub open spec fn select_next_times(self, n: nat) -> CatalogView
        decreases n,
    {
        if n == 0 {
            self
        } else {
            self.select_next_times((n - 1) as nat).select_next()
        }
    }
}

pub open spec fn option_model_view(m: Option<&Model>) -> Option<ModelView> {
    match m {
        Some(m) => Some(m@),
        None => None,
    }
}

proof fn lemma_select_next_times_position(c: CatalogView, n: nat)
    requires
        c.wf(),
        c.models.len() > 0,
        n > 0,
    ensures
        c.select_next_times(n).models == c.models,
        c.select_next_times(n).active == c.active,
        c.select_next_times(n).selected == Some(
            {
                let start: int = match c.selected {
                    None => -1,
                    Some(i) => i as int,
                };
                (if start + n < c.models.len() - 1 {
                    start + n
                } else {
                    c.models.len() - 1
                }) as nat
            },
        ),
    decreases n,
{
    if n > 1 {
        lemma_select_next_times_position(c, (n - 1) as nat);
    } else {
        assert(c.select_next_times(0) == c);
    }
}

/// In a catalog of `n` models, `n` steps to the next entry end on the last
/// entry, wherever the highlight stood and also where there was none: the
/// highlight stops at the end of the list and does not start over. The list
/// and the session's model are as before. An empty catalog has no entry to
/// highlight and stays as it is.
pub proof fn lemma_select_next_stops_at_last(c: CatalogView)
    requires
        c.wf(),
    ensures
        c.models.len() > 0 ==> c.select_next_times(c.models.len()).selected == Some(
            (c.models.len() - 1) as nat,
        ),
        c.models.len() == 0 ==> c.select_next_times(c.models.len()) == c,
        c.select_next_times(c.models.len()).models == c.models,
        c.select_next_times(c.models.len()).active == c.active,
{
    if c.models.len() > 0 {
        lemma_select_next_times_position(c, c.models.len());
    }
}

/// The catalog: the models in the order in which they were loaded, the index
/// of the highlighted one, and the model confirmed for the session.
pub struct ModelCatalog {
    models: Vec<Model>,
    selected: Option<usize>,
    active: Option<Model>,
}

impl View for ModelCatalog {
    type V = CatalogView;

    closed spec fn view(&self) -> CatalogView {
        CatalogView {
            models: models_view(self.models@),
            selected: match self.selected {
                Some(i) => Some(i as nat),
                None => None,
            },
            active: match self.active {
                Some(m) => Some(m@),
                None => None,
            },
        }
    }
}

impl ModelCatalog {
    pub open spec fn wf(&self) -> bool {
        self@.wf()
    }

    pub fn new() -> (catalog: ModelCatalog)
        ensures
            catalog@ == CatalogView::empty(),
            catalog.wf(),
    {
        let catalog = ModelCatalog { models: Vec::new(), selected: None, active: None };
        assert(catalog@.models =~= Seq::empty());
        catalog
    }

    pub fn replace_all(&mut self, models: Vec<Model>)
        ensures
            final(self)@ == old(self)@.replace_all(models_view(models@)),
            final(self).wf(),
    {
        self.models = models;
        self.selected = None;
    }

    pub fn select_next(&mut self)
        requires
            old(self).wf(),
        ensures
            final(self)@ == old(self)@.select_next(),
            final(self).wf(),
    {
        let len = self.models.len();
        if len > 0 {
            let moved = list_select_next(self.selected);
            self.selected = clamp_to_list(moved, len);
        }
    }

    pub fn select_previous(&mut self)
        requires
            old(self).wf(),
        ensures
            final(self)@ == old(self)@.select_previous(),
            final(self).wf(),
    {
        let len = self.models.len();
        if len > 0 {
            let moved = list_select_previous(self.selected);
            self.selected = clamp_to_list(moved, len);
        }
    }

    pub fn current_selection(&self) -> (model: Option<&Model>)
        requires
            self.wf(),
        ensures
            option_model_view(model) == self@.current(),
    {
        match self.selected {
            Some(i) => Some(&self.models[i]),
            None => None,
        }
    }

    pub fn confirm_selection(&mut self)
        requires
            old(self).wf(),
        ensures
            final(self)@ == old(self)@.confirm(),
            final(self).wf(),
    {
        match self.selected {
            Some(i) => {
                let model = self.models[i].clone();
                self.active = Some(model);
            },
            None => {},
        }
    }

    pub fn active_model(&self) -> (model: Option<&Model>)
        ensures
            option_model_view(model) == self@.active,
    {
        self.active.as_ref()
    }

    pub fn models(&self) -> (models: &Vec<Model>)
        ensures
            models_view(models@) == self@.models,
    {
        &self.models
    }

    pub fn selected_index(&self) -> (index: Option<usize>)
        ensures
            index matches Some(i) ==> self@.selected == Some(i as nat),
            index is None ==> self@.selected is None,
    {
        self.selected
    }
}

/// A highlight that ran past the end of a list of `len` entries comes back to
/// the last one, as the list widget does when it draws.
fn clamp_to_list(selected: Option<usize>, len: usize) -> (clamped: Option<usize>)
    requires
        len > 0,
    ensures
        clamped == match selected {
            Some(i) => Some(if i < len { i } else { (len - 1) as usize }),
            None => None,
        },
{
    match selected {
        Some(i) => if i >= len {
            Some(len - 1)
        } else {
            Some(i)
        },
        None => None,
    }
}

} // verus!
