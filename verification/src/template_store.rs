use crate::error::Sv2BitcoinCoreError;
use crate::template_data::TemplateData;
use std::collections::HashMap;
use vstd::prelude::*;

verus! {

broadcast use vstd::std_specs::hash::group_hash_axioms;

/// The id that follows `id` in the template id sequence; it wraps around at the
/// end of the `u64` range, as an atomic `fetch_add` does.
pub open spec fn following_id(id: u64) -> u64 {
    if id == u64::MAX {
        0
    } else {
        (id + 1) as u64
    }
}

/// The template stored under `id`, if any.
pub open spec fn lookup(templates: Map<u64, TemplateData>, id: u64) -> Option<TemplateData> {
    if templates.contains_key(id) {
        Some(templates[id])
    } else {
        None
    }
}

/// A template that was stored is found under its id, and storing it leaves what
/// is found under every other id as it was.
pub proof fn lemma_read_after_insert(templates: Map<u64, TemplateData>, data: TemplateData, other: u64)
    requires
        other != data@.template_id,
    ensures
        lookup(templates.insert(data@.template_id, data), data@.template_id) == Some(data),
        lookup(templates.insert(data@.template_id, data), other) == lookup(templates, other),
{
}

/// After the store is cleared no template is found, whatever its id.
pub proof fn lemma_nothing_after_clear(id: u64)
    ensures
        lookup(Map::<u64, TemplateData>::empty(), id) is None,
{
}

/// The templates received for the current chain tip, keyed by their ids, and the
/// id that the next template will be given.
pub struct TemplateStore {
    next_template_id: u64,
    templates: HashMap<u64, TemplateData>,
    ids_wrapped: Ghost<bool>,
}

pub struct TemplateStoreView {
    pub next_template_id: u64,
    pub templates: Map<u64, TemplateData>,
    /// Whether the id sequence has run past the end of the `u64` range.
    pub ids_wrapped: bool,
}

impl View for TemplateStore {
    type V = TemplateStoreView;

    closed spec fn view(&self) -> TemplateStoreView {
        TemplateStoreView {
            next_template_id: self.next_template_id,
            templates: self.templates@,
            ids_wrapped: self.ids_wrapped@,
        }
    }
}

/// Until the id sequence wraps around, every stored template has an id that was
/// handed out already: one below the next id.
pub open spec fn ids_below_next(s: TemplateStoreView) -> bool {
    !s.ids_wrapped ==> forall|id: u64| #[trigger]
        s.templates.contains_key(id) ==> id < s.next_template_id
}

/// An operation of the store that changes it.
pub enum StoreStep {
    /// Hand out the next template id.
    Allocate,
    /// Store a template under its id.
    Insert(TemplateData),
    /// Drop every stored template.
    Clear,
}

/// Whether `step` may be taken from `s`: a template is stored only under an id
/// that was handed out.
pub open spec fn step_allowed(s: TemplateStoreView, step: StoreStep) -> bool {
    match step {
        StoreStep::Insert(data) => !s.ids_wrapped ==> data@.template_id < s.next_template_id,
        _ => true,
    }
}

/// The store after `step`.
pub open spec fn apply_step(s: TemplateStoreView, step: StoreStep) -> TemplateStoreView {
    match step {
        StoreStep::Allocate => TemplateStoreView {
            next_template_id: following_id(s.next_template_id),
            templates: s.templates,
            ids_wrapped: s.ids_wrapped || s.next_template_id == u64::MAX,
        },
        StoreStep::Insert(data) => TemplateStoreView {
            next_template_id: s.next_template_id,
            templates: s.templates.insert(data@.template_id, data),
            ids_wrapped: s.ids_wrapped,
        },
        StoreStep::Clear => TemplateStoreView {
            next_template_id: s.next_template_id,
            templates: Map::empty(),
            ids_wrapped: s.ids_wrapped,
        },
    }
}

/// The store after `steps`, taken in order.
pub open spec fn apply_steps(s: TemplateStoreView, steps: Seq<StoreStep>) -> TemplateStoreView
    decreases steps.len(),
{
    if steps.len() == 0 {
        s
    } else {
        apply_steps(apply_step(s, steps[0]), steps.drop_first())
    }
}

/// Whether each of `steps` may be taken from the store that the ones before it
/// leave.
pub open spec fn steps_allowed(s: TemplateStoreView, steps: Seq<StoreStep>) -> bool
    decreases steps.len(),
{
    steps.len() == 0 || (step_allowed(s, steps[0]) && steps_allowed(
        apply_step(s, steps[0]),
        steps.drop_first(),
    ))
}

/// Over any history of allowed steps, every stored id stays below the next id
/// as long as the id sequence has not wrapped around.
pub proof fn lemma_ids_stay_below_next(s: TemplateStoreView, steps: Seq<StoreStep>)
    requires
        ids_below_next(s),
        steps_allowed(s, steps),
    ensures
        ids_below_next(apply_steps(s, steps)),
    decreases steps.len(),
{
    if steps.len() > 0 {
        let t = apply_step(s, steps[0]);
        assert(ids_below_next(t));
        lemma_ids_stay_below_next(t, steps.drop_first());
    }
}

/// A stored template stays found under its id over any later history that does
/// not clear the store (a template stored again under that id replaces it).
pub proof fn lemma_stays_found_until_clear(s: TemplateStoreView, steps: Seq<StoreStep>, id: u64)
    requires
        s.templates.contains_key(id),
        forall|i: int| 0 <= i < steps.len() ==> !(#[trigger] steps[i] is Clear),
    ensures
        lookup(apply_steps(s, steps).templates, id) is Some,
    decreases steps.len(),
{
    if steps.len() > 0 {
        let rest = steps.drop_first();
        assert(!(steps[0] is Clear));
        assert forall|i: int| 0 <= i < rest.len() implies !(#[trigger] rest[i] is Clear) by {
            assert(rest[i] == steps[i + 1]);
        }
        lemma_stays_found_until_clear(apply_step(s, steps[0]), rest, id);
    }
}

impl TemplateStore {
    /// Each template is stored under its own id, and, until the id sequence
    /// wraps around, under an id that was handed out already.
    #[verifier::type_invariant]
    closed spec fn well_formed(self) -> bool {
        &&& forall|id: u64| #[trigger]
            self.templates@.contains_key(id) ==> self.templates@[id]@.template_id == id
        &&& ids_below_next(self@)
    }

    /// An empty store whose first template id is 0.
    pub fn new() -> (res: Self)
        ensures
            res@.next_template_id == 0,
            res@.templates == Map::<u64, TemplateData>::empty(),
            !res@.ids_wrapped,
    {
        TemplateStore { next_template_id: 0, templates: HashMap::new(), ids_wrapped: Ghost(false) }
    }

    /// Hands out the next template id and advances the id sequence by one.
    pub fn allocate_template_id(&mut self) -> (id: u64)
        ensures
            id == old(self)@.next_template_id,
            final(self)@ == apply_step(old(self)@, StoreStep::Allocate),
            final(self)@.next_template_id != id,
    {
        proof {
            use_type_invariant(&*self);
        }
        let id = self.next_template_id;
        let ghost wrapped = self.ids_wrapped@ || id == u64::MAX;
        if id == u64::MAX {
            self.ids_wrapped = Ghost(wrapped);
            self.next_template_id = 0;
        } else {
            assert(ids_below_next(self@));
            assert forall|k: u64| #[trigger] self.templates@.contains_key(k) && !wrapped implies k < id + 1 by {
                assert(self@.templates.contains_key(k));
            }
            self.ids_wrapped = Ghost(wrapped);
            self.next_template_id = id + 1;
        }
        id
    }

    /// Stores `data` under its template id, replacing what was stored there, and
    /// returns that id. The id is one that this store handed out.
    pub fn insert_template(&mut self, data: TemplateData) -> (id: u64)
        requires
            step_allowed(old(self)@, StoreStep::Insert(data)),
        ensures
            id == data@.template_id,
            final(self)@ == apply_step(old(self)@, StoreStep::Insert(data)),
    {
        proof {
            use_type_invariant(&*self);
        }
        let id = data.template_id();
        let ghost before = self.templates@;
        assert forall|k: u64| #[trigger] before.contains_key(k) implies (self.ids_wrapped@ || k
            < self.next_template_id) by {
            assert(self@.templates.contains_key(k));
        }
        let mut templates = HashMap::new();
        std::mem::swap(&mut templates, &mut self.templates);
        templates.insert(id, data);
        assert forall|k: u64| #[trigger] templates@.contains_key(k) implies templates@[k]@.template_id == k
            && (self.ids_wrapped@ || k < self.next_template_id) by {
            if k != id {
                assert(before.contains_key(k));
            }
        }
        self.templates = templates;
        id
    }

    /// The template stored under `template_id`; `TemplateNotFound` where there is
    /// none.
    pub fn get_template(&self, template_id: u64) -> (res: Result<&TemplateData, Sv2BitcoinCoreError>)
        ensures
            match lookup(self@.templates, template_id) {
                Some(data) => res matches Ok(found) && *found == data,
                None => res matches Err(Sv2BitcoinCoreError::TemplateNotFound),
            },
            res matches Ok(found) ==> found@.template_id == template_id,
            res is Ok ==> (self@.ids_wrapped || template_id < self@.next_template_id),
    {
        proof {
            use_type_invariant(self);
        }
        match self.templates.get(&template_id) {
            Some(data) => Ok(data),
            None => Err(Sv2BitcoinCoreError::TemplateNotFound),
        }
    }

    /// Drops every stored template; the id sequence goes on where it was.
    pub fn clear(&mut self)
        ensures
            final(self)@ == apply_step(old(self)@, StoreStep::Clear),
    {
        let mut templates = HashMap::new();
        std::mem::swap(&mut templates, &mut self.templates);
        templates.clear();
        self.templates = templates;
    }
}

} // verus!
