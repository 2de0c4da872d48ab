//! The storage boundary: the one place a profile path is derived from a
//! [`RuntimeContext`] for use. Every path it hands out has first been
//! authorized through the context's probe.

use crate::paths::{valid_name, PartView, ProfilePath};
use crate::runtime_context::{
    ContextView, RuntimeAccess, RuntimeContext, RuntimePathKind, RuntimePathProbe, MODELS_DIR,
};
use vstd::prelude::*;
use vstd::string::*;

verus! {

broadcast use vstd::string::group_string_axioms;

/// The identifier of the default embedding model, and its folder name in the
/// managed store.
pub const DEFAULT_MODEL_ID: &'static str = "multilingual-e5-small";

/// `<data_dir>/models/<default model>`: the managed-model root of a profile.
pub open spec fn model_store_root_of(data_dir: Seq<PartView>) -> Seq<PartView> {
    data_dir.push(PartView::Normal(MODELS_DIR@)).push(PartView::Normal(DEFAULT_MODEL_ID@))
}

proof fn lemma_store_names()
    ensures
        valid_name(MODELS_DIR@),
        valid_name(DEFAULT_MODEL_ID@),
{
    reveal_strlit("models");
    reveal_strlit("multilingual-e5-small");
    assert(!MODELS_DIR@.contains('/'));
    assert(!DEFAULT_MODEL_ID@.contains('/'));
    assert(MODELS_DIR@.len() > 2);
    assert(DEFAULT_MODEL_ID@.len() > 2);
}

/// The managed-model root under a profile data directory.
pub fn default_model_store_root(data_dir: &ProfilePath) -> (r: ProfilePath)
    ensures
        r@ == model_store_root_of(data_dir@),
{
    proof {
        lemma_store_names();
    }
    data_dir.join_name(MODELS_DIR).join_name(DEFAULT_MODEL_ID)
}

/// The boundary for one context and one probe.
pub struct RuntimeStorage<'a, P> {
    context: &'a RuntimeContext,
    probe: &'a P,
}

impl<'a, P: RuntimePathProbe> RuntimeStorage<'a, P> {
    pub fn new(context: &'a RuntimeContext, probe: &'a P) -> (r: Self)
        ensures
            r.context() == context,
            r.probe() == probe,
    {
        RuntimeStorage { context, probe }
    }

    pub closed spec fn context(&self) -> &'a RuntimeContext {
        self.context
    }

    pub closed spec fn probe(&self) -> &'a P {
        self.probe
    }

    /// The active path of one kind, authorized by the probe.
    pub fn path(&self, kind: RuntimePathKind) -> (r: std::io::Result<&'a ProfilePath>)
        ensures
            r is Ok ==> r->Ok_0@ == self.context()@.path_of(kind),
            self.probe().permits(kind, self.context()@.path_of(kind)) ==> r is Ok,
            self.probe().denies(kind, self.context()@.path_of(kind)) ==> r is Err,
    {
        RuntimeAccess::new(self.context, self.probe).active_path(kind)
    }

    /// The managed-model root, once the models path has been authorized.
    pub fn model_store_root(&self) -> (r: std::io::Result<ProfilePath>)
        ensures
            r is Ok ==> r->Ok_0@ == model_store_root_of(self.context()@.data_dir),
            self.probe().permits(RuntimePathKind::Models, self.context()@.models_dir) ==> r is Ok,
            self.probe().denies(RuntimePathKind::Models, self.context()@.models_dir) ==> r is Err,
    {
        self.path(RuntimePathKind::Models)?;
        Ok(default_model_store_root(self.context.data_dir()))
    }

    /// The settings file, authorized.
    pub fn settings_path(&self) -> (r: std::io::Result<&'a ProfilePath>)
        ensures
            r is Ok ==> r->Ok_0@ == self.context()@.settings_file,
            self.probe().permits(RuntimePathKind::Settings, self.context()@.settings_file) ==> r is Ok,
            self.probe().denies(RuntimePathKind::Settings, self.context()@.settings_file) ==> r is Err,
    {
        self.path(RuntimePathKind::Settings)
    }

    /// A support directory (diagnostics or temporary files), authorized.
    pub fn support_dir(&self, kind: RuntimePathKind) -> (r: std::io::Result<&'a ProfilePath>)
        requires
            kind == RuntimePathKind::Diagnostics || kind == RuntimePathKind::Temporary,
        ensures
            r is Ok ==> r->Ok_0@ == self.context()@.path_of(kind),
            self.probe().permits(kind, self.context()@.path_of(kind)) ==> r is Ok,
            self.probe().denies(kind, self.context()@.path_of(kind)) ==> r is Err,
    {
        self.path(kind)
    }
}

} // verus!
