//! One-time loading of the metadata that all code generators read.
//!
//! The first successful load is kept and handed out from then on; a failed
//! load keeps nothing, so the next request loads again.
use vstd::prelude::*;

verus! {

pub struct MetadataLoader<M> {
    value: Option<M>,
}

impl<M> MetadataLoader<M> {
    pub closed spec fn loaded(&self) -> Option<M> {
        self.value
    }

    /// A loader that has loaded nothing yet.
    pub fn new() -> (r: MetadataLoader<M>)
        ensures
            r.loaded() is None,
    {
        MetadataLoader { value: None }
    }

    /// The metadata: the kept value if there is one, else what `load_fn`
    /// loads, which is kept if it was loaded.
    pub fn load<F, E>(&mut self, load_fn: F) -> (r: Result<&M, E>) where F: FnOnce() -> Result<M, E>
        requires
            old(self).loaded() is None ==> load_fn.requires(()),
        ensures
            old(self).loaded() is Some ==> {
                &&& final(self).loaded() == old(self).loaded()
                &&& r == Ok::<&M, E>(&old(self).loaded()->0)
            },
            old(self).loaded() is None ==> exists|res: Result<M, E>| {
                &&& load_fn.ensures((), res)
                &&& match res {
                    Ok(m) => final(self).loaded() == Some(m) && r == Ok::<&M, E>(&m),
                    Err(e) => final(self).loaded() is None && r == Err::<&M, E>(e),
                }
            },
    {
        if self.value.is_none() {
            match load_fn() {
                Ok(m) => {
                    self.value = Some(m);
                },
                Err(e) => {
                    return Err(e);
                },
            }
        }
        Ok(self.value.as_ref().unwrap())
    }
}

} // verus!
