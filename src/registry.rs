use vstd::prelude::*;
use crate::error::FaceError;

verus! {

/// Holds the detector and embedder graphs. It starts uninitialized; a
/// successful `initialize` installs both graphs, and a later one replaces them.
pub struct Registry<G> {
    detector: Option<G>,
    embedder: Option<G>,
}

/// The graphs a registry holds after `initialize` was handed the results of
/// loading the two models, and whether it succeeded: both loads must have
/// produced a graph, else nothing changes.
pub open spec fn initialize_outcome<G>(
    graphs: (Option<G>, Option<G>),
    detector: Option<G>,
    embedder: Option<G>,
) -> ((Option<G>, Option<G>), bool) {
    if detector is Some && embedder is Some {
        ((detector, embedder), true)
    } else {
        (graphs, false)
    }
}

impl<G> Registry<G> {
    /// The installed detector and embedder graphs.
    pub closed spec fn graphs(&self) -> (Option<G>, Option<G>) {
        (self.detector, self.embedder)
    }

    /// Whether both graphs are installed.
    pub open spec fn is_ready(&self) -> bool {
        self.graphs().0 is Some && self.graphs().1 is Some
    }

    /// A registry with no graphs installed.
    pub fn new() -> (r: Registry<G>)
        ensures
            r.graphs() == (None::<G>, None::<G>),
    {
        Registry { detector: None, embedder: None }
    }

    /// Installs freshly loaded graphs. `detector` and `embedder` are the
    /// results of loading the two model definitions, `None` where a definition
    /// could not be loaded; then the call fails with `ModelLoad` and the
    /// registry keeps what it held.
    pub fn initialize(&mut self, detector: Option<G>, embedder: Option<G>) -> (r: Result<(), FaceError>)
        ensures
            (final(self).graphs(), r is Ok) == initialize_outcome(old(self).graphs(), detector, embedder),
            r is Err ==> r == Err::<(), FaceError>(FaceError::ModelLoad),
    {
        if detector.is_none() || embedder.is_none() {
            return Err(FaceError::ModelLoad);
        }
        self.detector = detector;
        self.embedder = embedder;
        Ok(())
    }

    /// The detector graph, or `NotInitialized` where none is installed.
    pub fn detector(&self) -> (r: Result<&G, FaceError>)
        ensures
            self.graphs().0 is None ==> r is Err && r->Err_0 == FaceError::NotInitialized,
            self.graphs().0 is Some ==> r is Ok && *r->Ok_0 == self.graphs().0->Some_0,
    {
        match &self.detector {
            Some(g) => Ok(g),
            None => Err(FaceError::NotInitialized),
        }
    }

    /// The embedder graph, or `NotInitialized` where none is installed.
    pub fn embedder(&self) -> (r: Result<&G, FaceError>)
        ensures
            self.graphs().1 is None ==> r is Err && r->Err_0 == FaceError::NotInitialized,
            self.graphs().1 is Some ==> r is Ok && *r->Ok_0 == self.graphs().1->Some_0,
    {
        match &self.embedder {
            Some(g) => Ok(g),
            None => Err(FaceError::NotInitialized),
        }
    }
}

/// Initializing twice with graphs that loaded succeeds the second time as
/// well, and leaves the registry ready with the graphs of the second call,
/// whatever it held before.
pub proof fn lemma_initialize_twice<G>(
    graphs: (Option<G>, Option<G>),
    first_detector: G,
    first_embedder: G,
    second_detector: G,
    second_embedder: G,
)
    ensures
        ({
            let first = initialize_outcome(graphs, Some(first_detector), Some(first_embedder));
            let second = initialize_outcome(first.0, Some(second_detector), Some(second_embedder));
            &&& first.1
            &&& second.1
            &&& second.0 == (Some(second_detector), Some(second_embedder))
        }),
{
}

} // verus!
