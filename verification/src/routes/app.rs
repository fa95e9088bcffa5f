//! The state shared by the routes.

use vstd::prelude::*;
use std::sync::{Arc, Mutex};

verus! {

#[verifier::external_type_specification]
#[verifier::external_body]
#[verifier::reject_recursive_types(T)]
pub struct ExMutex<T: ?Sized>(Mutex<T>);

/// The routes' shared state: the subscription store, behind a lock.
#[verifier::reject_recursive_types(R)]
pub struct Application<R: ?Sized> {
    pub repo: Arc<Mutex<R>>,
}

impl<R: ?Sized> Application<R> {
    /// The state around the store `repo`.
    pub fn new(repo: Arc<Mutex<R>>) -> (app: Self)
        ensures
            app.repo == repo,
    {
        Application { repo }
    }
}

} // verus!
