//! What the running application knows about its own configuration.
use vstd::prelude::*;

verus! {

/// The application's context: the path of its main script.
#[derive(Debug, Clone)]
pub struct AppContext {
    pub main_file_path: String,
}

impl AppContext {
    pub fn new(main_file_path: String) -> (r: AppContext)
        ensures
            r.main_file_path == main_file_path,
    {
        AppContext { main_file_path }
    }
}

} // verus!
