//! The application's metadata row, which holds the saved preference.
use vstd::prelude::*;

verus! {

/// Version of the storage schema this application writes.
pub const APPLICATION_VERSION: i32 = 1;

/// The metadata row: schema version and the preference as JSON text.
#[derive(Debug)]
pub struct ApplicationMetaModel {
    pub version: i32,
    pub preference: String,
}

impl Default for ApplicationMetaModel {
    fn default() -> (r: Self)
        ensures
            r.version == APPLICATION_VERSION,
            r.preference@ == Seq::<char>::empty(),
    {
        ApplicationMetaModel { version: APPLICATION_VERSION, preference: String::new() }
    }
}

/// The metadata in force: the last stored row, or the defaults when there is none.
pub fn load_application_meta(rows: Vec<ApplicationMetaModel>) -> (r: ApplicationMetaModel)
    ensures
        rows@.len() > 0 ==> r == rows@.last(),
        rows@.len() == 0 ==> r.version == APPLICATION_VERSION && r.preference@ == Seq::<char>::empty(),
{
    let mut rows = rows;
    match rows.pop() {
        Some(meta) => meta,
        None => ApplicationMetaModel::default(),
    }
}

} // verus!
