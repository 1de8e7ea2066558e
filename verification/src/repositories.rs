//! Where the database file lives.
use vstd::prelude::*;

verus! {

/// The path `std` builds by joining `name` onto the directory `base`.
pub uninterp spec fn joined_path(base: Seq<char>, name: Seq<char>) -> Seq<char>;

/// Calls `std::path::Path::join` and renders the result with
/// `to_string_lossy`; the result is named, not described (it follows the
/// platform's separator rules).
#[verifier::external_body]
fn join_path(base: &str, name: &str) -> (r: String)
    ensures
        r@ == joined_path(base@, name@),
{
    std::path::Path::new(base).join(name).to_string_lossy().into_owned()
}

/// Knows the application directory and the database path in it.
pub trait IDatabaseService: Send + Sync + 'static {
    fn set_app_dir(&mut self, app_dir: String);

    fn db_path(&self) -> String;
}

/// The database service: the database is `store.db` in the application directory.
#[derive(Debug)]
pub struct DatabaseServiceImpl {
    app_dir: String,
}

impl View for DatabaseServiceImpl {
    type V = Seq<char>;

    closed spec fn view(&self) -> Seq<char> {
        self.app_dir@
    }
}

impl DatabaseServiceImpl {
    /// A service whose application directory is not set yet (empty).
    pub fn new() -> (r: Self)
        ensures
            r@ == Seq::<char>::empty(),
    {
        DatabaseServiceImpl { app_dir: String::new() }
    }
}

impl IDatabaseService for DatabaseServiceImpl {
    /// Sets the application directory.
    fn set_app_dir(&mut self, app_dir: String)
        ensures
            final(self)@ == app_dir@,
    {
        self.app_dir = app_dir;
    }

    /// `store.db` inside the application directory.
    fn db_path(&self) -> (r: String)
        ensures
            r@ == joined_path(self@, "store.db"@),
    {
        join_path(self.app_dir.as_str(), "store.db")
    }
}

} // verus!
