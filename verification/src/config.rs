//! The saved settings, and the names of the files they are written through.
use crate::text::{chars_of, extend_str, string_of};
use vstd::prelude::*;

verus! {

/// The settings kept between runs: the chosen output folder, if any.
#[derive(Debug, Clone)]
pub struct AppConfig {
    pub output_directory: Option<String>,
}

impl Default for AppConfig {
    fn default() -> (r: Self)
        ensures
            r.output_directory is None,
    {
        AppConfig { output_directory: None }
    }
}

impl AppConfig {
    /// The settings with the output folder changed.
    pub fn with_output_directory(self, path: String) -> (r: Self)
        ensures
            r.output_directory == Some(path),
    {
        AppConfig { output_directory: Some(path) }
    }
}

/// The name of the temporary file that a JSON file is first written to before it replaces the
/// file: `.<name>.<unique id>.tmp`, the id fresh for each call.
pub fn temporary_file_name(file_name: &str) -> (r: String)
    ensures
        exists|id: Seq<char>|
            crate::unique::is_random_uuid_text(id) && r@ == "."@ + file_name@ + "."@ + id + ".tmp"@,
{
    let id = crate::unique::new_unique_id();
    let mut v = chars_of(".");
    extend_str(&mut v, file_name);
    extend_str(&mut v, ".");
    extend_str(&mut v, id.as_str());
    extend_str(&mut v, ".tmp");
    assert(v@ =~= "."@ + file_name@ + "."@ + id@ + ".tmp"@);
    string_of(v.as_slice())
}

} // verus!
