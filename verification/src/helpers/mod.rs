//! Helpers: resource locations, time conversions and decimal rounding.
pub mod converters;
pub mod decimal_calculators;
pub mod text;

use vstd::prelude::*;

verus! {

/// The folder that holds the SSL keys and the server configuration file.
pub fn get_resources() -> (r: String)
    ensures
        r@ == seq!['r', 'e', 's', 'o', 'u', 'r', 'c', 'e', 's'],
{
    let r = String::from_str("resources");
    proof {
        reveal_strlit("resources");
    }
    r
}

/// The server settings file inside the resources folder.
pub fn get_toml_file_path() -> (r: String)
    ensures
        r@ == "resources/server_settings.toml"@,
{
    let resources = get_resources();
    let r = resources.concat("/").concat("server_settings.toml");
    proof {
        reveal_strlit("/");
        reveal_strlit("server_settings.toml");
        reveal_strlit("resources/server_settings.toml");
        assert(r@ =~= "resources/server_settings.toml"@);
    }
    r
}

} // verus!
