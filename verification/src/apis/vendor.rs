//! Data vendors by name.
use crate::helpers::text::str_eq;
use crate::messages::data_server_messaging::FundForgeError;
use crate::standardized_types::DataVendor;
use vstd::prelude::*;

verus! {

impl DataVendor {
    /// The vendor named `s`; only the test vendor is known by name.
    pub fn from_str(s: &str) -> (r: Result<DataVendor, FundForgeError>)
        ensures
            s@ == "Test"@ ==> r == Ok::<DataVendor, FundForgeError>(DataVendor::Test),
            s@ != "Test"@ ==> (r matches Err(FundForgeError::ClientSideErrorDebug(m)) && m@
                == "Unknown DataVendor string: "@ + s@),
    {
        if str_eq(s, "Test") {
            Ok(DataVendor::Test)
        } else {
            Err(
                FundForgeError::ClientSideErrorDebug(
                    String::from_str("Unknown DataVendor string: ").concat(s),
                ),
            )
        }
    }
}

} // verus!
