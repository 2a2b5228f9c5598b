//! The economic data sets of the FRED database.
use crate::helpers::text::str_eq;
use crate::standardized_types::Resolution;
use vstd::prelude::*;

verus! {

/// The FRED data sets the engine knows.
#[derive(Clone, Copy, Debug, PartialEq, Eq, Structural)]
pub enum FredDataSet {
    GrossNationalProductPerCapita,
    GrossDomesticProduct,
}

/// The resolutions a data set is published at: yearly for both.
pub fn fred_data_resolutions(data: FredDataSet) -> (r: Vec<Resolution>)
    ensures
        r@ == seq![Resolution::Year],
{
    match data {
        FredDataSet::GrossNationalProductPerCapita => vec![Resolution::Year],
        FredDataSet::GrossDomesticProduct => vec![Resolution::Year],
    }
}

impl FredDataSet {
    /// The series code FRED uses.
    pub open spec fn spec_code(self) -> Seq<char> {
        match self {
            FredDataSet::GrossNationalProductPerCapita => "GNPCA"@,
            FredDataSet::GrossDomesticProduct => "GDP"@,
        }
    }

    /// The series code FRED uses: `"GNPCA"` or `"GDP"`.
    pub fn to_string(&self) -> (r: String)
        ensures
            r@ == self.spec_code(),
    {
        match self {
            FredDataSet::GrossNationalProductPerCapita => String::from_str("GNPCA"),
            FredDataSet::GrossDomesticProduct => String::from_str("GDP"),
        }
    }

    /// The data set with series code `s`; other codes give `"Unknown dataset: <s>"`.
    pub fn from_str(s: &str) -> (r: Result<FredDataSet, String>)
        ensures
            s@ == "GNPCA"@ ==> r == Ok::<FredDataSet, String>(
                FredDataSet::GrossNationalProductPerCapita,
            ),
            s@ == "GDP"@ ==> r == Ok::<FredDataSet, String>(FredDataSet::GrossDomesticProduct),
            s@ != "GNPCA"@ && s@ != "GDP"@ ==> (r matches Err(m) && m@ == "Unknown dataset: "@
                + s@),
    {
        proof {
            reveal_strlit("GNPCA");
            reveal_strlit("GDP");
            assert("GNPCA"@.len() != "GDP"@.len());
        }
        if str_eq(s, "GNPCA") {
            Ok(FredDataSet::GrossNationalProductPerCapita)
        } else if str_eq(s, "GDP") {
            Ok(FredDataSet::GrossDomesticProduct)
        } else {
            Err(String::from_str("Unknown dataset: ").concat(s))
        }
    }
}

/// Reading back a data set's code gives the data set.
pub proof fn law_fred_code_round_trip(data: FredDataSet)
    ensures
        data.spec_code() == "GNPCA"@ || data.spec_code() == "GDP"@,
        (data.spec_code() == "GNPCA"@) == (data == FredDataSet::GrossNationalProductPerCapita),
{
    reveal_strlit("GNPCA");
    reveal_strlit("GDP");
    assert("GNPCA"@.len() != "GDP"@.len());
}

} // verus!
